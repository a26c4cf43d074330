use ceres::errors::QrpError;
use ceres::qrp::{DeliveryStatus, QrpFormat, QrpResponse};
use ceres::retry::{PollAction, PollEvent, QrpRetry, MAX_POLLS};

fn deferred(id: u32) -> Result<QrpResponse, QrpError> {
    Ok(QrpResponse {
        content: None,
        delivery_status: DeliveryStatus::Deferred,
        format: QrpFormat::Xml,
        request_id: id,
    })
}

fn ready(id: u32) -> Result<QrpResponse, QrpError> {
    Ok(QrpResponse {
        content: Some("SGk=".to_owned()),
        delivery_status: DeliveryStatus::Ready,
        format: QrpFormat::Xml,
        request_id: id,
    })
}

struct Trace {
    creates: usize,
    reads: Vec<(u32, QrpFormat)>,
    delays: Vec<u64>,
    result: Result<QrpResponse, QrpError>,
}

/// Drives a new request, answering its calls with `replies` in turn.
fn drive(mut replies: Vec<Result<QrpResponse, QrpError>>) -> Trace {
    replies.reverse();
    let (mut state, mut action) = QrpRetry::generate();
    let mut trace = Trace { creates: 0, reads: Vec::new(), delays: Vec::new(), result: Err(QrpError::ProviderAuth) };
    loop {
        let event = match action {
            PollAction::Create => {
                trace.creates += 1;
                PollEvent::Replied(replies.pop().expect("a reply for every call"))
            }
            PollAction::Read { request_id, format } => {
                trace.reads.push((request_id, format));
                PollEvent::Replied(replies.pop().expect("a reply for every call"))
            }
            PollAction::Wait { delay_ms } => {
                trace.delays.push(delay_ms);
                PollEvent::Waited
            }
            PollAction::Finish(result) => {
                assert!(state.is_finished());
                trace.result = result;
                return trace;
            }
        };
        assert!(state.accepts_event(&event));
        action = state.step(event);
    }
}

#[test]
fn ready_on_create_makes_one_call() {
    let t = drive(vec![ready(5)]);
    assert_eq!(t.creates, 1);
    assert!(t.reads.is_empty());
    assert!(t.delays.is_empty());
    assert_eq!(t.result.unwrap().request_id, 5);
}

#[test]
fn ready_after_three_deferrals() {
    let t = drive(vec![deferred(9), deferred(9), deferred(9), ready(9)]);
    assert_eq!(t.creates, 1);
    assert_eq!(t.reads, vec![(9, QrpFormat::Xml); 3]);
    assert_eq!(t.delays, vec![1000, 2000]);
    let r = t.result.unwrap();
    assert_eq!(r.delivery_status, DeliveryStatus::Ready);
    assert_eq!(r.content.as_deref(), Some("SGk="));
}

#[test]
fn ready_on_last_allowed_read() {
    let mut replies = vec![deferred(1); 10];
    replies.push(ready(1));
    let t = drive(replies);
    assert_eq!(t.reads.len(), 10);
    assert!(t.result.is_ok());
}

#[test]
fn all_polls_deferred_exhausts() {
    let t = drive(vec![deferred(4); 11]);
    assert_eq!(t.creates, 1);
    assert_eq!(t.reads.len(), MAX_POLLS as usize);
    assert_eq!(t.result.unwrap_err(), QrpError::ExhaustedRetries);
    assert_eq!(t.delays, vec![1000, 2000, 4000, 8000, 16000, 32000, 60000, 60000, 60000]);
    assert!(t.delays.windows(2).all(|w| w[0] <= w[1]));
}

#[test]
fn transport_error_is_not_retried() {
    let t = drive(vec![deferred(2), deferred(2), Err(QrpError::ProviderTransport)]);
    assert_eq!(t.reads.len(), 2);
    assert_eq!(t.result.unwrap_err(), QrpError::ProviderTransport);
}

#[test]
fn auth_error_on_create_is_not_retried() {
    let t = drive(vec![Err(QrpError::ProviderAuth)]);
    assert_eq!(t.creates, 1);
    assert!(t.reads.is_empty());
    assert_eq!(t.result.unwrap_err(), QrpError::ProviderAuth);
}

#[test]
fn unrecognized_status_fails_fast() {
    let reply = QrpResponse::from_wire(None, "QUEUED", "XML", 8);
    let t = drive(vec![deferred(8), reply]);
    assert_eq!(t.reads.len(), 1);
    assert!(t.delays.is_empty());
    assert_eq!(t.result.unwrap_err(), QrpError::ProviderProtocol);
}

#[test]
fn reading_an_existing_request() {
    let (mut state, action) = QrpRetry::read(77, QrpFormat::Pdf);
    assert!(matches!(action, PollAction::Read { request_id: 77, format: QrpFormat::Pdf }));
    let action = state.step(PollEvent::Replied(deferred(77)));
    assert!(matches!(action, PollAction::Wait { delay_ms: 1000 }));
    assert!(!state.accepts_event(&PollEvent::Replied(deferred(77))));
    let action = state.step(PollEvent::Waited);
    assert!(matches!(action, PollAction::Read { request_id: 77, format: QrpFormat::Pdf }));
    let action = state.step(PollEvent::Replied(ready(77)));
    assert!(matches!(action, PollAction::Finish(Ok(_))));
    assert!(!state.accepts_event(&PollEvent::Waited));
}
