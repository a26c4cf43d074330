use ceres::delivery::{prepare_upload, StoreAction, StoreEvent, StoreFlow, StorePhase};
use ceres::errors::{ErrorKind, QrpError};
use ceres::qrp::{DeliveryStatus, QrpFormat, QrpResponse};

fn ready(format: QrpFormat, content: &str) -> QrpResponse {
    QrpResponse {
        content: Some(content.to_owned()),
        delivery_status: DeliveryStatus::Ready,
        format,
        request_id: 31,
    }
}

const NOON: i64 = 1_722_945_600; // 06/08/2024 12:00:00 UTC

#[test]
fn stores_xml_then_pdf_under_their_own_formats() {
    let (mut flow, action) =
        StoreFlow::start("IT9".to_owned(), "anna".to_owned(), &ready(QrpFormat::Xml, "PHg+"), NOON);
    match action {
        StoreAction::Store { data, key } => {
            assert_eq!(data, b"<x>".to_vec());
            assert_eq!(key, "qrp/IT9/06_08_2024_12:00:00_anna.xml");
        }
        other => panic!("unexpected {other:?}"),
    }
    let action = flow.step(StoreEvent::Stored(true), NOON + 1);
    assert!(matches!(action, StoreAction::ReadPdf { request_id: 31 }));
    let action = flow.step(StoreEvent::PdfRead(Ok(ready(QrpFormat::Pdf, "JVBERg=="))), NOON + 2);
    match action {
        StoreAction::Store { data, key } => {
            assert_eq!(data, b"%PDF".to_vec());
            assert_eq!(key, "qrp/IT9/06_08_2024_12:00:02_anna.pdf");
        }
        other => panic!("unexpected {other:?}"),
    }
    let action = flow.step(StoreEvent::Stored(true), NOON + 3);
    match action {
        StoreAction::Respond(Ok(keys)) => {
            assert_eq!(keys.xml_key, "qrp/IT9/06_08_2024_12:00:00_anna.xml");
            assert_eq!(keys.pdf_key, "qrp/IT9/06_08_2024_12:00:02_anna.pdf");
        }
        other => panic!("unexpected {other:?}"),
    }
    assert_eq!(flow.phase, StorePhase::Done);
}

#[test]
fn failed_store_is_a_storage_error() {
    let (mut flow, _) =
        StoreFlow::start("IT9".to_owned(), "anna".to_owned(), &ready(QrpFormat::Xml, "PHg+"), NOON);
    let action = flow.step(StoreEvent::Stored(false), NOON);
    assert!(matches!(action, StoreAction::Respond(Err(ErrorKind::S3Error))));
    assert!(!flow.accepts_event(&StoreEvent::Stored(true)));
}

#[test]
fn failed_pdf_read_reports_its_class() {
    let (mut flow, _) =
        StoreFlow::start("IT9".to_owned(), "anna".to_owned(), &ready(QrpFormat::Xml, "PHg+"), NOON);
    flow.step(StoreEvent::Stored(true), NOON);
    let action = flow.step(StoreEvent::PdfRead(Err(QrpError::ExhaustedRetries)), NOON);
    assert!(matches!(action, StoreAction::Respond(Err(ErrorKind::DeferredError))));
}

#[test]
fn invalid_content_is_not_stored() {
    let (flow, action) =
        StoreFlow::start("IT9".to_owned(), "anna".to_owned(), &ready(QrpFormat::Xml, "***"), NOON);
    assert!(matches!(action, StoreAction::Respond(Err(ErrorKind::CervedError))));
    assert_eq!(flow.phase, StorePhase::Done);
}

#[test]
fn upload_preparation_errors() {
    let vat = "IT9".to_owned();
    let user = "anna".to_owned();
    let mut missing = ready(QrpFormat::Pdf, "");
    missing.content = None;
    assert_eq!(prepare_upload(&vat, &user, &missing, NOON), Err(ErrorKind::CervedError));
    assert_eq!(
        prepare_upload(&vat, &user, &ready(QrpFormat::Pdf, "JVBERg=="), -5),
        Err(ErrorKind::InternalServerError)
    );
    let (data, key) = prepare_upload(&vat, &user, &ready(QrpFormat::Pdf, "JVBERg=="), 0).unwrap();
    assert_eq!(data, b"%PDF".to_vec());
    assert_eq!(key, "qrp/IT9/01_01_1970_00:00:00_anna.pdf");
}
