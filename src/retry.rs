//! The bounded polling protocol that turns a possibly deferred document
//! request into one final result.
//!
//! The protocol is a state machine: the caller performs each action it
//! returns (a create call, a read call, a wait) and feeds the outcome back
//! as an event, until a `Finish` action carries the result. Each create or
//! read is made with a freshly obtained access token by the caller; a
//! failure to obtain one is reported as a `ProviderAuth` reply.
use vstd::prelude::*;

use crate::errors::QrpError;
use crate::qrp::{parse_status, spec_from_wire, DeliveryStatus, QrpFormat, QrpResponse};
use backon::{BackoffBuilder, ExponentialBuilder};

verus! {

/// Most read calls made for one request before giving up.
pub const MAX_POLLS: u32 = 10;

/// Wait before the read that follows read number `n + 1`: one second,
/// doubled each time, capped at one minute.
pub open spec fn backoff_delay_ms(n: nat) -> nat
    decreases n,
{
    if n == 0 {
        1000
    } else {
        let d = 2 * backoff_delay_ms((n - 1) as nat);
        if d > 60000 {
            60000
        } else {
            d
        }
    }
}

/// Relies on backon's `ExponentialBuilder::default()` (no jitter, one
/// second first, factor two, at most sixty seconds) built with
/// `with_max_times(max_times)`: its iterator yields `max_times` delays and
/// then ends.
#[verifier::external_body]
fn exponential_delay_ms(max_times: u32, attempt: u32) -> (r: Option<u64>)
    ensures
        attempt < max_times ==> r == Some(backoff_delay_ms(attempt as nat) as u64),
        attempt >= max_times ==> r is None,
{
    ExponentialBuilder::default().with_max_times(max_times as usize).build().nth(
        attempt as usize,
    ).map(|d| d.as_millis() as u64)
}

/// Where a request stands.
#[derive(Clone, Copy, Debug, PartialEq, Eq, Structural)]
pub enum PollPhase {
    /// The create call was issued; its reply is awaited.
    Creating,
    /// A read call was issued; its reply is awaited.
    Reading,
    /// A wait was requested before the next read.
    Sleeping,
    /// A result was handed out.
    Finished,
}

/// What the caller reports back.
#[derive(Debug)]
pub enum PollEvent {
    /// The reply of the create or read call just issued.
    Replied(Result<QrpResponse, QrpError>),
    /// The requested wait is over.
    Waited,
}

/// What the caller is asked to do next.
#[derive(Debug)]
pub enum PollAction {
    /// Issue the create call with the request body.
    Create,
    /// Read the document with this provider id in this format.
    Read { request_id: u32, format: QrpFormat },
    /// Wait this many milliseconds, then report `Waited`.
    Wait { delay_ms: u64 },
    /// The final result.
    Finish(Result<QrpResponse, QrpError>),
}

/// State of the polling protocol for one request. `polls` counts the read
/// calls issued so far.
#[derive(Clone, Copy, Debug)]
pub struct QrpRetry {
    pub phase: PollPhase,
    pub request_id: u32,
    pub format: QrpFormat,
    pub polls: u32,
}

pub type Reply = Result<QrpResponse, QrpError>;

pub open spec fn is_deferred_reply(r: Reply) -> bool {
    r matches Ok(resp) && resp.delivery_status == DeliveryStatus::Deferred
}

pub open spec fn is_ready_reply(r: Reply) -> bool {
    r matches Ok(resp) && resp.delivery_status == DeliveryStatus::Ready
}

impl QrpRetry {
    pub open spec fn wf(&self) -> bool {
        match self.phase {
            PollPhase::Creating => self.polls == 0,
            PollPhase::Reading => 1 <= self.polls <= MAX_POLLS,
            PollPhase::Sleeping => 1 <= self.polls < MAX_POLLS,
            PollPhase::Finished => self.polls <= MAX_POLLS,
        }
    }

    /// Whether the state takes the event: a reply while a call is
    /// outstanding, `Waited` while waiting.
    pub open spec fn accepts(&self, e: PollEvent) -> bool {
        match e {
            PollEvent::Waited => self.phase == PollPhase::Sleeping,
            PollEvent::Replied(_) => self.phase == PollPhase::Creating || self.phase
                == PollPhase::Reading,
        }
    }
}

/// The state right after the create call was issued.
pub open spec fn generating() -> QrpRetry {
    QrpRetry { phase: PollPhase::Creating, request_id: 0, format: QrpFormat::Xml, polls: 0 }
}

/// The state right after the first read of an existing request was issued.
pub open spec fn reading(request_id: u32, format: QrpFormat) -> QrpRetry {
    QrpRetry { phase: PollPhase::Reading, request_id, format, polls: 1 }
}

pub open spec fn finished(s: QrpRetry) -> QrpRetry {
    QrpRetry { phase: PollPhase::Finished, request_id: s.request_id, format: s.format, polls: s.polls }
}

/// The state after `e`.
pub open spec fn next_state(s: QrpRetry, e: PollEvent) -> QrpRetry {
    match e {
        PollEvent::Waited => QrpRetry {
            phase: PollPhase::Reading,
            request_id: s.request_id,
            format: s.format,
            polls: (s.polls + 1) as u32,
        },
        PollEvent::Replied(reply) => if !is_deferred_reply(reply) {
            finished(s)
        } else if s.phase == PollPhase::Creating {
            reading(reply->Ok_0.request_id, reply->Ok_0.format)
        } else if s.polls < MAX_POLLS {
            QrpRetry {
                phase: PollPhase::Sleeping,
                request_id: s.request_id,
                format: s.format,
                polls: s.polls,
            }
        } else {
            finished(s)
        },
    }
}

/// The action asked for after `e`: a ready document or a failure ends the
/// protocol; a deferral after the create call starts reading at once; a
/// deferral after a read waits and reads again, unless the read bound is
/// reached.
pub open spec fn next_action(s: QrpRetry, e: PollEvent) -> PollAction {
    match e {
        PollEvent::Waited => PollAction::Read { request_id: s.request_id, format: s.format },
        PollEvent::Replied(reply) => if !is_deferred_reply(reply) {
            PollAction::Finish(reply)
        } else if s.phase == PollPhase::Creating {
            PollAction::Read { request_id: reply->Ok_0.request_id, format: reply->Ok_0.format }
        } else if s.polls < MAX_POLLS {
            PollAction::Wait { delay_ms: backoff_delay_ms((s.polls - 1) as nat) as u64 }
        } else {
            PollAction::Finish(Err(QrpError::ExhaustedRetries))
        },
    }
}

impl QrpRetry {
    /// Starts a new request: the first action is the create call.
    pub fn generate() -> (r: (QrpRetry, PollAction))
        ensures
            r.0 == generating(),
            r.0.wf(),
            r.1 == PollAction::Create,
    {
        (
            QrpRetry { phase: PollPhase::Creating, request_id: 0, format: QrpFormat::Xml, polls: 0 },
            PollAction::Create,
        )
    }

    /// Starts polling an existing request: the first action reads it.
    pub fn read(request_id: u32, format: QrpFormat) -> (r: (QrpRetry, PollAction))
        ensures
            r.0 == reading(request_id, format),
            r.0.wf(),
            r.1 == (PollAction::Read { request_id, format }),
    {
        (
            QrpRetry { phase: PollPhase::Reading, request_id, format, polls: 1 },
            PollAction::Read { request_id, format },
        )
    }

    /// Whether `e` may be reported now.
    pub fn accepts_event(&self, e: &PollEvent) -> (r: bool)
        ensures
            r == self.accepts(*e),
    {
        match e {
            PollEvent::Waited => self.phase == PollPhase::Sleeping,
            PollEvent::Replied(_) => self.phase == PollPhase::Creating || self.phase
                == PollPhase::Reading,
        }
    }

    /// Whether a result was handed out.
    pub fn is_finished(&self) -> (r: bool)
        ensures
            r == (self.phase == PollPhase::Finished),
    {
        self.phase == PollPhase::Finished
    }

    /// Takes the outcome of the last action and returns the next one.
    pub fn step(&mut self, e: PollEvent) -> (a: PollAction)
        requires
            old(self).wf(),
            old(self).accepts(e),
        ensures
            final(self).wf(),
            *final(self) == next_state(*old(self), e),
            a == next_action(*old(self), e),
    {
        match e {
            PollEvent::Waited => {
                self.phase = PollPhase::Reading;
                self.polls = self.polls + 1;
                PollAction::Read { request_id: self.request_id, format: self.format }
            },
            PollEvent::Replied(reply) => match reply {
                Err(x) => {
                    self.phase = PollPhase::Finished;
                    PollAction::Finish(Err(x))
                },
                Ok(resp) => match resp.delivery_status {
                    DeliveryStatus::Ready => {
                        self.phase = PollPhase::Finished;
                        PollAction::Finish(Ok(resp))
                    },
                    DeliveryStatus::Deferred => {
                        if self.phase == PollPhase::Creating {
                            self.phase = PollPhase::Reading;
                            self.request_id = resp.request_id;
                            self.format = resp.format;
                            self.polls = 1;
                            PollAction::Read { request_id: resp.request_id, format: resp.format }
                        } else if self.polls < MAX_POLLS {
                            match exponential_delay_ms(MAX_POLLS, self.polls - 1) {
                                Some(d) => {
                                    self.phase = PollPhase::Sleeping;
                                    PollAction::Wait { delay_ms: d }
                                },
                                None => {
                                    self.phase = PollPhase::Finished;
                                    PollAction::Finish(Err(QrpError::ExhaustedRetries))
                                },
                            }
                        } else {
                            self.phase = PollPhase::Finished;
                            PollAction::Finish(Err(QrpError::ExhaustedRetries))
                        }
                    },
                },
            },
        }
    }
}

pub open spec fn rank(s: QrpRetry) -> nat {
    if s.phase == PollPhase::Sleeping {
        1
    } else {
        0
    }
}

/// The actions the protocol asks for from state `s` when its create and
/// read calls get `replies` in turn and every wait is completed; it stops
/// at a result or when the replies run out.
pub open spec fn run(s: QrpRetry, replies: Seq<Reply>) -> Seq<PollAction>
    decreases replies.len(), rank(s),
{
    if s.phase == PollPhase::Finished {
        seq![]
    } else if s.phase == PollPhase::Sleeping {
        seq![next_action(s, PollEvent::Waited)] + run(next_state(s, PollEvent::Waited), replies)
    } else if replies.len() == 0 {
        seq![]
    } else {
        seq![next_action(s, PollEvent::Replied(replies[0]))] + run(
            next_state(s, PollEvent::Replied(replies[0])),
            replies.drop_first(),
        )
    }
}

/// Every action of a new request whose calls get `replies` in turn,
/// starting with its create call.
pub open spec fn protocol(replies: Seq<Reply>) -> Seq<PollAction> {
    seq![PollAction::Create] + run(generating(), replies)
}

pub open spec fn count_creates(acts: Seq<PollAction>) -> nat
    decreases acts.len(),
{
    if acts.len() == 0 {
        0
    } else {
        (if acts[0] is Create {
            1nat
        } else {
            0nat
        }) + count_creates(acts.drop_first())
    }
}

pub open spec fn count_reads(acts: Seq<PollAction>) -> nat
    decreases acts.len(),
{
    if acts.len() == 0 {
        0
    } else {
        (if acts[0] is Read {
            1nat
        } else {
            0nat
        }) + count_reads(acts.drop_first())
    }
}

/// The waits asked for, in order.
pub open spec fn delays(acts: Seq<PollAction>) -> Seq<u64>
    decreases acts.len(),
{
    if acts.len() == 0 {
        seq![]
    } else {
        (match acts[0] {
            PollAction::Wait { delay_ms } => seq![delay_ms],
            _ => Seq::<u64>::empty(),
        }) + delays(acts.drop_first())
    }
}

pub open spec fn non_decreasing(d: Seq<u64>) -> bool {
    forall|i: int, j: int| 0 <= i <= j < d.len() ==> d[i] <= d[j]
}

proof fn lemma_cons(a: PollAction, rest: Seq<PollAction>)
    ensures
        (seq![a] + rest).len() > 0,
        (seq![a] + rest).last() == (if rest.len() == 0 {
            a
        } else {
            rest.last()
        }),
        count_creates(seq![a] + rest) == (if a is Create {
            1nat
        } else {
            0nat
        }) + count_creates(rest),
        count_reads(seq![a] + rest) == (if a is Read {
            1nat
        } else {
            0nat
        }) + count_reads(rest),
        delays(seq![a] + rest) == (match a {
            PollAction::Wait { delay_ms } => seq![delay_ms],
            _ => Seq::<u64>::empty(),
        }) + delays(rest),
{
    assert((seq![a] + rest).drop_first() =~= rest);
    assert((seq![a] + rest)[0] == a);
}

proof fn lemma_backoff_bounded(n: nat)
    ensures
        1000 <= backoff_delay_ms(n) <= 60000,
    decreases n,
{
    if n > 0 {
        lemma_backoff_bounded((n - 1) as nat);
    }
}

/// The wait never shrinks from one read to the next.
pub proof fn lemma_backoff_monotone(a: nat, b: nat)
    requires
        a <= b,
    ensures
        backoff_delay_ms(a) <= backoff_delay_ms(b),
    decreases b - a,
{
    if a < b {
        lemma_backoff_monotone(a, (b - 1) as nat);
        lemma_backoff_bounded((b - 1) as nat);
    }
}

/// From a read in flight, `j` more deferrals and then a ready document
/// give that document after exactly `j` further reads, with the waits of
/// the schedule in order.
proof fn lemma_reading_until_ready(s: QrpRetry, replies: Seq<Reply>, j: nat)
    requires
        s.wf(),
        s.phase == PollPhase::Reading,
        s.polls + j <= MAX_POLLS,
        j < replies.len(),
        forall|i: int| 0 <= i < j ==> is_deferred_reply(#[trigger] replies[i]),
        is_ready_reply(replies[j as int]),
    ensures
        run(s, replies).len() > 0,
        run(s, replies).last() == PollAction::Finish(replies[j as int]),
        count_creates(run(s, replies)) == 0,
        count_reads(run(s, replies)) == j,
        delays(run(s, replies)) == Seq::new(
            j,
            |i: int| backoff_delay_ms((s.polls - 1 + i) as nat) as u64,
        ),
    decreases j,
{
    let e = PollEvent::Replied(replies[0]);
    let t = next_state(s, e);
    let rest = replies.drop_first();
    if j == 0 {
        assert(run(t, rest) == Seq::<PollAction>::empty());
        lemma_cons(next_action(s, e), run(t, rest));
        assert(delays(Seq::<PollAction>::empty()) =~= Seq::<u64>::empty());
        assert(Seq::new(0, |i: int| backoff_delay_ms((s.polls - 1 + i) as nat) as u64) =~= Seq::<
            u64,
        >::empty());
    } else {
        assert(is_deferred_reply(replies[0]));
        let u = next_state(t, PollEvent::Waited);
        assert forall|i: int| 0 <= i < j - 1 implies is_deferred_reply(#[trigger] rest[i]) by {
            assert(rest[i] == replies[i + 1]);
        }
        assert(rest[j - 1] == replies[j as int]);
        lemma_reading_until_ready(u, rest, (j - 1) as nat);
        lemma_cons(next_action(t, PollEvent::Waited), run(u, rest));
        lemma_cons(next_action(s, e), run(t, rest));
        assert(delays(run(s, replies)) =~= Seq::new(
            j,
            |i: int| backoff_delay_ms((s.polls - 1 + i) as nat) as u64,
        ));
    }
}

/// From a read in flight, deferrals until the read bound give up with
/// `ExhaustedRetries` after the remaining reads.
proof fn lemma_reading_exhausted(s: QrpRetry, replies: Seq<Reply>)
    requires
        s.wf(),
        s.phase == PollPhase::Reading,
        MAX_POLLS - s.polls < replies.len(),
        forall|i: int| 0 <= i <= MAX_POLLS - s.polls ==> is_deferred_reply(#[trigger] replies[i]),
    ensures
        run(s, replies).len() > 0,
        run(s, replies).last() == PollAction::Finish(Err(QrpError::ExhaustedRetries)),
        count_creates(run(s, replies)) == 0,
        count_reads(run(s, replies)) == MAX_POLLS - s.polls,
    decreases MAX_POLLS - s.polls,
{
    let e = PollEvent::Replied(replies[0]);
    let t = next_state(s, e);
    let rest = replies.drop_first();
    assert(is_deferred_reply(replies[0]));
    if s.polls == MAX_POLLS {
        assert(run(t, rest) == Seq::<PollAction>::empty());
        lemma_cons(next_action(s, e), run(t, rest));
    } else {
        let u = next_state(t, PollEvent::Waited);
        assert forall|i: int| 0 <= i <= MAX_POLLS - u.polls implies is_deferred_reply(
            #[trigger] rest[i],
        ) by {
            assert(rest[i] == replies[i + 1]);
        }
        lemma_reading_exhausted(u, rest);
        lemma_cons(next_action(t, PollEvent::Waited), run(u, rest));
        lemma_cons(next_action(s, e), run(t, rest));
    }
}

/// A request whose create call answers with a ready document is done after
/// that one call: one create, no read, and the document is the result.
pub proof fn lemma_ready_on_create(replies: Seq<Reply>)
    requires
        replies.len() >= 1,
        is_ready_reply(replies[0]),
    ensures
        protocol(replies) == seq![PollAction::Create, PollAction::Finish(replies[0])],
        count_creates(protocol(replies)) == 1,
        count_reads(protocol(replies)) == 0,
{
    let e = PollEvent::Replied(replies[0]);
    let t = next_state(generating(), e);
    assert(run(t, replies.drop_first()) == Seq::<PollAction>::empty());
    assert(protocol(replies) =~= seq![PollAction::Create, PollAction::Finish(replies[0])]);
    lemma_cons(PollAction::Finish(replies[0]), Seq::<PollAction>::empty());
    lemma_cons(PollAction::Create, seq![PollAction::Finish(replies[0])]);
}

/// A request deferred by its create call and its first `k - 1` reads and
/// ready at read `k` (within the read bound) yields that document after
/// one create and exactly `k` reads, waiting no less before each read than
/// before the one before it.
pub proof fn lemma_ready_after_deferrals(replies: Seq<Reply>, k: nat)
    requires
        1 <= k <= MAX_POLLS,
        k < replies.len(),
        forall|i: int| 0 <= i < k ==> is_deferred_reply(#[trigger] replies[i]),
        is_ready_reply(replies[k as int]),
    ensures
        protocol(replies).last() == PollAction::Finish(replies[k as int]),
        count_creates(protocol(replies)) == 1,
        count_reads(protocol(replies)) == k,
        delays(protocol(replies)).len() == k - 1,
        non_decreasing(delays(protocol(replies))),
{
    let e = PollEvent::Replied(replies[0]);
    assert(is_deferred_reply(replies[0]));
    let t = next_state(generating(), e);
    let rest = replies.drop_first();
    assert forall|i: int| 0 <= i < k - 1 implies is_deferred_reply(#[trigger] rest[i]) by {
        assert(rest[i] == replies[i + 1]);
    }
    assert(rest[k - 1] == replies[k as int]);
    lemma_reading_until_ready(t, rest, (k - 1) as nat);
    lemma_cons(next_action(generating(), e), run(t, rest));
    lemma_cons(PollAction::Create, run(generating(), replies));
    let d = delays(protocol(replies));
    assert(d =~= Seq::new((k - 1) as nat, |i: int| backoff_delay_ms(i as nat) as u64));
    assert forall|a: int, b: int| 0 <= a <= b < d.len() implies d[a] <= d[b] by {
        lemma_backoff_monotone(a as nat, b as nat);
        lemma_backoff_bounded(a as nat);
        lemma_backoff_bounded(b as nat);
    }
}

/// A request deferred by its create call and by every read up to the read
/// bound fails with `ExhaustedRetries` after one create and exactly that
/// many reads.
pub proof fn lemma_exhausted_after_max_polls(replies: Seq<Reply>)
    requires
        MAX_POLLS < replies.len(),
        forall|i: int| 0 <= i <= MAX_POLLS ==> is_deferred_reply(#[trigger] replies[i]),
    ensures
        protocol(replies).last() == PollAction::Finish(Err(QrpError::ExhaustedRetries)),
        count_creates(protocol(replies)) == 1,
        count_reads(protocol(replies)) == MAX_POLLS,
{
    let e = PollEvent::Replied(replies[0]);
    assert(is_deferred_reply(replies[0]));
    let t = next_state(generating(), e);
    let rest = replies.drop_first();
    assert forall|i: int| 0 <= i <= MAX_POLLS - 1 implies is_deferred_reply(#[trigger] rest[i]) by {
        assert(rest[i] == replies[i + 1]);
    }
    lemma_reading_exhausted(t, rest);
    lemma_cons(next_action(generating(), e), run(t, rest));
    lemma_cons(PollAction::Create, run(generating(), replies));
}

/// A response whose delivery status is not recognized is read as a
/// protocol error, and that reply ends the protocol with it at once: it is
/// never waited on or read again.
pub proof fn lemma_unrecognized_status_ends(
    s: QrpRetry,
    content: Option<String>,
    delivery_status: Seq<char>,
    format: Seq<char>,
    request_id: u32,
)
    requires
        s.wf(),
        s.phase == PollPhase::Creating || s.phase == PollPhase::Reading,
        parse_status(delivery_status) is None,
    ensures
        spec_from_wire(content, delivery_status, format, request_id) == Err::<QrpResponse, QrpError>(
            QrpError::ProviderProtocol,
        ),
        next_action(s, PollEvent::Replied(spec_from_wire(content, delivery_status, format, request_id)))
            == PollAction::Finish(Err(QrpError::ProviderProtocol)),
        next_state(
            s,
            PollEvent::Replied(spec_from_wire(content, delivery_status, format, request_id)),
        ).phase == PollPhase::Finished,
{
}

} // verus!
