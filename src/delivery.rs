//! Storing a generated document pair: the XML document that was requested,
//! then the PDF rendering of the same provider request.
//!
//! Like the polling protocol, this is a state machine: the caller stores
//! the bytes under the key of each `Store` action, reads the PDF when asked
//! to, and reports the outcome, until a `Respond` action carries the keys
//! of both stored documents or the class of the failure.
use vstd::prelude::*;

use crate::errors::{spec_error_kind, ErrorKind, QrpError};
use crate::qrp::{base64_decoded, format_extension, QrpFormat, QrpResponse};
use crate::storage::{object_key_at, spec_object_key, timestamp_label, LAST_LABELLED_SECOND};

verus! {

/// What storing a ready document takes: its decoded bytes and its key, or
/// the class of failure when it has no content, its content is not valid
/// base64, or the instant `secs` has no label.
pub open spec fn spec_upload(vat_number: Seq<char>, user: Seq<char>, r: QrpResponse, secs: i64) -> Result<(Seq<u8>, Seq<char>), ErrorKind> {
    match r.content {
        None => Err(ErrorKind::CervedError),
        Some(c) => match base64_decoded(c@) {
            None => Err(ErrorKind::CervedError),
            Some(bytes) => if 0 <= secs <= LAST_LABELLED_SECOND {
                Ok((bytes, spec_object_key(vat_number, user, r.format, timestamp_label(secs))))
            } else {
                Err(ErrorKind::InternalServerError)
            },
        },
    }
}

/// The bytes and the key to store a ready document under.
pub fn prepare_upload(vat_number: &String, user: &String, r: &QrpResponse, secs: i64) -> (res: Result<(Vec<u8>, String), ErrorKind>)
    ensures
        match spec_upload(vat_number@, user@, *r, secs) {
            Ok((bytes, key)) => res matches Ok((d, k)) && d@ == bytes && k@ == key,
            Err(kind) => res == Err::<(Vec<u8>, String), ErrorKind>(kind),
        },
{
    if r.content.is_none() {
        return Err(ErrorKind::CervedError);
    }
    let data = match r.decode_content() {
        Ok(d) => d,
        Err(e) => return Err(e.kind()),
    };
    match object_key_at(vat_number, user, r.format, secs) {
        Some(k) => Ok((data, k)),
        None => Err(ErrorKind::InternalServerError),
    }
}

/// A stored key names the document's own format: the key of a PDF ends in
/// `.pdf` and that of an XML document in `.xml`.
pub proof fn lemma_key_names_own_format(vat_number: Seq<char>, user: Seq<char>, r: QrpResponse, secs: i64)
    requires
        spec_upload(vat_number, user, r, secs) is Ok,
    ensures
        ({
            let key = spec_upload(vat_number, user, r, secs)->Ok_0.1;
            &&& key.len() >= 4
            &&& key.subrange(key.len() - 4, key.len() as int) == seq!['.'] + format_extension(r.format)
        }),
{
    let key = spec_upload(vat_number, user, r, secs)->Ok_0.1;
    let ext = seq!['.'] + format_extension(r.format);
    let label = timestamp_label(secs);
    assert(key == "qrp/"@ + vat_number + "/"@ + label + "_"@ + user + ext) by {
        assert(("qrp/"@ + vat_number + "/"@ + label + "_"@ + user + "."@ + format_extension(r.format))
            =~= ("qrp/"@ + vat_number + "/"@ + label + "_"@ + user + ext)) by {
            reveal_strlit(".");
        }
    }
    assert(key.subrange(key.len() - 4, key.len() as int) =~= ext);
}

/// Keys of a stored document pair.
#[derive(Clone, Debug, PartialEq, Eq)]
pub struct StoredKeys {
    pub xml_key: String,
    pub pdf_key: String,
}

/// Where storing a pair stands.
#[derive(Clone, Copy, Debug, PartialEq, Eq, Structural)]
pub enum StorePhase {
    StoringXml,
    ReadingPdf,
    StoringPdf,
    Done,
}

/// What the caller is asked to do next.
#[derive(Debug)]
pub enum StoreAction {
    /// Store these bytes under this key, then report `Stored`.
    Store { data: Vec<u8>, key: String },
    /// Read the PDF of this provider request, then report `PdfRead`.
    ReadPdf { request_id: u32 },
    /// The final answer.
    Respond(Result<StoredKeys, ErrorKind>),
}

/// What the caller reports back.
#[derive(Debug)]
pub enum StoreEvent {
    /// Whether storing succeeded.
    Stored(bool),
    /// The outcome of reading the PDF.
    PdfRead(Result<QrpResponse, QrpError>),
}

/// State of storing one document pair.
#[derive(Clone, Debug)]
pub struct StoreFlow {
    pub phase: StorePhase,
    pub vat_number: String,
    pub user: String,
    pub request_id: u32,
    pub xml_key: String,
    pub pdf_key: String,
}

impl StoreFlow {
    pub open spec fn accepts(&self, e: StoreEvent) -> bool {
        match e {
            StoreEvent::Stored(_) => self.phase == StorePhase::StoringXml || self.phase
                == StorePhase::StoringPdf,
            StoreEvent::PdfRead(_) => self.phase == StorePhase::ReadingPdf,
        }
    }

    /// Whether `e` may be reported now.
    pub fn accepts_event(&self, e: &StoreEvent) -> (r: bool)
        ensures
            r == self.accepts(*e),
    {
        match e {
            StoreEvent::Stored(_) => self.phase == StorePhase::StoringXml || self.phase
                == StorePhase::StoringPdf,
            StoreEvent::PdfRead(_) => self.phase == StorePhase::ReadingPdf,
        }
    }

    /// Starts storing the pair of the ready document `xml`, `secs` seconds
    /// after the Unix epoch: the first action stores it.
    pub fn start(vat_number: String, user: String, xml: &QrpResponse, secs: i64) -> (r: (StoreFlow, StoreAction))
        ensures
            r.0.vat_number == vat_number,
            r.0.user == user,
            r.0.request_id == xml.request_id,
            match spec_upload(vat_number@, user@, *xml, secs) {
                Ok((bytes, key)) => {
                    &&& r.0.phase == StorePhase::StoringXml
                    &&& r.0.xml_key@ == key
                    &&& r.1 matches StoreAction::Store { data, key: k } && data@ == bytes && k@ == key
                },
                Err(kind) => {
                    &&& r.0.phase == StorePhase::Done
                    &&& r.1 == StoreAction::Respond(Err(kind))
                },
            },
    {
        let prepared = prepare_upload(&vat_number, &user, xml, secs);
        match prepared {
            Ok((data, key)) => {
                let flow = StoreFlow {
                    phase: StorePhase::StoringXml,
                    vat_number,
                    user,
                    request_id: xml.request_id,
                    xml_key: key.clone(),
                    pdf_key: String::new(),
                };
                (flow, StoreAction::Store { data, key })
            },
            Err(kind) => {
                let flow = StoreFlow {
                    phase: StorePhase::Done,
                    vat_number,
                    user,
                    request_id: xml.request_id,
                    xml_key: String::new(),
                    pdf_key: String::new(),
                };
                (flow, StoreAction::Respond(Err(kind)))
            },
        }
    }

    /// Takes the outcome of the last action, at `secs` seconds after the
    /// Unix epoch, and returns the next one. A failed store is a storage
    /// failure; a failed PDF read is reported by its class; once both
    /// documents are stored the answer carries both keys.
    pub fn step(&mut self, e: StoreEvent, secs: i64) -> (a: StoreAction)
        requires
            old(self).accepts(e),
        ensures
            final(self).vat_number == old(self).vat_number,
            final(self).user == old(self).user,
            final(self).request_id == old(self).request_id,
            final(self).xml_key == old(self).xml_key,
            e == StoreEvent::Stored(false) ==> final(self).phase == StorePhase::Done && a
                == StoreAction::Respond(Err(ErrorKind::S3Error)),
            (old(self).phase == StorePhase::StoringXml && e == StoreEvent::Stored(true)) ==> (
            final(self).phase == StorePhase::ReadingPdf && a == (StoreAction::ReadPdf {
                request_id: old(self).request_id,
            })),
            (old(self).phase == StorePhase::StoringPdf && e == StoreEvent::Stored(true)) ==> (
            final(self).phase == StorePhase::Done && (a matches StoreAction::Respond(Ok(keys))
                && keys.xml_key@ == old(self).xml_key@ && keys.pdf_key@ == old(self).pdf_key@)),
            e matches StoreEvent::PdfRead(Err(x)) ==> final(self).phase == StorePhase::Done && a
                == StoreAction::Respond(Err(spec_error_kind(x))),
            e matches StoreEvent::PdfRead(Ok(pdf)) ==> match spec_upload(
                old(self).vat_number@,
                old(self).user@,
                pdf,
                secs,
            ) {
                Ok((bytes, key)) => {
                    &&& final(self).phase == StorePhase::StoringPdf
                    &&& final(self).pdf_key@ == key
                    &&& a matches StoreAction::Store { data, key: k } && data@ == bytes && k@ == key
                },
                Err(kind) => {
                    &&& final(self).phase == StorePhase::Done
                    &&& a == StoreAction::Respond(Err(kind))
                },
            },
    {
        match e {
            StoreEvent::Stored(ok) => {
                if !ok {
                    self.phase = StorePhase::Done;
                    StoreAction::Respond(Err(ErrorKind::S3Error))
                } else if self.phase == StorePhase::StoringXml {
                    self.phase = StorePhase::ReadingPdf;
                    StoreAction::ReadPdf { request_id: self.request_id }
                } else {
                    self.phase = StorePhase::Done;
                    StoreAction::Respond(
                        Ok(StoredKeys { xml_key: self.xml_key.clone(), pdf_key: self.pdf_key.clone() }),
                    )
                }
            },
            StoreEvent::PdfRead(Err(x)) => {
                self.phase = StorePhase::Done;
                StoreAction::Respond(Err(x.kind()))
            },
            StoreEvent::PdfRead(Ok(pdf)) => {
                match prepare_upload(&self.vat_number, &self.user, &pdf, secs) {
                    Ok((data, key)) => {
                        self.phase = StorePhase::StoringPdf;
                        self.pdf_key = key.clone();
                        StoreAction::Store { data, key }
                    },
                    Err(kind) => {
                        self.phase = StorePhase::Done;
                        StoreAction::Respond(Err(kind))
                    },
                }
            },
        }
    }
}

} // verus!
