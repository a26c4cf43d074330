//! Document requests and responses as the provider exchanges them.
use vstd::prelude::*;
use vstd::string::*;

use crate::errors::QrpError;
use crate::text::{decimal, decimal_text, digit_char, pair_views, same_text};
use base64::Engine;

verus! {

#[verifier::external_type_specification]
#[verifier::external_body]
pub struct ExDecodeError(base64::DecodeError);

/// Output format of a document.
#[derive(Clone, Copy, Debug, PartialEq, Eq, Structural)]
pub enum QrpFormat {
    Pdf,
    Xml,
}

/// The product that is ordered.
#[derive(Clone, Copy, Debug, PartialEq, Eq, Structural)]
pub enum QrpProduct {
    Qrp,
}

/// How the subject of a request is classified.
#[derive(Clone, Copy, Debug, PartialEq, Eq, Structural)]
pub enum SubjectType {
    Company,
    CompanyAndNorea,
    Person,
}

/// Delivery status of a provider response.
#[derive(Clone, Copy, Debug, PartialEq, Eq, Structural)]
pub enum DeliveryStatus {
    Ready,
    Deferred,
}

/// The format's name in lower case, as used for file extensions.
pub open spec fn format_extension(f: QrpFormat) -> Seq<char> {
    match f {
        QrpFormat::Pdf => seq!['p', 'd', 'f'],
        QrpFormat::Xml => seq!['x', 'm', 'l'],
    }
}

/// The format's name as it appears in a read path.
pub open spec fn format_path_name(f: QrpFormat) -> Seq<char> {
    match f {
        QrpFormat::Pdf => seq!['P', 'd', 'f'],
        QrpFormat::Xml => seq!['X', 'm', 'l'],
    }
}

/// The format's name in request and response bodies.
pub open spec fn format_wire(f: QrpFormat) -> Seq<char> {
    match f {
        QrpFormat::Pdf => seq!['P', 'D', 'F'],
        QrpFormat::Xml => seq!['X', 'M', 'L'],
    }
}

/// The format named `s` in a response body, if any.
pub open spec fn parse_format(s: Seq<char>) -> Option<QrpFormat> {
    if s == format_wire(QrpFormat::Pdf) {
        Some(QrpFormat::Pdf)
    } else if s == format_wire(QrpFormat::Xml) {
        Some(QrpFormat::Xml)
    } else {
        None
    }
}

/// The delivery status named `s` in a response body, if any.
pub open spec fn parse_status(s: Seq<char>) -> Option<DeliveryStatus> {
    if s == seq!['O', 'K'] {
        Some(DeliveryStatus::Ready)
    } else if s == seq!['D', 'E', 'F', 'E', 'R', 'R', 'E', 'D'] {
        Some(DeliveryStatus::Deferred)
    } else {
        None
    }
}

impl QrpFormat {
    /// Lower-case name of the format.
    pub fn as_str(&self) -> (r: &'static str)
        ensures
            r@ == format_extension(*self),
    {
        proof {
            reveal_strlit("pdf");
            reveal_strlit("xml");
        }
        match self {
            QrpFormat::Pdf => "pdf",
            QrpFormat::Xml => "xml",
        }
    }

    /// Name of the format as it is written in a read path.
    pub fn path_name(&self) -> (r: &'static str)
        ensures
            r@ == format_path_name(*self),
    {
        proof {
            reveal_strlit("Pdf");
            reveal_strlit("Xml");
        }
        match self {
            QrpFormat::Pdf => "Pdf",
            QrpFormat::Xml => "Xml",
        }
    }

    /// Name of the format in request and response bodies.
    pub fn wire_name(&self) -> (r: &'static str)
        ensures
            r@ == format_wire(*self),
    {
        proof {
            reveal_strlit("PDF");
            reveal_strlit("XML");
        }
        match self {
            QrpFormat::Pdf => "PDF",
            QrpFormat::Xml => "XML",
        }
    }

    /// Reads a format name of a response body.
    pub fn from_wire(s: &str) -> (r: Option<QrpFormat>)
        ensures
            r == parse_format(s@),
    {
        proof {
            reveal_strlit("PDF");
            reveal_strlit("XML");
            assert("PDF"@ =~= format_wire(QrpFormat::Pdf));
            assert("XML"@ =~= format_wire(QrpFormat::Xml));
        }
        if same_text(s, "PDF") {
            Some(QrpFormat::Pdf)
        } else if same_text(s, "XML") {
            Some(QrpFormat::Xml)
        } else {
            None
        }
    }
}

impl DeliveryStatus {
    /// Reads a delivery status of a response body.
    pub fn from_wire(s: &str) -> (r: Option<DeliveryStatus>)
        ensures
            r == parse_status(s@),
    {
        proof {
            reveal_strlit("OK");
            reveal_strlit("DEFERRED");
            assert("OK"@ =~= seq!['O', 'K']);
            assert("DEFERRED"@ =~= seq!['D', 'E', 'F', 'E', 'R', 'R', 'E', 'D']);
        }
        if same_text(s, "OK") {
            Some(DeliveryStatus::Ready)
        } else if same_text(s, "DEFERRED") {
            Some(DeliveryStatus::Deferred)
        } else {
            None
        }
    }
}

/// A provider response. `content` is present exactly when the document
/// is ready.
#[derive(Clone, Debug)]
pub struct QrpResponse {
    pub content: Option<String>,
    pub delivery_status: DeliveryStatus,
    pub format: QrpFormat,
    pub request_id: u32,
}

impl QrpResponse {
    /// The content is present exactly when the status is `Ok`.
    pub open spec fn wf(&self) -> bool {
        self.content is Some <==> self.delivery_status == DeliveryStatus::Ready
    }

}

/// What reading a response body with these fields yields: an unknown status
/// is a protocol violation, an unknown format a decoding failure, and a
/// ready document without content a protocol violation.
pub open spec fn spec_from_wire(
    content: Option<String>,
    delivery_status: Seq<char>,
    format: Seq<char>,
    request_id: u32,
) -> Result<QrpResponse, QrpError> {
    match parse_status(delivery_status) {
        None => Err(QrpError::ProviderProtocol),
        Some(status) => match parse_format(format) {
            None => Err(QrpError::ProviderTransport),
            Some(f) => if status == DeliveryStatus::Ready && content is None {
                Err(QrpError::ProviderProtocol)
            } else {
                Ok(
                    QrpResponse {
                        content: if status == DeliveryStatus::Ready {
                            content
                        } else {
                            None
                        },
                        delivery_status: status,
                        format: f,
                        request_id,
                    },
                )
            },
        },
    }
}

/// What a standard base64 decoder (with padding) yields for `s`, or `None`
/// where `s` is not valid base64.
pub uninterp spec fn base64_decoded(s: Seq<char>) -> Option<Seq<u8>>;

/// Relies on `base64::engine::general_purpose::STANDARD.decode`: the bytes
/// that the text encodes, or an error where it is not valid base64.
#[verifier::external_body]
fn decode_base64(s: &str) -> (r: Result<Vec<u8>, base64::DecodeError>)
    ensures
        match r {
            Ok(v) => base64_decoded(s@) == Some(v@),
            Err(_) => base64_decoded(s@) is None,
        },
{
    base64::engine::general_purpose::STANDARD.decode(s)
}

impl QrpResponse {
    /// Reads a response from the fields of its body.
    pub fn from_wire(content: Option<String>, delivery_status: &str, format: &str, request_id: u32) -> (r: Result<QrpResponse, QrpError>)
        ensures
            r == spec_from_wire(content, delivery_status@, format@, request_id),
            r matches Ok(resp) ==> resp.wf(),
    {
        let status = match DeliveryStatus::from_wire(delivery_status) {
            None => return Err(QrpError::ProviderProtocol),
            Some(s) => s,
        };
        let f = match QrpFormat::from_wire(format) {
            None => return Err(QrpError::ProviderTransport),
            Some(f) => f,
        };
        match status {
            DeliveryStatus::Ready => {
                if content.is_none() {
                    Err(QrpError::ProviderProtocol)
                } else {
                    Ok(QrpResponse { content, delivery_status: status, format: f, request_id })
                }
            },
            DeliveryStatus::Deferred => Ok(
                QrpResponse { content: None, delivery_status: status, format: f, request_id },
            ),
        }
    }

    /// Decodes the base64 content of a ready document; text that is not
    /// valid base64 is an error, never partial bytes.
    pub fn decode_content(&self) -> (r: Result<Vec<u8>, QrpError>)
        requires
            self.content is Some,
        ensures
            match base64_decoded(self.content->0@) {
                Some(bytes) => r matches Ok(v) && v@ == bytes,
                None => r == Err::<Vec<u8>, QrpError>(QrpError::ContentDecoding),
            },
    {
        let text = match &self.content {
            Some(t) => t,
            None => return Err(QrpError::ContentDecoding),
        };
        match decode_base64(text.as_str()) {
            Ok(v) => Ok(v),
            Err(_) => Err(QrpError::ContentDecoding),
        }
    }
}

/// The lower-case hex digit for `d < 16`.
pub open spec fn hex_char(d: nat) -> char {
    if d < 10 {
        digit_char(d)
    } else if d == 10 {
        'a'
    } else if d == 11 {
        'b'
    } else if d == 12 {
        'c'
    } else if d == 13 {
        'd'
    } else if d == 14 {
        'e'
    } else {
        'f'
    }
}

/// The last `n` hex digits of `v`, most significant first.
pub open spec fn hex_digits(v: nat, n: nat) -> Seq<char>
    decreases n,
{
    if n == 0 {
        seq![]
    } else {
        hex_digits(v / 16, (n - 1) as nat).push(hex_char(v % 16))
    }
}

/// The hyphenated text of the UUID whose 128-bit value is `v`: 32
/// lower-case hex digits in groups of 8, 4, 4, 4 and 12.
pub open spec fn uuid_text(v: u128) -> Seq<char> {
    let h = hex_digits(v as nat, 32);
    h.subrange(0, 8) + seq!['-'] + h.subrange(8, 12) + seq!['-'] + h.subrange(12, 16) + seq!['-']
        + h.subrange(16, 20) + seq!['-'] + h.subrange(20, 32)
}

/// Relies on uuid: `Uuid::from_u128` takes the value as the UUID's bytes,
/// most significant first, and `Display` writes them as lower-case hex in
/// groups of 8-4-4-4-12 joined by hyphens.
#[verifier::external_body]
fn uuid_hyphenated(v: u128) -> (r: String)
    ensures
        r@ == uuid_text(v),
{
    uuid::Uuid::from_u128(v).to_string()
}

/// Relies on `uuid::Uuid::now_v7`: a fresh time-ordered UUID, returned as
/// its 128-bit value. Nothing is known of the value.
#[verifier::external_body]
fn new_reference() -> u128 {
    uuid::Uuid::now_v7().as_u128()
}

/// The compact JSON text of an object whose members are the given keys
/// with string values.
pub uninterp spec fn json_object_text(fields: Seq<(Seq<char>, Seq<char>)>) -> Seq<char>;

/// Relies on serde_json: a `Value::Object` made of the pairs, each value a
/// `Value::String`, rendered by `to_string`.
#[verifier::external_body]
fn json_string_object(fields: Vec<(String, String)>) -> (r: String)
    ensures
        r@ == json_object_text(pair_views(fields@)),
{
    serde_json::Value::Object(
        fields.into_iter().map(|(k, v)| (k, serde_json::Value::String(v))).collect(),
    ).to_string()
}

/// The product's code in request bodies.
pub open spec fn product_wire(p: QrpProduct) -> Seq<char> {
    match p {
        QrpProduct::Qrp => seq!['6', '2', '0', '0', '1'],
    }
}

/// The subject classification's name in request bodies.
pub open spec fn subject_wire(s: SubjectType) -> Seq<char> {
    match s {
        SubjectType::Company => "COMPANY"@,
        SubjectType::CompanyAndNorea => "COMPANY_AND_NOREA"@,
        SubjectType::Person => "PERSON"@,
    }
}

impl QrpProduct {
    /// Code of the product in request bodies.
    pub fn wire_name(&self) -> (r: &'static str)
        ensures
            r@ == product_wire(*self),
    {
        proof {
            reveal_strlit("62001");
            assert("62001"@ =~= product_wire(QrpProduct::Qrp));
        }
        "62001"
    }
}

impl SubjectType {
    /// Name of the classification in request bodies.
    pub fn wire_name(&self) -> (r: &'static str)
        ensures
            r@ == subject_wire(*self),
    {
        match self {
            SubjectType::Company => "COMPANY",
            SubjectType::CompanyAndNorea => "COMPANY_AND_NOREA",
            SubjectType::Person => "PERSON",
        }
    }
}

/// A request for a document. The subject is identified by exactly one of a
/// VAT number and a tax code; `reference` is the caller's time-ordered
/// idempotency reference, kept unchanged for the whole request.
#[derive(Clone, Debug)]
pub struct QrpRequest {
    pub format: QrpFormat,
    pub product_id: QrpProduct,
    pub reference: u128,
    pub subject_type: SubjectType,
    pub vat_number: Option<String>,
    pub tax_code: Option<String>,
}

impl QrpRequest {
    pub open spec fn wf(&self) -> bool {
        self.vat_number is Some != self.tax_code is Some
    }
}

/// The members of a request body, in order; an unset identifier is left
/// out.
pub open spec fn spec_body_fields(r: QrpRequest) -> Seq<(Seq<char>, Seq<char>)> {
    let base = seq![
        ("format"@, format_wire(r.format)),
        ("product_id"@, product_wire(r.product_id)),
        ("reference"@, uuid_text(r.reference)),
        ("subject_type"@, subject_wire(r.subject_type)),
    ];
    let with_vat = match r.vat_number {
        Some(v) => base.push(("vat_number"@, v@)),
        None => base,
    };
    match r.tax_code {
        Some(t) => with_vat.push(("tax_code"@, t@)),
        None => with_vat,
    }
}

/// The request for the XML document of the company with `vat_number`.
pub open spec fn spec_for_vat_number(vat_number: String, reference: u128) -> QrpRequest {
    QrpRequest {
        format: QrpFormat::Xml,
        product_id: QrpProduct::Qrp,
        reference,
        subject_type: SubjectType::Company,
        vat_number: Some(vat_number),
        tax_code: None,
    }
}

pub open spec fn purchase_path() -> Seq<char> {
    "/cervedApiB2B/v1/purchase"@
}

/// The URL of the create call.
pub open spec fn spec_purchase_url(base: Seq<char>) -> Seq<char> {
    base + purchase_path()
}

/// The URL that reads the document with `request_id` in `format`.
pub open spec fn spec_read_url(base: Seq<char>, request_id: u32, format: QrpFormat) -> Seq<char> {
    base + purchase_path() + "/request/"@ + decimal(request_id as nat) + "/format/"@
        + format_path_name(format)
}

/// The URL of the create call under `base`.
pub fn purchase_url(base: &String) -> (r: String)
    ensures
        r@ == spec_purchase_url(base@),
{
    let mut u = base.clone();
    u.append("/cervedApiB2B/v1/purchase");
    u
}

/// The URL that reads a document under `base`.
pub fn read_url(base: &String, request_id: u32, format: QrpFormat) -> (r: String)
    ensures
        r@ == spec_read_url(base@, request_id, format),
{
    let mut u = base.clone();
    u.append("/cervedApiB2B/v1/purchase");
    u.append("/request/");
    let id = decimal_text(request_id as u64);
    u.append(id.as_str());
    u.append("/format/");
    u.append(format.path_name());
    proof {
        assert(u@ =~= spec_read_url(base@, request_id, format));
    }
    u
}

/// A request identified by its VAT number alone is sent with exactly five
/// members (format, product, reference, subject type and VAT number): the
/// unset tax code does not appear at all.
pub proof fn lemma_unset_tax_code_is_omitted(r: QrpRequest)
    requires
        r.vat_number is Some,
        r.tax_code is None,
    ensures
        spec_body_fields(r).len() == 5,
        spec_body_fields(r).map_values(|f: (Seq<char>, Seq<char>)| f.0) == seq![
            "format"@,
            "product_id"@,
            "reference"@,
            "subject_type"@,
            "vat_number"@,
        ],
        spec_body_fields(r)[4].1 == r.vat_number->0@,
{
    assert(spec_body_fields(r).map_values(|f: (Seq<char>, Seq<char>)| f.0) =~= seq![
        "format"@,
        "product_id"@,
        "reference"@,
        "subject_type"@,
        "vat_number"@,
    ]);
}

impl QrpRequest {
    /// The request for the XML document of the company with `vat_number`,
    /// under the given reference.
    pub fn for_vat_number(vat_number: String, reference: u128) -> (r: QrpRequest)
        ensures
            r == spec_for_vat_number(vat_number, reference),
            r.wf(),
    {
        QrpRequest {
            format: QrpFormat::Xml,
            product_id: QrpProduct::Qrp,
            reference,
            subject_type: SubjectType::Company,
            vat_number: Some(vat_number),
            tax_code: None,
        }
    }

    /// The request for the XML document of the company with `vat_number`,
    /// under a fresh reference.
    pub fn new_for_vat_number(vat_number: String) -> (r: QrpRequest)
        ensures
            exists|reference: u128| r == spec_for_vat_number(vat_number, reference),
            r.wf(),
    {
        let reference = new_reference();
        QrpRequest::for_vat_number(vat_number, reference)
    }

    /// The reference as hyphenated UUID text.
    pub fn reference_text(&self) -> (r: String)
        ensures
            r@ == uuid_text(self.reference),
    {
        uuid_hyphenated(self.reference)
    }

    /// The members of the request body.
    pub fn body_fields(&self) -> (r: Vec<(String, String)>)
        ensures
            pair_views(r@) == spec_body_fields(*self),
    {
        let mut fields: Vec<(String, String)> = Vec::new();
        fields.push(("format".to_owned(), self.format.wire_name().to_owned()));
        fields.push(("product_id".to_owned(), self.product_id.wire_name().to_owned()));
        fields.push(("reference".to_owned(), self.reference_text()));
        fields.push(("subject_type".to_owned(), self.subject_type.wire_name().to_owned()));
        match &self.vat_number {
            Some(v) => fields.push(("vat_number".to_owned(), v.clone())),
            None => {},
        }
        match &self.tax_code {
            Some(t) => fields.push(("tax_code".to_owned(), t.clone())),
            None => {},
        }
        proof {
            assert(pair_views(fields@) =~= spec_body_fields(*self));
        }
        fields
    }

    /// The JSON body of the create call; an unset identifier is left out.
    pub fn to_json(&self) -> (r: String)
        ensures
            r@ == json_object_text(spec_body_fields(*self)),
    {
        json_string_object(self.body_fields())
    }
}

} // verus!
