//! Naming of the stored documents.
use vstd::prelude::*;

use crate::qrp::{format_extension, QrpFormat};

verus! {

/// Latest instant, in seconds since the Unix epoch, of the year 9999.
pub const LAST_LABELLED_SECOND: i64 = 253402300799;

/// The text `%d_%m_%Y_%H:%M:%S` gives for the UTC instant `secs` seconds
/// after the Unix epoch.
pub uninterp spec fn timestamp_label(secs: i64) -> Seq<char>;

/// Relies on chrono: `DateTime::from_timestamp(secs, 0)`, which is `Some`
/// for every instant from 1970 through the year 9999, formatted with
/// `%d_%m_%Y_%H:%M:%S`.
#[verifier::external_body]
fn format_timestamp(secs: i64) -> (r: Option<String>)
    ensures
        r matches Some(t) ==> t@ == timestamp_label(secs),
        0 <= secs <= LAST_LABELLED_SECOND ==> r is Some,
{
    chrono::DateTime::from_timestamp(secs, 0).map(|t| t.format("%d_%m_%Y_%H:%M:%S").to_string())
}

/// The object key of a document of `vat_number` in `format`, requested by
/// `user` at the labelled instant.
pub open spec fn spec_object_key(vat_number: Seq<char>, user: Seq<char>, format: QrpFormat, label: Seq<char>) -> Seq<char> {
    "qrp/"@ + vat_number + "/"@ + label + "_"@ + user + "."@ + format_extension(format)
}

/// The object key of a document whose storing instant reads `label`.
pub fn object_key_from_label(vat_number: &String, user: &String, format: QrpFormat, label: &str) -> (r: String)
    ensures
        r@ == spec_object_key(vat_number@, user@, format, label@),
{
    let mut k = "qrp/".to_owned();
    k.append(vat_number.as_str());
    k.append("/");
    k.append(label);
    k.append("_");
    k.append(user.as_str());
    k.append(".");
    k.append(format.as_str());
    proof {
        assert(k@ =~= spec_object_key(vat_number@, user@, format, label@));
    }
    k
}

/// The object key of a document stored `secs` seconds after the Unix
/// epoch; `None` before 1970 or after the year 9999.
pub fn object_key_at(vat_number: &String, user: &String, format: QrpFormat, secs: i64) -> (r: Option<String>)
    ensures
        0 <= secs <= LAST_LABELLED_SECOND <==> r is Some,
        r matches Some(k) ==> k@ == spec_object_key(vat_number@, user@, format, timestamp_label(secs)),
{
    if secs < 0 || secs > LAST_LABELLED_SECOND {
        return None;
    }
    match format_timestamp(secs) {
        None => None,
        Some(label) => Some(object_key_from_label(vat_number, user, format, label.as_str())),
    }
}

} // verus!
