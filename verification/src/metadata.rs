use vstd::prelude::*;

use crate::timestamp::{parse_capture_timestamp, spec_parse, CaptureTimestamp};

verus! {

/// The display text of the DateTimeOriginal field of the EXIF container
/// held in a byte sequence, when that container has one; a function of the
/// bytes alone.
pub uninterp spec fn exif_datetime_of(b: Seq<u8>) -> Option<Seq<char>>;

/// View of an optional owned string.
pub open spec fn opt_str_view(r: Option<String>) -> Option<Seq<char>> {
    match r {
        Some(s) => Some(s@),
        None => None,
    }
}

/// Relies on exif::Reader::read_from_container, Exif::get_field and
/// Field::display_value: reads the DateTimeOriginal field of the EXIF
/// container held in `bytes` and renders its display text. The result is a
/// function of the bytes alone; every failure (unknown container, no EXIF
/// data, field absent) is `None`.
#[verifier::external_body]
fn exif_datetime_original(bytes: &Vec<u8>) -> (r: Option<String>)
    ensures
        opt_str_view(r) == exif_datetime_of(bytes@),
{
    let mut cursor = std::io::Cursor::new(bytes.as_slice());
    match exif::Reader::new().read_from_container(&mut cursor) {
        Ok(data) => match data.get_field(exif::Tag::DateTimeOriginal, exif::In::PRIMARY) {
            Some(field) => Some(field.display_value().to_string()),
            None => None,
        },
        Err(_) => None,
    }
}

/// The capture timestamp denoted by a media file's bytes: the parse of its
/// embedded DateTimeOriginal text, when there is one and it is a valid
/// `YYYY-MM-DD HH:MM:SS` date-time.
pub open spec fn spec_extract(b: Seq<u8>) -> Option<CaptureTimestamp> {
    match exif_datetime_of(b) {
        Some(s) => spec_parse(s),
        None => None,
    }
}

/// Best-effort extraction of a capture timestamp from a media file's
/// bytes: reads the embedded DateTimeOriginal text and parses it in the
/// exact `YYYY-MM-DD HH:MM:SS` format. Returns `None`, never an error, on
/// any failure branch.
pub fn extract_timestamp(bytes: &Vec<u8>) -> (r: Option<CaptureTimestamp>)
    ensures
        r == spec_extract(bytes@),
        r matches Some(t) ==> t.wf(),
{
    match exif_datetime_original(bytes) {
        Some(text) => parse_capture_timestamp(text.as_str()),
        None => None,
    }
}

} // verus!
