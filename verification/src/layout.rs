//! How many bytes each record takes when stored, and how many are reserved
//! for it.

use vstd::prelude::*;
use crate::guard::byte_len;
use crate::types::{Record, MAX_ID_BYTES, MAX_TEXT_BYTES};

verus! {

/// Bytes reserved for the root record.
pub const LMS_ACCOUNT_SPACE: usize = 8 + 32 + 4 + 256 + 4 + 256 + 8 + 8 + 8 + 1;

/// Bytes reserved for a course.
pub const COURSE_SPACE: usize = 8 + 4 + 64 + 4 + 256 + 4 + 256 + 32 + 8 + 4 + 4 + 1 + 8 + 1;

/// Bytes reserved for an enrollment.
pub const ENROLLMENT_SPACE: usize = 8 + 4 + 64 + 32 + 32 + 8 + 1 + 1 + 1;

/// Bytes reserved for a certificate.
pub const CERTIFICATE_SPACE: usize = 8 + 4 + 64 + 32 + 32 + 32 + 1 + 4 + 256 + 8 + 1 + 1;

/// Bytes reserved for an achievement.
pub const ACHIEVEMENT_SPACE: usize = 8 + 32 + 1 + 8 + 8 + 1;

/// Bytes that a record's fields of fixed width take, the tag and the length
/// prefixes of its texts included.
pub open spec fn fixed_len(record: Record) -> nat {
    match record {
        Record::Lms(_) => 8 + 32 + 4 + 4 + 8 + 8 + 8 + 1,
        Record::Course(_) => 8 + 4 + 4 + 4 + 32 + 8 + 4 + 4 + 1 + 8 + 1,
        Record::Enrollment(_) => 8 + 4 + 32 + 32 + 8 + 1 + 1 + 1,
        Record::Certificate(_) => 8 + 4 + 32 + 32 + 32 + 1 + 4 + 8 + 1 + 1,
        Record::Achievement(_) => 8 + 32 + 1 + 8 + 8 + 1,
    }
}

/// Bytes that a record's texts take, their length prefixes not counted.
pub open spec fn text_len(record: Record) -> nat {
    match record {
        Record::Lms(l) => byte_len(l.name@) + byte_len(l.description@),
        Record::Course(c) => byte_len(c.course_id@) + byte_len(c.title@) + byte_len(c.description@),
        Record::Enrollment(e) => byte_len(e.enrollment_id@),
        Record::Certificate(c) => byte_len(c.certificate_id@) + byte_len(c.metadata_uri@),
        Record::Achievement(_) => 0,
    }
}

/// Bytes that a record takes when stored.
pub open spec fn stored_len(record: Record) -> nat {
    fixed_len(record) + text_len(record)
}

/// Bytes reserved for a record of this type.
pub open spec fn reserved_len(record: Record) -> nat {
    match record {
        Record::Lms(_) => LMS_ACCOUNT_SPACE as nat,
        Record::Course(_) => COURSE_SPACE as nat,
        Record::Enrollment(_) => ENROLLMENT_SPACE as nat,
        Record::Certificate(_) => CERTIFICATE_SPACE as nat,
        Record::Achievement(_) => ACHIEVEMENT_SPACE as nat,
    }
}

/// Whether every text of the record is within the width of its field.
pub open spec fn texts_in_width(record: Record) -> bool {
    match record {
        Record::Lms(l) => byte_len(l.name@) <= MAX_TEXT_BYTES && byte_len(l.description@) <= MAX_TEXT_BYTES,
        Record::Course(c) => byte_len(c.course_id@) <= MAX_ID_BYTES && byte_len(c.title@) <= MAX_TEXT_BYTES
            && byte_len(c.description@) <= MAX_TEXT_BYTES,
        Record::Enrollment(e) => byte_len(e.enrollment_id@) <= MAX_ID_BYTES,
        Record::Certificate(c) => byte_len(c.certificate_id@) <= MAX_ID_BYTES && byte_len(c.metadata_uri@)
            <= MAX_TEXT_BYTES,
        Record::Achievement(_) => true,
    }
}

/// A record whose texts are within their widths fits the space reserved for
/// its type, and a record with the longest legal texts fills it exactly.
pub proof fn law_reserved_space_suffices(record: Record)
    requires
        texts_in_width(record),
    ensures
        stored_len(record) <= reserved_len(record),
        reserved_len(record) - stored_len(record) == (match record {
            Record::Lms(_) => 2 * MAX_TEXT_BYTES,
            Record::Course(_) => MAX_ID_BYTES + 2 * MAX_TEXT_BYTES,
            Record::Enrollment(_) => MAX_ID_BYTES as int,
            Record::Certificate(_) => MAX_ID_BYTES + MAX_TEXT_BYTES,
            Record::Achievement(_) => 0,
        }) - text_len(record),
{
}

fn text_size(s: &String) -> (n: usize)
    ensures
        n == byte_len(s@),
{
    s.as_str().as_bytes().len()
}

/// Bytes reserved for a record of this type.
pub fn reserved_space(record: &Record) -> (n: usize)
    ensures
        n == reserved_len(*record),
{
    match record {
        Record::Lms(_) => LMS_ACCOUNT_SPACE,
        Record::Course(_) => COURSE_SPACE,
        Record::Enrollment(_) => ENROLLMENT_SPACE,
        Record::Certificate(_) => CERTIFICATE_SPACE,
        Record::Achievement(_) => ACHIEVEMENT_SPACE,
    }
}

/// Whether the record, as stored, fits the space reserved for its type.
pub fn fits_reserved(record: &Record) -> (r: bool)
    ensures
        r == (stored_len(*record) <= reserved_len(*record)),
{
    let cap: usize = reserved_space(record);
    let (fixed, a, b, c): (usize, usize, usize, usize) = match record {
        Record::Lms(l) => (8 + 32 + 4 + 4 + 8 + 8 + 8 + 1, text_size(&l.name), text_size(&l.description), 0),
        Record::Course(x) => (
            8 + 4 + 4 + 4 + 32 + 8 + 4 + 4 + 1 + 8 + 1,
            text_size(&x.course_id),
            text_size(&x.title),
            text_size(&x.description),
        ),
        Record::Enrollment(e) => (8 + 4 + 32 + 32 + 8 + 1 + 1 + 1, text_size(&e.enrollment_id), 0, 0),
        Record::Certificate(x) => (
            8 + 4 + 32 + 32 + 32 + 1 + 4 + 8 + 1 + 1,
            text_size(&x.certificate_id),
            text_size(&x.metadata_uri),
            0,
        ),
        Record::Achievement(_) => (8 + 32 + 1 + 8 + 8 + 1, 0, 0, 0),
    };
    assert(fixed == fixed_len(*record));
    assert(a + b + c == text_len(*record));
    if a > cap || b > cap || c > cap {
        false
    } else {
        fixed + a + b + c <= cap
    }
}

} // verus!
