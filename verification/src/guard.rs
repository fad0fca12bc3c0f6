//! The checks every operation makes before it changes anything.

use vstd::prelude::*;
use vstd::utf8::encode_utf8;
use crate::types::{Address, Course, Enrollment, LmsAccount, Record};
use crate::ledger::Ledger;

verus! {

/// Length of a text in bytes.
pub open spec fn byte_len(s: Seq<char>) -> nat {
    encode_utf8(s).len()
}

/// Whether a text is at most `limit` bytes long.
pub fn fits(s: &String, limit: usize) -> (r: bool)
    ensures
        r == (byte_len(s@) <= limit),
{
    s.as_str().as_bytes().len() <= limit
}

/// Whether the derivation names the supplied address.
pub open spec fn names(derived: Option<(Seq<u8>, u8)>, supplied: Address) -> bool {
    match derived {
        Some((a, _)) => a == supplied@,
        None => false,
    }
}

/// Whether the derivation names the supplied address with the nonce that the
/// record kept.
pub open spec fn confirms(derived: Option<(Seq<u8>, u8)>, supplied: Address, bump: u8) -> bool {
    match derived {
        Some((a, b)) => a == supplied@ && b == bump,
        None => false,
    }
}

/// The nonce of a derivation; 0 where there is none.
pub open spec fn nonce(derived: Option<(Seq<u8>, u8)>) -> u8 {
    match derived {
        Some((_, b)) => b,
        None => 0,
    }
}

/// Exec form of [`names`].
pub fn check_names(derived: &Option<(Address, u8)>, supplied: &Address) -> (r: bool)
    ensures
        r == names(crate::derivation::derived_view(*derived), *supplied),
{
    match derived {
        Some((a, _)) => a.same(supplied),
        None => false,
    }
}

/// Exec form of [`confirms`].
pub fn check_confirms(derived: &Option<(Address, u8)>, supplied: &Address, bump: u8) -> (r: bool)
    ensures
        r == confirms(crate::derivation::derived_view(*derived), *supplied, bump),
{
    match derived {
        Some((a, b)) => a.same(supplied) && *b == bump,
        None => false,
    }
}

/// The root record at `a`, if one is stored there.
pub open spec fn lms_at(records: Map<Address, Record>, a: Address) -> Option<LmsAccount> {
    if records.dom().contains(a) {
        match records[a] {
            Record::Lms(l) => Some(l),
            _ => None,
        }
    } else {
        None
    }
}

/// The course at `a`, if one is stored there.
pub open spec fn course_at(records: Map<Address, Record>, a: Address) -> Option<Course> {
    if records.dom().contains(a) {
        match records[a] {
            Record::Course(c) => Some(c),
            _ => None,
        }
    } else {
        None
    }
}

/// The enrollment at `a`, if one is stored there.
pub open spec fn enrollment_at(records: Map<Address, Record>, a: Address) -> Option<Enrollment> {
    if records.dom().contains(a) {
        match records[a] {
            Record::Enrollment(e) => Some(e),
            _ => None,
        }
    } else {
        None
    }
}

/// Reads the root record at `a`.
pub fn load_lms<'a>(ledger: &'a Ledger, a: &Address) -> (r: Option<&'a LmsAccount>)
    requires
        ledger.wf(),
    ensures
        match r {
            Some(l) => lms_at(ledger@, *a) == Some(*l),
            None => lms_at(ledger@, *a) is None,
        },
{
    match ledger.get(a) {
        Some(Record::Lms(l)) => Some(l),
        _ => None,
    }
}

/// Reads the course at `a`.
pub fn load_course<'a>(ledger: &'a Ledger, a: &Address) -> (r: Option<&'a Course>)
    requires
        ledger.wf(),
    ensures
        match r {
            Some(c) => course_at(ledger@, *a) == Some(*c),
            None => course_at(ledger@, *a) is None,
        },
{
    match ledger.get(a) {
        Some(Record::Course(c)) => Some(c),
        _ => None,
    }
}

/// Reads the enrollment at `a`.
pub fn load_enrollment<'a>(ledger: &'a Ledger, a: &Address) -> (r: Option<&'a Enrollment>)
    requires
        ledger.wf(),
    ensures
        match r {
            Some(e) => enrollment_at(ledger@, *a) == Some(*e),
            None => enrollment_at(ledger@, *a) is None,
        },
{
    match ledger.get(a) {
        Some(Record::Enrollment(e)) => Some(e),
        _ => None,
    }
}

} // verus!
