//! Dispatch rule of the conversion driver.
//!
//! A conversion run is named by two paths; which direction runs is
//! decided by their extensions alone: a binary-container source with a
//! textual target converts domain to interchange, the reverse pairing
//! converts interchange to domain, and any other pairing is a usage
//! error.  The surrounding process (argument handling, file reading and
//! writing) stays outside; this module fixes the decision itself.

use vstd::prelude::*;

verus! {

#[derive(Clone, Copy, Debug, PartialEq, Eq, Structural)]
pub enum ConversionDirection {
    /// Read the binary container, write the textual form.
    ToJson,
    /// Read the textual form, write the binary container.
    FromJson,
}

/// `suffix` stands at the very end of `s`.
pub open spec fn is_suffix_of(suffix: Seq<u8>, s: Seq<u8>) -> bool {
    suffix.len() <= s.len() && s.subrange(s.len() - suffix.len(), s.len() as int) == suffix
}

/// The bytes of `".fcm"`.
pub open spec fn fcm_extension() -> Seq<u8> {
    seq![46u8, 102u8, 99u8, 109u8]
}

/// The bytes of `".json"`.
pub open spec fn json_extension() -> Seq<u8> {
    seq![46u8, 106u8, 115u8, 111u8, 110u8]
}

/// The direction that a source/target pairing names, if any.
pub open spec fn direction_of(source: Seq<u8>, target: Seq<u8>) -> Option<ConversionDirection> {
    if is_suffix_of(fcm_extension(), source) && is_suffix_of(json_extension(), target) {
        Some(ConversionDirection::ToJson)
    } else if is_suffix_of(json_extension(), source) && is_suffix_of(fcm_extension(), target) {
        Some(ConversionDirection::FromJson)
    } else {
        None
    }
}

/// Whether `suffix` stands at the very end of `s`.
fn ends_with(s: &[u8], suffix: &[u8]) -> (r: bool)
    ensures
        r == is_suffix_of(suffix@, s@),
{
    if suffix.len() > s.len() {
        return false;
    }
    let off = s.len() - suffix.len();
    for i in 0..suffix.len()
        invariant
            suffix@.len() <= s@.len() <= usize::MAX,
            off + suffix@.len() == s@.len(),
            forall|j: int| 0 <= j < i ==> s@[off + j] == suffix@[j],
    {
        if s[off + i] != suffix[i] {
            proof {
                assert(s@.subrange(off as int, s@.len() as int)[i as int] != suffix@[i as int]);
            }
            return false;
        }
    }
    proof {
        assert(s@.subrange(off as int, s@.len() as int) =~= suffix@);
    }
    true
}

/// The direction of a conversion run, from the two path names as byte
/// strings: a `.fcm` source with a `.json` target maps domain to
/// interchange, the reverse pairing maps interchange to domain, and any
/// other pairing names no direction (a usage error for the caller).
pub fn conversion_direction(source: &[u8], target: &[u8]) -> (r: Option<ConversionDirection>)
    ensures
        r == direction_of(source@, target@),
{
    let fcm: Vec<u8> = vec![46, 102, 99, 109];
    let json: Vec<u8> = vec![46, 106, 115, 111, 110];
    proof {
        assert(fcm@ =~= fcm_extension());
        assert(json@ =~= json_extension());
    }
    if ends_with(source, fcm.as_slice()) && ends_with(target, json.as_slice()) {
        Some(ConversionDirection::ToJson)
    } else if ends_with(source, json.as_slice()) && ends_with(target, fcm.as_slice()) {
        Some(ConversionDirection::FromJson)
    } else {
        None
    }
}

} // verus!
