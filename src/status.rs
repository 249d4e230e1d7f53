//! The device's build-status reply: text holding `"completed": <bool>` and
//! `"successful": <bool>`.
use vstd::prelude::*;
use crate::bytes::{contains, find};

verus! {

/// The state of a build on the device.
#[derive(PartialEq, Eq, Structural, Clone, Copy, Debug)]
pub enum BuildStatus {
    Running,
    Succeeded,
    Failed,
}

/// `"completed": true`
pub open spec fn completed_true() -> Seq<u8> {
    seq![34u8, 99, 111, 109, 112, 108, 101, 116, 101, 100, 34, 58, 32, 116, 114, 117, 101]
}

/// `"completed": false`
pub open spec fn completed_false() -> Seq<u8> {
    seq![34u8, 99, 111, 109, 112, 108, 101, 116, 101, 100, 34, 58, 32, 102, 97, 108, 115, 101]
}

/// `"successful": true`
pub open spec fn successful_true() -> Seq<u8> {
    seq![34u8, 115, 117, 99, 99, 101, 115, 115, 102, 117, 108, 34, 58, 32, 116, 114, 117, 101]
}

/// `"successful": false`
pub open spec fn successful_false() -> Seq<u8> {
    seq![34u8, 115, 117, 99, 99, 101, 115, 115, 102, 117, 108, 34, 58, 32, 102, 97, 108, 115, 101]
}

/// The value a reply gives a flag: `Some(b)` where it states the flag as `b`
/// and never as `!b`; `None` where it states neither or both.
pub open spec fn flag_value(says_true: bool, says_false: bool) -> Option<bool> {
    if says_true && !says_false {
        Some(true)
    } else if says_false && !says_true {
        Some(false)
    } else {
        None
    }
}

/// What a status reply reports: running while not completed; once completed,
/// succeeded or failed as the `successful` flag says. `None` where either flag
/// that decides is missing or contradicts itself.
pub open spec fn status_of(s: Seq<u8>) -> Option<BuildStatus> {
    match flag_value(contains(s, completed_true()), contains(s, completed_false())) {
        None => None,
        Some(false) => Some(BuildStatus::Running),
        Some(true) => match flag_value(
            contains(s, successful_true()),
            contains(s, successful_false()),
        ) {
            None => None,
            Some(true) => Some(BuildStatus::Succeeded),
            Some(false) => Some(BuildStatus::Failed),
        },
    }
}

fn flag(says_true: bool, says_false: bool) -> (r: Option<bool>)
    ensures
        r == flag_value(says_true, says_false),
{
    if says_true && !says_false {
        Some(true)
    } else if says_false && !says_true {
        Some(false)
    } else {
        None
    }
}

/// Reads a build-status reply; `None` where it cannot be read.
pub fn parse_status(body: &[u8]) -> (r: Option<BuildStatus>)
    ensures
        r == status_of(body@),
{
    let ct: Vec<u8> = vec![34, 99, 111, 109, 112, 108, 101, 116, 101, 100, 34, 58, 32, 116, 114, 117, 101];
    let cf: Vec<u8> = vec![34, 99, 111, 109, 112, 108, 101, 116, 101, 100, 34, 58, 32, 102, 97, 108, 115, 101];
    assert(ct@ =~= completed_true());
    assert(cf@ =~= completed_false());
    match flag(find(body, ct.as_slice()), find(body, cf.as_slice())) {
        None => None,
        Some(false) => Some(BuildStatus::Running),
        Some(true) => {
            let st: Vec<u8> = vec![34, 115, 117, 99, 99, 101, 115, 115, 102, 117, 108, 34, 58, 32, 116, 114, 117, 101];
            let sf: Vec<u8> = vec![34, 115, 117, 99, 99, 101, 115, 115, 102, 117, 108, 34, 58, 32, 102, 97, 108, 115, 101];
            assert(st@ =~= successful_true());
            assert(sf@ =~= successful_false());
            match flag(find(body, st.as_slice()), find(body, sf.as_slice())) {
                None => None,
                Some(true) => Some(BuildStatus::Succeeded),
                Some(false) => Some(BuildStatus::Failed),
            }
        },
    }
}

} // verus!
