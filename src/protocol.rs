//! The shape of the requests that the device answers, and the reading of its
//! replies at the level of HTTP.
use vstd::prelude::*;
use crate::bytes::{contains, find_first, first_at, occurs_at, push_all};
use crate::paths::relative_part;

verus! {

/// Answers whenever the device is up.
pub const ROOT_PATH: &'static str = "/";

pub const TREE_PATH: &'static str = "/java/file/tree";

pub const UPLOAD_PATH: &'static str = "/java/file/upload";

pub const DELETE_PATH: &'static str = "/java/file/delete";

pub const BUILD_START_PATH: &'static str = "/java/build/start";

pub const BUILD_STATUS_PATH: &'static str = "/java/build/status";

/// Answers, once a build has failed, with the compiler's output.
pub const BUILD_WAIT_PATH: &'static str = "/java/build/wait";

/// The form field of an upload that carries the file.
pub const UPLOAD_FIELD: &'static str = "file";

/// The form body of a wipe: `delete=["src"]`, form-encoded, which names the
/// device's whole source root.
pub const WIPE_FORM: &'static str = "delete=%5B%22src%22%5D";

/// The time between two polls of a build's status.
pub const POLL_INTERVAL_MS: u64 = 1000;

/// `/java/file/download?f=src/`
pub open spec fn download_prefix() -> Seq<u8> {
    seq![
        47u8, 106, 97, 118, 97, 47, 102, 105, 108, 101, 47, 100, 111, 119, 110, 108, 111, 97,
        100, 63, 102, 61, 115, 114, 99, 47,
    ]
}

/// The request target that fetches the device file `remote`: the download
/// endpoint, asked for the file at the same place under the source root.
pub fn download_target(remote: &[u8]) -> (r: Vec<u8>)
    requires
        remote@.len() < usize::MAX - 26,
    ensures
        r@ == download_prefix() + relative_part(remote@),
{
    let mut r: Vec<u8> = vec![
        47, 106, 97, 118, 97, 47, 102, 105, 108, 101, 47, 100, 111, 119, 110, 108, 111, 97,
        100, 63, 102, 61, 115, 114, 99, 47,
    ];
    assert(r@ =~= download_prefix());
    if remote.len() > 0 && remote[0] == 47 {
        push_all(&mut r, &remote[1..remote.len()]);
        assert(remote@.subrange(1, remote@.len() as int) =~= remote@.drop_first());
    } else {
        push_all(&mut r, remote);
    }
    r
}

/// The blank line that ends the head of an HTTP reply.
pub open spec fn head_end() -> Seq<u8> {
    seq![13u8, 10, 13, 10]
}

/// Whether a raw HTTP reply reports success: its status line starts with
/// `HTTP/` and its status code with `2`.
pub open spec fn reply_succeeded(raw: Seq<u8>) -> bool {
    &&& raw.len() >= 12
    &&& raw.subrange(0, 5) == seq![72u8, 84, 84, 80, 47]
    &&& raw[9] == 50u8
}

/// The body of a raw HTTP reply: what follows the first blank line, where
/// the reply reports success and has a blank line; else `None`.
pub open spec fn body_of(raw: Seq<u8>) -> Option<Seq<u8>> {
    if reply_succeeded(raw) && contains(raw, head_end()) {
        let at = choose|at: int| first_at(raw, head_end(), at);
        Some(raw.subrange(at + 4, raw.len() as int))
    } else {
        None
    }
}

/// Reads the body out of a raw HTTP reply of the device; `None` where the
/// reply reports a failure or is cut short.
pub fn reply_body(raw: &[u8]) -> (r: Option<Vec<u8>>)
    ensures
        r matches Some(b) ==> body_of(raw@) == Some(b@),
        r is None ==> body_of(raw@) is None,
{
    let succeeded = raw.len() >= 12 && raw[0] == 72 && raw[1] == 84 && raw[2] == 84
        && raw[3] == 80 && raw[4] == 47 && raw[9] == 50;
    assert(succeeded ==> raw@.subrange(0, 5) =~= seq![72u8, 84, 84, 80, 47]);
    assert(raw@.len() >= 12 && raw@.subrange(0, 5) == seq![72u8, 84, 84, 80, 47] ==> raw@[0]
        == 72 && raw@[1] == 84 && raw@[2] == 84 && raw@[3] == 80 && raw@[4] == 47) by {
        if raw@.len() >= 12 && raw@.subrange(0, 5) == seq![72u8, 84, 84, 80, 47] {
            assert(raw@.subrange(0, 5)[0] == raw@[0]);
            assert(raw@.subrange(0, 5)[1] == raw@[1]);
            assert(raw@.subrange(0, 5)[2] == raw@[2]);
            assert(raw@.subrange(0, 5)[3] == raw@[3]);
            assert(raw@.subrange(0, 5)[4] == raw@[4]);
        }
    }
    if !succeeded {
        return None;
    }
    let blank: Vec<u8> = vec![13, 10, 13, 10];
    assert(blank@ =~= head_end());
    match find_first(raw, blank.as_slice()) {
        None => None,
        Some(at) => {
            proof {
                lemma_first_unique(raw@, head_end(), at as int);
            }
            let mut b: Vec<u8> = Vec::new();
            push_all(&mut b, &raw[at + 4..raw.len()]);
            Some(b)
        },
    }
}

proof fn lemma_first_unique(s: Seq<u8>, pat: Seq<u8>, at: int)
    requires
        first_at(s, pat, at),
    ensures
        contains(s, pat),
        (choose|x: int| first_at(s, pat, x)) == at,
{
    assert(occurs_at(s, pat, at));
    let x = choose|x: int| first_at(s, pat, x);
    assert(first_at(s, pat, x));
    if x < at {
        assert(!occurs_at(s, pat, x));
    } else if x > at {
        assert(!occurs_at(s, pat, at));
    }
}

} // verus!
