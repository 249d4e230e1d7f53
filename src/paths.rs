//! The mapping between paths on the device and paths in a local tree.
//!
//! The device names each source file by a path relative to its source root,
//! written with a leading separator (`/org/example/Foo.java`). Locally the
//! same file lives at that relative path joined onto a chosen root directory.
use vstd::prelude::*;
use crate::bytes::push_all;

verus! {

/// The path separator.
pub const SEP: u8 = 47;

/// The extension that marks a source file: `.java`.
pub open spec fn source_ext() -> Seq<u8> {
    seq![46u8, 106u8, 97u8, 118u8, 97u8]
}

/// A source file is one whose name ends with the source extension.
pub open spec fn is_source_path(p: Seq<u8>) -> bool {
    p.len() >= 5 && p.subrange(p.len() - 5, p.len() as int) == source_ext()
}

/// The part of a device path below the source root: the path without its
/// leading separator.
pub open spec fn relative_part(remote: Seq<u8>) -> Seq<u8> {
    if remote.len() > 0 && remote[0] == SEP {
        remote.drop_first()
    } else {
        remote
    }
}

/// What a root directory contributes in front of a relative path joined onto
/// it: nothing for an empty root, the root itself where it already ends with
/// a separator, else the root and one separator.
pub open spec fn root_prefix(root: Seq<u8>) -> Seq<u8> {
    if root.len() == 0 {
        root
    } else if root.last() == SEP {
        root
    } else {
        root.push(SEP)
    }
}

/// The local path of the device file `remote` under `root`.
pub open spec fn local_path_of(remote: Seq<u8>, root: Seq<u8>) -> Seq<u8> {
    root_prefix(root) + relative_part(remote)
}

/// The device path of the local file `local` under `root`, where `local`
/// lies under `root`.
pub open spec fn remote_path_of(local: Seq<u8>, root: Seq<u8>) -> Option<Seq<u8>> {
    let pre = root_prefix(root);
    if pre.len() <= local.len() && local.subrange(0, pre.len() as int) == pre {
        Some(seq![SEP] + local.subrange(pre.len() as int, local.len() as int))
    } else {
        None
    }
}

/// Tells whether `p` names a source file.
pub fn is_source_file(p: &[u8]) -> (r: bool)
    ensures
        r == is_source_path(p@),
{
    let n = p.len();
    if n < 5 {
        return false;
    }
    let r = p[n - 5] == 46 && p[n - 4] == 106 && p[n - 3] == 97 && p[n - 2] == 118
        && p[n - 1] == 97;
    let ghost tail = p@.subrange(n - 5, n as int);
    assert(r ==> tail =~= source_ext());
    assert(tail == source_ext() ==> tail[0] == 46u8 && tail[1] == 106u8 && tail[2] == 97u8
        && tail[3] == 118u8 && tail[4] == 97u8);
    r
}

fn root_prefix_exec(root: &[u8]) -> (r: Vec<u8>)
    requires
        root@.len() < usize::MAX,
    ensures
        r@ == root_prefix(root@),
{
    let mut r: Vec<u8> = Vec::new();
    push_all(&mut r, root);
    if root.len() > 0 && root[root.len() - 1] != SEP {
        r.push(SEP);
    }
    r
}

/// The local path at which the device file `remote` is stored under
/// `dest_root`.
pub fn remote_to_local(remote: &[u8], dest_root: &[u8]) -> (r: Vec<u8>)
    requires
        remote@.len() + dest_root@.len() < usize::MAX,
    ensures
        r@ == local_path_of(remote@, dest_root@),
{
    let mut r = root_prefix_exec(dest_root);
    if remote.len() > 0 && remote[0] == SEP {
        push_all(&mut r, &remote[1..remote.len()]);
        assert(remote@.subrange(1, remote@.len() as int) =~= remote@.drop_first());
    } else {
        push_all(&mut r, remote);
    }
    r
}

/// The device path of the local file `local` found under `src_root`, or
/// `None` where `local` does not lie under `src_root`.
pub fn local_to_remote(local: &[u8], src_root: &[u8]) -> (r: Option<Vec<u8>>)
    requires
        src_root@.len() < usize::MAX,
        local@.len() < usize::MAX,
    ensures
        r matches Some(v) ==> remote_path_of(local@, src_root@) == Some(v@),
        r is None ==> remote_path_of(local@, src_root@) is None,
{
    let pre = root_prefix_exec(src_root);
    if pre.len() > local.len() {
        return None;
    }
    let mut k: usize = 0;
    while k < pre.len()
        invariant
            k <= pre@.len(),
            pre@ == root_prefix(src_root@),
            pre@.len() <= local@.len(),
            forall|j: int| 0 <= j < k ==> local@[j] == pre@[j],
        decreases pre@.len() - k,
    {
        if local[k] != pre[k] {
            assert(local@.subrange(0, pre@.len() as int)[k as int] != pre@[k as int]);
            assert(local@.subrange(0, pre@.len() as int) != pre@);
            return None;
        }
        k = k + 1;
    }
    assert(local@.subrange(0, pre@.len() as int) =~= pre@);
    let mut r: Vec<u8> = Vec::new();
    r.push(SEP);
    push_all(&mut r, &local[pre.len()..local.len()]);
    assert(r@ =~= seq![SEP] + local@.subrange(pre@.len() as int, local@.len() as int));
    Some(r)
}

/// A device path, mapped into a local tree and back, is the path itself.
pub proof fn lemma_remote_round_trip(remote: Seq<u8>, root: Seq<u8>)
    requires
        remote.len() > 0,
        remote[0] == SEP,
    ensures
        remote_path_of(local_path_of(remote, root), root) == Some(remote),
{
    let pre = root_prefix(root);
    let local = local_path_of(remote, root);
    assert(local.subrange(0, pre.len() as int) =~= pre);
    assert(seq![SEP] + local.subrange(pre.len() as int, local.len() as int) =~= remote);
}

/// A local file under `src_root`, sent to the device and fetched back into
/// `dest_root`, lands at the same relative place under `dest_root`; fetched
/// back into `src_root` itself, it lands where it was.
pub proof fn lemma_local_round_trip(local: Seq<u8>, src_root: Seq<u8>, dest_root: Seq<u8>)
    requires
        remote_path_of(local, src_root) is Some,
    ensures
        local_path_of(remote_path_of(local, src_root)->0, dest_root) == root_prefix(dest_root)
            + local.subrange(root_prefix(src_root).len() as int, local.len() as int),
        local_path_of(remote_path_of(local, src_root)->0, src_root) == local,
{
    let pre = root_prefix(src_root);
    let rest = local.subrange(pre.len() as int, local.len() as int);
    let remote = seq![SEP] + rest;
    assert(remote.drop_first() =~= rest);
    assert(pre + rest =~= local) by {
        assert(local.subrange(0, pre.len() as int) == pre);
    }
}

} // verus!
