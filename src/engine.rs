//! The decisions of the four operations against the device: the check that
//! comes first, what each operation does next, which local files an upload
//! sends, and how a watched build ends.
use vstd::prelude::*;
use crate::bytes::push_all;
use crate::listing::{lemma_listing_reads_back, listed_paths, listing_of, unquoted, QUOTE};
use crate::monitor::BuildVerdict;
use crate::options::Operation;
use crate::paths::{is_source_file, is_source_path, local_to_remote, remote_path_of};

verus! {

/// The calls that the device answers.
#[derive(PartialEq, Eq, Structural, Clone, Copy, Debug)]
pub enum RemoteCall {
    Reachability,
    ListFiles,
    FetchFile,
    PushFile,
    DeleteAll,
    StartBuild,
    PollStatus,
    FetchDiagnostics,
}

/// Why an operation failed.
#[derive(PartialEq, Eq, Clone, Debug)]
pub enum SyncError {
    /// The device did not answer the check that precedes every operation.
    Unreachable,
    /// A call to the device failed after that check.
    Transport(RemoteCall),
    /// Reading or writing a local file failed.
    LocalIo,
    /// The build did not end within the time allowed.
    BuildTimedOut,
    /// A build-status reply could not be read.
    BuildStatusUnparseable,
    /// The build failed; the device's diagnostics, unchanged.
    BuildFailed(Vec<u8>),
}

/// What an operation does first, once the device has answered.
#[derive(PartialEq, Eq, Structural, Clone, Copy, Debug)]
pub enum FirstStep {
    /// Ask the device for its file listing.
    ListFiles,
    /// Walk the local tree for source files.
    DiscoverLocal,
    /// Ask the device to delete its whole source tree.
    DeleteAll,
    /// Ask the device to start a build.
    StartBuild,
}

pub open spec fn first_step_of(op: Operation) -> FirstStep {
    match op {
        Operation::Download => FirstStep::ListFiles,
        Operation::Upload => FirstStep::DiscoverLocal,
        Operation::Wipe => FirstStep::DeleteAll,
        Operation::Build => FirstStep::StartBuild,
    }
}

/// Decides how an operation starts from the answer to the reachability
/// check: an unreachable device ends it at once, before any other call.
pub fn begin(op: Operation, reachable: bool) -> (r: Result<FirstStep, SyncError>)
    ensures
        !reachable ==> r == Err::<FirstStep, SyncError>(SyncError::Unreachable),
        reachable ==> r == Ok::<FirstStep, SyncError>(first_step_of(op)),
{
    if !reachable {
        return Err(SyncError::Unreachable);
    }
    match op {
        Operation::Download => Ok(FirstStep::ListFiles),
        Operation::Upload => Ok(FirstStep::DiscoverLocal),
        Operation::Wipe => Ok(FirstStep::DeleteAll),
        Operation::Build => Ok(FirstStep::StartBuild),
    }
}

/// The result of a watched build. `diagnostics` is what the device gave when
/// asked for them, which it is only where the build failed.
pub fn build_result(verdict: BuildVerdict, diagnostics: Vec<u8>) -> (r: Result<(), SyncError>)
    ensures
        verdict == BuildVerdict::Succeeded ==> r == Ok::<(), SyncError>(()),
        verdict == BuildVerdict::Failed ==> r == Err::<(), SyncError>(
            SyncError::BuildFailed(diagnostics),
        ),
        verdict == BuildVerdict::TimedOut ==> r == Err::<(), SyncError>(SyncError::BuildTimedOut),
        verdict == BuildVerdict::Unparseable ==> r == Err::<(), SyncError>(
            SyncError::BuildStatusUnparseable,
        ),
{
    match verdict {
        BuildVerdict::Succeeded => Ok(()),
        BuildVerdict::Failed => Err(SyncError::BuildFailed(diagnostics)),
        BuildVerdict::TimedOut => Err(SyncError::BuildTimedOut),
        BuildVerdict::Unparseable => Err(SyncError::BuildStatusUnparseable),
    }
}

/// One file to send: the local file and the path it takes on the device.
pub struct Push {
    pub local: Vec<u8>,
    pub remote: Vec<u8>,
}

/// Whether an upload from `root` sends the local file `local`: it lies under
/// `root` and its name marks a source file.
pub open spec fn is_sent(local: Seq<u8>, root: Seq<u8>) -> bool {
    &&& remote_path_of(local, root) is Some
    &&& is_source_path(remote_path_of(local, root)->0)
}

/// The files that an upload from `root` sends, of the local files `found`,
/// with their device paths, in the order found.
pub open spec fn upload_plan(found: Seq<Seq<u8>>, root: Seq<u8>) -> Seq<(Seq<u8>, Seq<u8>)>
    decreases found.len(),
{
    if found.len() == 0 {
        Seq::empty()
    } else {
        let earlier = upload_plan(found.drop_last(), root);
        let l = found.last();
        if is_sent(l, root) {
            earlier.push((l, remote_path_of(l, root)->0))
        } else {
            earlier
        }
    }
}

pub open spec fn push_view(p: Push) -> (Seq<u8>, Seq<u8>) {
    (p.local@, p.remote@)
}

/// The device paths that an upload plan sends.
pub open spec fn sent_paths(plan: Seq<(Seq<u8>, Seq<u8>)>) -> Seq<Seq<u8>> {
    plan.map_values(|e: (Seq<u8>, Seq<u8>)| e.1)
}

proof fn lemma_sent_paths_listable(found: Seq<Seq<u8>>, root: Seq<u8>)
    requires
        forall|k: int| 0 <= k < found.len() ==> unquoted(#[trigger] found[k]),
    ensures
        forall|k: int|
            0 <= k < upload_plan(found, root).len() ==> is_source_path(
                #[trigger] upload_plan(found, root)[k].1,
            ) && unquoted(upload_plan(found, root)[k].1),
    decreases found.len(),
{
    if found.len() > 0 {
        let earlier = found.drop_last();
        assert forall|k: int| 0 <= k < earlier.len() implies unquoted(#[trigger] earlier[k]) by {
            assert(earlier[k] == found[k]);
        }
        lemma_sent_paths_listable(earlier, root);
        let l = found.last();
        assert(unquoted(found[found.len() - 1]));
        let plan = upload_plan(found, root);
        let ep = upload_plan(earlier, root);
        if is_sent(l, root) {
            let r = remote_path_of(l, root)->0;
            let pre = crate::paths::root_prefix(root);
            assert forall|i: int| 0 <= i < r.len() implies r[i] != QUOTE by {
                if i > 0 {
                    assert(r[i] == l[pre.len() + i - 1]);
                }
            }
            assert(plan == ep.push((l, r)));
        } else {
            assert(plan == ep);
        }
        assert forall|k: int| 0 <= k < plan.len() implies is_source_path(#[trigger] plan[k].1)
            && unquoted(plan[k].1) by {
            if k < ep.len() {
                assert(plan[k] == ep[k]);
            }
        }
    }
}

/// Whatever local files an upload sends, a listing of the device that names
/// the files it holds reads back as exactly the device paths sent, in the
/// order they were sent (given local paths without quotation marks).
pub proof fn lemma_upload_then_list(found: Seq<Seq<u8>>, root: Seq<u8>)
    requires
        forall|k: int| 0 <= k < found.len() ==> unquoted(#[trigger] found[k]),
    ensures
        listed_paths(listing_of(sent_paths(upload_plan(found, root)))) == sent_paths(
            upload_plan(found, root),
        ),
{
    lemma_sent_paths_listable(found, root);
    let ps = sent_paths(upload_plan(found, root));
    assert forall|k: int| 0 <= k < ps.len() implies is_source_path(#[trigger] ps[k]) && unquoted(
        ps[k],
    ) by {
        assert(ps[k] == upload_plan(found, root)[k].1);
    }
    lemma_listing_reads_back(ps);
}

/// The files that an upload from `src_root` sends, of those that the walk of
/// the local tree found.
pub fn plan_upload(found: &Vec<Vec<u8>>, src_root: &[u8]) -> (r: Vec<Push>)
    requires
        src_root@.len() < usize::MAX,
        forall|k: int| 0 <= k < found@.len() ==> found@[k]@.len() < usize::MAX,
    ensures
        r@.map_values(|p: Push| push_view(p)) == upload_plan(
            found@.map_values(|v: Vec<u8>| v@),
            src_root@,
        ),
{
    let mut out: Vec<Push> = Vec::new();
    let mut k: usize = 0;
    while k < found.len()
        invariant
            k <= found@.len(),
            src_root@.len() < usize::MAX,
            forall|j: int| 0 <= j < found@.len() ==> found@[j]@.len() < usize::MAX,
            out@.map_values(|p: Push| push_view(p)) == upload_plan(
                found@.map_values(|v: Vec<u8>| v@).subrange(0, k as int),
                src_root@,
            ),
        decreases found@.len() - k,
    {
        let ghost seen = found@.map_values(|v: Vec<u8>| v@).subrange(0, k + 1);
        assert(seen.drop_last() =~= found@.map_values(|v: Vec<u8>| v@).subrange(0, k as int));
        assert(seen.last() == found@[k as int]@);
        let local = &found[k];
        match local_to_remote(local.as_slice(), src_root) {
            Some(remote) => {
                if is_source_file(remote.as_slice()) {
                    let mut copy: Vec<u8> = Vec::new();
                    push_all(&mut copy, local.as_slice());
                    let ghost before = out@;
                    out.push(Push { local: copy, remote });
                    assert(out@.map_values(|p: Push| push_view(p)) =~= before.map_values(
                        |p: Push| push_view(p),
                    ).push(push_view(out@.last())));
                }
            },
            None => {},
        }
        k = k + 1;
    }
    assert(found@.map_values(|v: Vec<u8>| v@).subrange(0, found@.len() as int)
        =~= found@.map_values(|v: Vec<u8>| v@));
    out
}

} // verus!
