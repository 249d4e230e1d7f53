//! The device's file listing: free text in which the quoted strings that name
//! a source file are the paths of the files it holds.
use vstd::prelude::*;
use crate::bytes::push_all;
use crate::paths::{is_source_file, is_source_path, local_path_of, remote_to_local};

verus! {

/// The quotation mark that delimits a path in a listing.
pub const QUOTE: u8 = 34;

/// The pieces of `s` between quotation marks, in order: the piece before the
/// first mark, the piece between the first and the second, and so on up to
/// the piece after the last mark.
pub open spec fn split_quotes(s: Seq<u8>) -> Seq<Seq<u8>>
    decreases s.len(),
{
    if s.len() == 0 {
        seq![Seq::empty()]
    } else {
        let pre = split_quotes(s.drop_last());
        if s.last() == QUOTE {
            pre.push(Seq::empty())
        } else {
            pre.update(pre.len() - 1, pre.last().push(s.last()))
        }
    }
}

/// Of a run of pieces, those at odd positions (the quoted ones) that name a
/// source file, in order.
pub open spec fn quoted_sources(pieces: Seq<Seq<u8>>) -> Seq<Seq<u8>>
    decreases pieces.len(),
{
    if pieces.len() == 0 {
        Seq::empty()
    } else {
        let earlier = quoted_sources(pieces.drop_last());
        if (pieces.len() - 1) % 2 == 1 && is_source_path(pieces.last()) {
            earlier.push(pieces.last())
        } else {
            earlier
        }
    }
}

/// The source paths that the listing `s` names: each string closed by a
/// quotation mark that names a source file, in the order of the listing.
pub open spec fn listed_paths(s: Seq<u8>) -> Seq<Seq<u8>> {
    quoted_sources(split_quotes(s).drop_last())
}

/// The byte strings held by a vector of byte vectors.
pub open spec fn byte_strings(v: Seq<Vec<u8>>) -> Seq<Seq<u8>> {
    v.map_values(|b: Vec<u8>| b@)
}

pub proof fn lemma_split_nonempty(s: Seq<u8>)
    ensures
        split_quotes(s).len() >= 1,
    decreases s.len(),
{
    if s.len() > 0 {
        lemma_split_nonempty(s.drop_last());
    }
}

/// A listing that names exactly the paths `ps`, each between quotation marks
/// and followed by a comma.
pub open spec fn listing_of(ps: Seq<Seq<u8>>) -> Seq<u8>
    decreases ps.len(),
{
    if ps.len() == 0 {
        Seq::empty()
    } else {
        (listing_of(ps.drop_last()).push(QUOTE) + ps.last()).push(QUOTE).push(COMMA)
    }
}

/// The comma that follows each path in a listing.
pub const COMMA: u8 = 44;

/// Whether `p` holds no quotation mark.
pub open spec fn unquoted(p: Seq<u8>) -> bool {
    forall|i: int| 0 <= i < p.len() ==> p[i] != QUOTE
}

proof fn lemma_split_push(s: Seq<u8>, b: u8)
    ensures
        split_quotes(s.push(b)) == (if b == QUOTE {
            split_quotes(s).push(Seq::empty())
        } else {
            split_quotes(s).update(
                split_quotes(s).len() - 1,
                split_quotes(s).last().push(b),
            )
        }),
{
    assert(s.push(b).drop_last() =~= s);
}

proof fn lemma_split_plain(s: Seq<u8>, p: Seq<u8>)
    requires
        unquoted(p),
    ensures
        split_quotes(s + p) == split_quotes(s).update(
            split_quotes(s).len() - 1,
            split_quotes(s).last() + p,
        ),
    decreases p.len(),
{
    lemma_split_nonempty(s);
    let a = split_quotes(s);
    if p.len() == 0 {
        assert(s + p =~= s);
        assert(a.update(a.len() - 1, a.last() + p) =~= a);
    } else {
        let q = p.drop_last();
        lemma_split_plain(s, q);
        assert(s + p =~= (s + q).push(p.last()));
        lemma_split_push(s + q, p.last());
        assert((a.last() + q).push(p.last()) =~= a.last() + p);
        assert(split_quotes(s + p) =~= a.update(a.len() - 1, a.last() + p));
    }
}

proof fn lemma_listing_pieces(ps: Seq<Seq<u8>>)
    requires
        forall|k: int| 0 <= k < ps.len() ==> is_source_path(#[trigger] ps[k]) && unquoted(ps[k]),
    ensures
        split_quotes(listing_of(ps)).len() == 2 * ps.len() + 1,
        quoted_sources(split_quotes(listing_of(ps)).drop_last()) == ps,
        quoted_sources(split_quotes(listing_of(ps))) == ps,
    decreases ps.len(),
{
    if ps.len() == 0 {
        let e = seq![Seq::<u8>::empty()];
        assert(listing_of(ps) == Seq::<u8>::empty());
        assert(split_quotes(Seq::<u8>::empty()) == e);
        assert(e.drop_last() =~= Seq::<Seq<u8>>::empty());
        assert(quoted_sources(e) == quoted_sources(e.drop_last()));
    } else {
        let earlier = ps.drop_last();
        let p = ps.last();
        assert(is_source_path(ps[ps.len() - 1]) && unquoted(ps[ps.len() - 1]));
        lemma_listing_pieces(earlier);
        let r0 = listing_of(earlier);
        let a = split_quotes(r0);
        let r1 = r0.push(QUOTE);
        let r2 = r1 + p;
        let r3 = r2.push(QUOTE);
        let r4 = r3.push(COMMA);
        lemma_split_push(r0, QUOTE);
        lemma_split_plain(r1, p);
        assert(split_quotes(r2) =~= a.push(p));
        lemma_split_push(r2, QUOTE);
        lemma_split_push(r3, COMMA);
        assert(split_quotes(r4) =~= a.push(p).push(seq![COMMA]));
        assert(listing_of(ps) == r4);
        assert(split_quotes(r4).drop_last() =~= a.push(p));
        assert(a.push(p).drop_last() =~= a);
        assert(a.push(p).push(seq![COMMA]).drop_last() =~= a.push(p));
        assert(quoted_sources(a.push(p)) == quoted_sources(a).push(p));
        assert(quoted_sources(a.push(p).push(seq![COMMA])) == quoted_sources(a.push(p)));
        assert(ps =~= earlier.push(p));
    }
}

/// A listing that names source paths without quotation marks in them reads
/// back as exactly those paths, in their order: what was sent to the device
/// is what its listing reports.
pub proof fn lemma_listing_reads_back(ps: Seq<Seq<u8>>)
    requires
        forall|k: int| 0 <= k < ps.len() ==> is_source_path(#[trigger] ps[k]) && unquoted(ps[k]),
    ensures
        listed_paths(listing_of(ps)) == ps,
{
    lemma_listing_pieces(ps);
}

/// Reads the source paths out of a listing reply of the device.
pub fn parse_listing(body: &[u8]) -> (r: Vec<Vec<u8>>)
    ensures
        byte_strings(r@) == listed_paths(body@),
        forall|k: int| 0 <= k < r@.len() ==> r@[k]@.len() <= body@.len(),
{
    let mut out: Vec<Vec<u8>> = Vec::new();
    let mut cur: Vec<u8> = Vec::new();
    let mut closed: usize = 0;
    let mut i: usize = 0;
    proof {
        assert(body@.subrange(0, 0) =~= Seq::<u8>::empty());
    }
    while i < body.len()
        invariant
            i <= body@.len(),
            closed <= i,
            split_quotes(body@.subrange(0, i as int)).len() == closed + 1,
            split_quotes(body@.subrange(0, i as int)).last() == cur@,
            cur@.len() <= i,
            byte_strings(out@) == quoted_sources(
                split_quotes(body@.subrange(0, i as int)).drop_last(),
            ),
            forall|k: int| 0 <= k < out@.len() ==> out@[k]@.len() <= i,
        decreases body@.len() - i,
    {
        let ghost before = split_quotes(body@.subrange(0, i as int));
        let b = body[i];
        assert(body@.subrange(0, i + 1).drop_last() =~= body@.subrange(0, i as int));
        if b == QUOTE {
            let ghost after = before.push(Seq::empty());
            assert(split_quotes(body@.subrange(0, i + 1)) == after);
            assert(after.drop_last() =~= before);
            assert(before.drop_last().push(before.last()) =~= before);
            if closed % 2 == 1 && is_source_file(cur.as_slice()) {
                let ghost old_out = out@;
                out.push(cur);
                assert(byte_strings(out@) =~= byte_strings(old_out).push(before.last()));
            }
            cur = Vec::new();
            closed = closed + 1;
        } else {
            let ghost after = before.update(before.len() - 1, before.last().push(b));
            assert(split_quotes(body@.subrange(0, i + 1)) == after);
            assert(after.drop_last() =~= before.drop_last());
            cur.push(b);
        }
        i = i + 1;
    }
    assert(body@.subrange(0, body@.len() as int) =~= body@);
    out
}

/// One file to fetch: its path on the device and the local path to write.
pub struct Transfer {
    pub remote: Vec<u8>,
    pub local: Vec<u8>,
}

/// The files that a download into `dest_root` fetches, one for each source
/// path of the listing, in the order of the listing.
pub fn plan_download(listing: &[u8], dest_root: &[u8]) -> (r: Vec<Transfer>)
    requires
        listing@.len() + dest_root@.len() < usize::MAX,
    ensures
        r@.len() == listed_paths(listing@).len(),
        forall|k: int|
            0 <= k < r@.len() ==> {
                &&& r@[k].remote@ == listed_paths(listing@)[k]
                &&& r@[k].local@ == local_path_of(listed_paths(listing@)[k], dest_root@)
            },
{
    let paths = parse_listing(listing);
    let mut out: Vec<Transfer> = Vec::new();
    let mut k: usize = 0;
    while k < paths.len()
        invariant
            k <= paths@.len(),
            byte_strings(paths@) == listed_paths(listing@),
            forall|j: int| 0 <= j < paths@.len() ==> paths@[j]@.len() <= listing@.len(),
            listing@.len() + dest_root@.len() < usize::MAX,
            out@.len() == k,
            forall|j: int|
                0 <= j < k ==> {
                    &&& out@[j].remote@ == listed_paths(listing@)[j]
                    &&& out@[j].local@ == local_path_of(listed_paths(listing@)[j], dest_root@)
                },
        decreases paths@.len() - k,
    {
        assert(byte_strings(paths@)[k as int] == paths@[k as int]@);
        let mut remote: Vec<u8> = Vec::new();
        push_all(&mut remote, paths[k].as_slice());
        let local = remote_to_local(paths[k].as_slice(), dest_root);
        out.push(Transfer { remote, local });
        k = k + 1;
    }
    assert(byte_strings(paths@).len() == paths@.len());
    assert(out@.len() == listed_paths(listing@).len());
    out
}

} // verus!
