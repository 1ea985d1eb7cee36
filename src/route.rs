//! Parsing a request path into the query it asks for.
//!
//! Trailing slashes are dropped, the rest is split at each slash, and the
//! first piece (what stands before the leading slash) is skipped. What is
//! left names the query: `num_tracked`, `version`, or a target followed by
//! `by_avg` or `by_loss`.

use vstd::prelude::*;

verus! {

/// The byte of a slash.
pub const SLASH: u8 = 47;

/// The longest target name, in bytes.
pub const MAX_TARGET_LEN: usize = 253;

/// `path` without its trailing slashes.
pub open spec fn trim_slashes(path: Seq<u8>) -> Seq<u8>
    decreases path.len(),
{
    if path.len() > 0 && path.last() == SLASH {
        trim_slashes(path.drop_last())
    } else {
        path
    }
}

/// The pieces of `s` between its slashes, in order; a string without a
/// slash is one piece.
pub open spec fn split_slashes(s: Seq<u8>) -> Seq<Seq<u8>>
    decreases s.len(),
{
    if s.len() == 0 {
        seq![Seq::<u8>::empty()]
    } else {
        let pieces = split_slashes(s.drop_last());
        if s.last() == SLASH {
            pieces.push(Seq::<u8>::empty())
        } else {
            pieces.update(pieces.len() - 1, pieces.last().push(s.last()))
        }
    }
}

proof fn lemma_split_nonempty(s: Seq<u8>)
    ensures
        split_slashes(s).len() >= 1,
    decreases s.len(),
{
    if s.len() > 0 {
        lemma_split_nonempty(s.drop_last());
    }
}

/// The pieces of a path that name a query.
pub open spec fn path_segments(path: Seq<u8>) -> Seq<Seq<u8>> {
    split_slashes(trim_slashes(path)).drop_first()
}

/// `num_tracked`
pub open spec fn word_num_tracked() -> Seq<u8> {
    seq![110u8, 117, 109, 95, 116, 114, 97, 99, 107, 101, 100]
}

/// `version`
pub open spec fn word_version() -> Seq<u8> {
    seq![118u8, 101, 114, 115, 105, 111, 110]
}

/// `by_avg`
pub open spec fn word_by_avg() -> Seq<u8> {
    seq![98u8, 121, 95, 97, 118, 103]
}

/// `by_loss`
pub open spec fn word_by_loss() -> Seq<u8> {
    seq![98u8, 121, 95, 108, 111, 115, 115]
}

/// The availability metric that a query asks for.
#[derive(Clone, Copy, Debug, PartialEq, Eq, Structural)]
pub enum MetricKind {
    ByAvg,
    ByLoss,
}

/// The metric that `segs` ask for about a target, if they are a target of
/// 1 to `MAX_TARGET_LEN` bytes followed by `by_avg` or `by_loss`.
pub open spec fn uptime_query(segs: Seq<Seq<u8>>) -> Option<MetricKind> {
    if segs.len() == 2 && 1 <= segs[0].len() <= MAX_TARGET_LEN {
        if segs[1] == word_by_avg() {
            Some(MetricKind::ByAvg)
        } else if segs[1] == word_by_loss() {
            Some(MetricKind::ByLoss)
        } else {
            None
        }
    } else {
        None
    }
}

/// The query that a request path asks for.
#[derive(Debug)]
pub enum Route {
    NumTracked,
    Version,
    Uptime { target: Vec<u8>, kind: MetricKind },
    Invalid,
}

fn is_word(seg: &Vec<u8>, word: &[u8]) -> (r: bool)
    ensures
        r == (seg@ == word@),
{
    if seg.len() != word.len() {
        return false;
    }
    let mut i: usize = 0;
    while i < word.len()
        invariant
            seg@.len() == word@.len(),
            i <= word@.len(),
            forall|j: int| 0 <= j < i ==> seg@[j] == word@[j],
        decreases word@.len() - i,
    {
        if seg[i] != word[i] {
            return false;
        }
        i = i + 1;
    }
    assert(seg@ =~= word@);
    true
}

/// The length of `path` without its trailing slashes.
fn trimmed_len(path: &[u8]) -> (r: usize)
    ensures
        r <= path@.len(),
        path@.subrange(0, r as int) == trim_slashes(path@),
{
    let mut end: usize = path.len();
    assert(path@.subrange(0, end as int) =~= path@);
    while end > 0 && path[end - 1] == SLASH
        invariant
            end <= path@.len(),
            trim_slashes(path@.subrange(0, end as int)) == trim_slashes(path@),
        decreases end,
    {
        assert(path@.subrange(0, end as int).drop_last() =~= path@.subrange(0, end - 1));
        end = end - 1;
    }
    proof {
        lemma_untrimmed(path@.subrange(0, end as int));
    }
    end
}

proof fn lemma_untrimmed(s: Seq<u8>)
    requires
        !(s.len() > 0 && s.last() == SLASH),
    ensures
        trim_slashes(s) == s,
{
}

/// The pieces of `path[..end]` between its slashes.
fn split_prefix(path: &[u8], end: usize) -> (r: Vec<Vec<u8>>)
    requires
        end <= path@.len(),
    ensures
        r@.map_values(|v: Vec<u8>| v@) == split_slashes(path@.subrange(0, end as int)),
{
    let mut done: Vec<Vec<u8>> = Vec::new();
    let mut current: Vec<u8> = Vec::new();
    let mut i: usize = 0;
    assert(path@.subrange(0, 0) =~= Seq::<u8>::empty());
    assert(done@.map_values(|v: Vec<u8>| v@).push(current@) =~= split_slashes(Seq::<u8>::empty()));
    while i < end
        invariant
            i <= end <= path@.len(),
            done@.map_values(|v: Vec<u8>| v@).push(current@) == split_slashes(
                path@.subrange(0, i as int),
            ),
        decreases end - i,
    {
        let b = path[i];
        let ghost prefix = path@.subrange(0, i as int);
        let ghost next = path@.subrange(0, i + 1);
        assert(next.drop_last() =~= prefix);
        assert(next.last() == b);
        if b == SLASH {
            let finished = current;
            done.push(finished);
            current = Vec::new();
            assert(done@.map_values(|v: Vec<u8>| v@).push(current@) =~= split_slashes(prefix).push(
                Seq::<u8>::empty(),
            ));
        } else {
            let ghost before = done@.map_values(|v: Vec<u8>| v@).push(current@);
            current.push(b);
            assert(done@.map_values(|v: Vec<u8>| v@).push(current@) =~= before.update(
                before.len() - 1,
                before.last().push(b),
            ));
        }
        i = i + 1;
    }
    done.push(current);
    assert(done@.map_values(|v: Vec<u8>| v@) =~= split_slashes(path@.subrange(0, end as int)));
    done
}

/// Parses a request path into the query it asks for.
pub fn parse_path(path: &[u8]) -> (r: Route)
    ensures
        r is NumTracked <==> path_segments(path@) == seq![word_num_tracked()],
        r is Version <==> path_segments(path@) == seq![word_version()],
        r is Invalid <==> (path_segments(path@) != seq![word_num_tracked()] && path_segments(path@)
            != seq![word_version()] && uptime_query(path_segments(path@)) is None),
        r matches Route::Uptime { target, kind } ==> uptime_query(path_segments(path@)) == Some(
            kind,
        ) && target@ == path_segments(path@)[0],
{
    let end = trimmed_len(path);
    let pieces = split_prefix(path, end);
    let ghost all = pieces@.map_values(|v: Vec<u8>| v@);
    let ghost segs = path_segments(path@);
    proof {
        lemma_split_nonempty(path@.subrange(0, end as int));
    }
    assert(segs == all.drop_first());
    let num_tracked: [u8; 11] = [110, 117, 109, 95, 116, 114, 97, 99, 107, 101, 100];
    let version: [u8; 7] = [118, 101, 114, 115, 105, 111, 110];
    let by_avg: [u8; 6] = [98, 121, 95, 97, 118, 103];
    let by_loss: [u8; 7] = [98, 121, 95, 108, 111, 115, 115];
    assert(num_tracked@ =~= word_num_tracked());
    assert(version@ =~= word_version());
    assert(by_avg@ =~= word_by_avg());
    assert(by_loss@ =~= word_by_loss());
    assert(seq![word_num_tracked()] != seq![word_version()]) by {
        assert(seq![word_num_tracked()][0] == word_num_tracked());
        assert(seq![word_version()][0] == word_version());
        assert(word_num_tracked().len() != word_version().len());
    }
    if pieces.len() == 2 {
        assert(all[1] == pieces@[1]@);
        if is_word(&pieces[1], num_tracked.as_slice()) {
            assert(segs =~= seq![word_num_tracked()]);
            return Route::NumTracked;
        }
        if is_word(&pieces[1], version.as_slice()) {
            assert(segs =~= seq![word_version()]);
            return Route::Version;
        }
        assert(segs.len() == 1 && segs[0] == all[1]);
        assert(seq![word_num_tracked()][0] == word_num_tracked());
        assert(seq![word_version()][0] == word_version());
        return Route::Invalid;
    }
    if pieces.len() == 3 {
        assert(segs[0] == pieces@[1]@);
        assert(segs[1] == pieces@[2]@);
        let target_len = pieces[1].len();
        if 1 <= target_len && target_len <= MAX_TARGET_LEN {
            if is_word(&pieces[2], by_avg.as_slice()) {
                return Route::Uptime { target: pieces[1].clone(), kind: MetricKind::ByAvg };
            }
            if is_word(&pieces[2], by_loss.as_slice()) {
                return Route::Uptime { target: pieces[1].clone(), kind: MetricKind::ByLoss };
            }
        }
        return Route::Invalid;
    }
    Route::Invalid
}

} // verus!
