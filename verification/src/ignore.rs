//! The set of file names excluded from all link and unlink consideration.
//!
//! The set is built once from a comma-separated configuration string.
//! Membership is exact string equality: no globbing, no case folding. Empty
//! segments (a trailing comma, say) are permitted in the configuration and
//! never match anything.

use vstd::prelude::*;
use vstd::string::StrSliceExecFns;

verus! {

/// The comma-separated segments of `s`: one segment more than there are
/// commas, empty segments kept, exactly as splitting on `,` hands them out.
pub open spec fn split_commas(s: Seq<char>) -> Seq<Seq<char>>
    decreases s.len(),
{
    if s.len() == 0 {
        seq![Seq::<char>::empty()]
    } else if s.last() == ',' {
        split_commas(s.drop_last()).push(Seq::<char>::empty())
    } else {
        let init = split_commas(s.drop_last());
        init.update(init.len() - 1, init.last().push(s.last()))
    }
}

/// A split always yields at least one segment.
pub proof fn lemma_split_commas_len(s: Seq<char>)
    ensures
        split_commas(s).len() >= 1,
    decreases s.len(),
{
    if s.len() != 0 {
        lemma_split_commas_len(s.drop_last());
    }
}

/// The subsequence of `segs` whose segments are non-empty, in order.
pub open spec fn nonempty_of(segs: Seq<Seq<char>>) -> Seq<Seq<char>>
    decreases segs.len(),
{
    if segs.len() == 0 {
        Seq::empty()
    } else if segs.last().len() > 0 {
        nonempty_of(segs.drop_last()).push(segs.last())
    } else {
        nonempty_of(segs.drop_last())
    }
}

/// A segment is kept by `nonempty_of` exactly when it occurs and is non-empty.
pub proof fn lemma_nonempty_of_contains(segs: Seq<Seq<char>>, x: Seq<char>)
    ensures
        nonempty_of(segs).contains(x) <==> segs.contains(x) && x.len() > 0,
    decreases segs.len(),
{
    broadcast use vstd::seq_lib::lemma_seq_contains_after_push;

    if segs.len() != 0 {
        lemma_nonempty_of_contains(segs.drop_last(), x);
        if segs.contains(x) {
            let i = choose|i: int| 0 <= i < segs.len() && segs[i] == x;
            if i < segs.len() - 1 {
                assert(segs.drop_last()[i] == x);
            }
        }
        if segs.drop_last().contains(x) {
            let i = choose|i: int|
                0 <= i < segs.drop_last().len() && segs.drop_last()[i] == x;
            assert(segs[i] == x);
        }
        if segs.last() == x {
            assert(segs[segs.len() - 1] == x);
        }
    }
}

/// The names an ignore configuration string designates: its non-empty
/// comma-separated segments.
pub open spec fn ignored_names(config: Seq<char>) -> Set<Seq<char>> {
    nonempty_of(split_commas(config)).to_set()
}

/// A name is ignored exactly when it equals one of the configuration's
/// non-empty comma-separated segments: membership is exact string equality,
/// and an empty segment can never match anything.
pub proof fn lemma_ignored_names_exact(config: Seq<char>, name: Seq<char>)
    ensures
        ignored_names(config).contains(name) <==> split_commas(config).contains(name) && name.len()
            > 0,
{
    lemma_nonempty_of_contains(split_commas(config), name);
}

/// Splits `s` at every comma, empty segments included.
fn split_config(s: &str) -> (segs: Vec<String>)
    ensures
        segs.deep_view() == split_commas(s@),
{
    let n = s.unicode_len();
    let mut segs: Vec<String> = Vec::new();
    let mut start: usize = 0;
    let mut i: usize = 0;
    proof {
        assert(s@.subrange(0, 0) =~= Seq::<char>::empty());
        assert(segs.deep_view() =~= Seq::<Seq<char>>::empty());
        assert(segs.deep_view().push(s@.subrange(0, 0)) =~= split_commas(s@.subrange(0, 0)));
    }
    while i < n
        invariant
            n == s@.len(),
            start <= i <= n,
            segs.deep_view().push(s@.subrange(start as int, i as int)) == split_commas(
                s@.subrange(0, i as int),
            ),
        decreases n - i,
    {
        let ghost prefix = s@.subrange(0, i as int);
        let ghost cur = s@.subrange(start as int, i as int);
        let c = s.get_char(i);
        if c == ',' {
            let seg = s.substring_char(start, i).to_owned();
            segs.push(seg);
            start = i + 1;
        }
        i = i + 1;
        proof {
            let next = s@.subrange(0, i as int);
            assert(next.drop_last() =~= prefix);
            assert(next.last() == c);
            if c == ',' {
                assert(s@.subrange(start as int, i as int) =~= Seq::<char>::empty());
                assert(segs.deep_view() =~= split_commas(prefix));
                assert(segs.deep_view().push(s@.subrange(start as int, i as int)) =~= split_commas(
                    next,
                ));
            } else {
                let init = split_commas(prefix);
                lemma_split_commas_len(prefix);
                assert(init.last() == cur);
                assert(s@.subrange(start as int, i as int) =~= cur.push(c));
                assert(split_commas(next) =~= init.update(init.len() - 1, cur.push(c)));
                assert(segs.deep_view().push(s@.subrange(start as int, i as int)) =~= split_commas(
                    next,
                ));
            }
        }
    }
    let last = s.substring_char(start, n).to_owned();
    segs.push(last);
    proof {
        assert(s@.subrange(0, n as int) =~= s@);
        assert(segs.deep_view() =~= split_commas(s@));
    }
    segs
}

/// Keeps the non-empty strings of `segs`, in order.
fn keep_nonempty(segs: Vec<String>) -> (kept: Vec<String>)
    ensures
        kept.deep_view() == nonempty_of(segs.deep_view()),
{
    let mut kept: Vec<String> = Vec::new();
    let mut i: usize = 0;
    proof {
        assert(segs.deep_view().subrange(0, 0) =~= Seq::<Seq<char>>::empty());
        assert(kept.deep_view() =~= nonempty_of(segs.deep_view().subrange(0, 0)));
    }
    while i < segs.len()
        invariant
            i <= segs.len(),
            kept.deep_view() == nonempty_of(segs.deep_view().subrange(0, i as int)),
        decreases segs.len() - i,
    {
        let ghost prefix = segs.deep_view().subrange(0, i as int);
        if segs[i].as_str().unicode_len() > 0 {
            let seg = segs[i].clone();
            kept.push(seg);
        }
        i = i + 1;
        proof {
            let next = segs.deep_view().subrange(0, i as int);
            assert(next.drop_last() =~= prefix);
            assert(next.last() == segs.deep_view()[i - 1]);
            assert(kept.deep_view() =~= nonempty_of(next));
        }
    }
    proof {
        assert(segs.deep_view().subrange(0, segs.len() as int) =~= segs.deep_view());
    }
    kept
}

/// The file names a run leaves out of every link and unlink decision.
pub struct IgnoreSet {
    names: Vec<String>,
}

impl View for IgnoreSet {
    type V = Set<Seq<char>>;

    closed spec fn view(&self) -> Set<Seq<char>> {
        self.names.deep_view().to_set()
    }
}

impl IgnoreSet {
    /// Builds the set from a comma-separated configuration string. Empty
    /// segments are dropped, so they can never match a name.
    pub fn from_config(config: &str) -> (r: IgnoreSet)
        ensures
            r@ == ignored_names(config@),
    {
        let segs = split_config(config);
        let names = keep_nonempty(segs);
        IgnoreSet { names }
    }

    /// Exact membership: `name` equals one of the configured names.
    pub fn contains(&self, name: &String) -> (b: bool)
        ensures
            b == self@.contains(name@),
    {
        let mut i: usize = 0;
        while i < self.names.len()
            invariant
                i <= self.names.len(),
                forall|j: int| 0 <= j < i ==> self.names.deep_view()[j] != name@,
            decreases self.names.len() - i,
        {
            if self.names[i] == *name {
                assert(self.names.deep_view()[i as int] == name@);
                return true;
            }
            i = i + 1;
        }
        assert(!self.names.deep_view().contains(name@));
        false
    }
}

} // verus!
