//! The work set: the paths that passed the content filter, each held once.

use crate::filter::ContentFilter;
use crate::text::views;
use vstd::prelude::*;

verus! {

/// A discovered file: its path and what it held when it was read.
#[derive(Clone, Debug)]
pub struct Candidate {
    pub path: String,
    pub contents: String,
}

/// The paths accepted for upload. Order carries no meaning.
#[derive(Clone, Debug)]
pub struct WorkSet {
    /// The members; no path occurs twice.
    pub paths: Vec<String>,
}

impl View for WorkSet {
    type V = Set<Seq<char>>;

    open spec fn view(&self) -> Set<Seq<char>> {
        views(self.paths@).to_set()
    }
}

/// The paths of those candidates among the first `n` that `filter` admits.
pub open spec fn admitted_among(candidates: Seq<Candidate>, filter: ContentFilter, n: int) -> Set<
    Seq<char>,
> {
    Set::new(
        |p: Seq<char>|
            exists|i: int|
                0 <= i < n && i < candidates.len() && (#[trigger] candidates[i]).path@ == p
                    && filter.admits_contents(candidates[i].contents@),
    )
}

/// The paths of the candidates that `filter` admits.
pub open spec fn admitted_paths(candidates: Seq<Candidate>, filter: ContentFilter) -> Set<
    Seq<char>,
> {
    admitted_among(candidates, filter, candidates.len() as int)
}

impl WorkSet {
    /// No path is held twice.
    pub open spec fn wf(&self) -> bool {
        views(self.paths@).no_duplicates()
    }

    /// The empty work set.
    pub fn new() -> (w: WorkSet)
        ensures
            w.wf(),
            w@ == Set::<Seq<char>>::empty(),
            w.paths@.len() == 0,
    {
        let w = WorkSet { paths: Vec::new() };
        assert(w@ =~= Set::<Seq<char>>::empty());
        w
    }

    /// Number of members.
    pub fn len(&self) -> (n: usize)
        requires
            self.wf(),
        ensures
            n == self@.len(),
            n == self.paths@.len(),
            self@.finite(),
    {
        proof {
            views(self.paths@).unique_seq_to_set();
        }
        self.paths.len()
    }

    pub fn is_empty(&self) -> (b: bool)
        requires
            self.wf(),
        ensures
            b == (self@ == Set::<Seq<char>>::empty()),
    {
        proof {
            views(self.paths@).unique_seq_to_set();
            if self.paths@.len() > 0 {
                assert(views(self.paths@)[0] == self.paths@[0]@);
                assert(views(self.paths@).contains(self.paths@[0]@));
                assert(self@.contains(self.paths@[0]@));
            } else {
                assert(self@ =~= Set::<Seq<char>>::empty());
            }
        }
        self.paths.len() == 0
    }

    /// Whether `path` is a member.
    pub fn contains(&self, path: &String) -> (b: bool)
        ensures
            b == self@.contains(path@),
    {
        let mut i: usize = 0;
        while i < self.paths.len()
            invariant
                i <= self.paths.len(),
                forall|j: int| 0 <= j < i ==> self.paths@[j]@ != path@,
            decreases self.paths.len() - i,
        {
            if self.paths[i] == *path {
                proof {
                    assert(views(self.paths@)[i as int] == path@);
                    assert(views(self.paths@).contains(path@));
                }
                return true;
            }
            i += 1;
        }
        proof {
            if views(self.paths@).contains(path@) {
                let j = choose|j: int|
                    0 <= j < views(self.paths@).len() && views(self.paths@)[j] == path@;
                assert(self.paths@[j]@ == path@);
            }
        }
        false
    }

    /// Adds `path` unless it is a member already; tells whether it was added.
    pub fn insert(&mut self, path: String) -> (added: bool)
        requires
            old(self).wf(),
        ensures
            final(self).wf(),
            final(self)@ == old(self)@.insert(path@),
            added == !old(self)@.contains(path@),
            added ==> final(self).paths@ == old(self).paths@.push(path),
            !added ==> final(self).paths@ == old(self).paths@,
    {
        if self.contains(&path) {
            assert(self@.insert(path@) =~= self@);
            false
        } else {
            let ghost before = views(self.paths@);
            self.paths.push(path);
            proof {
                let after = views(self.paths@);
                assert(after =~= before.push(path@));
                assert(!before.contains(path@));
                assert forall|i: int, j: int|
                    0 <= i < after.len() && 0 <= j < after.len() && i != j implies after[i]
                    != after[j] by {
                    if i < before.len() && j < before.len() {
                        assert(before[i] != before[j]);
                    } else if i < before.len() {
                        assert(before.contains(before[i]));
                    } else {
                        assert(before.contains(before[j]));
                    }
                }
                before.lemma_push_to_set_commute(path@);
            }
            true
        }
    }

    /// Takes in every member of `other`: the work set becomes the union of
    /// the two.
    pub fn merge(&mut self, other: &WorkSet)
        requires
            old(self).wf(),
        ensures
            final(self).wf(),
            final(self)@ == old(self)@.union(other@),
    {
        let mut i: usize = 0;
        proof {
            assert(views(other.paths@).take(0).to_set() =~= Set::<Seq<char>>::empty());
            assert(self@.union(Set::<Seq<char>>::empty()) =~= self@);
        }
        while i < other.paths.len()
            invariant
                i <= other.paths.len(),
                self.wf(),
                self@ == old(self)@.union(views(other.paths@).take(i as int).to_set()),
            decreases other.paths.len() - i,
        {
            let ghost seen = views(other.paths@).take(i as int);
            proof {
                seen.lemma_push_to_set_commute(other.paths@[i as int]@);
                assert(views(other.paths@).take(i + 1) =~= seen.push(other.paths@[i as int]@));
                assert(old(self)@.union(seen.to_set()).insert(other.paths@[i as int]@) =~= old(
                    self,
                )@.union(seen.to_set().insert(other.paths@[i as int]@)));
            }
            self.insert(other.paths[i].clone());
            i += 1;
        }
        proof {
            assert(views(other.paths@).take(other.paths@.len() as int) =~= views(other.paths@));
        }
    }

    /// The member at position `i` of the order in which members were added.
    pub fn get(&self, i: usize) -> (p: &String)
        requires
            i < self.paths@.len(),
        ensures
            *p == self.paths@[i as int],
            self@.contains(p@),
    {
        proof {
            assert(views(self.paths@)[i as int] == self.paths@[i as int]@);
            assert(views(self.paths@).contains(self.paths@[i as int]@));
        }
        &self.paths[i]
    }
}

/// What one more candidate adds to the admitted paths: its own path if the
/// filter admits it, nothing otherwise.
proof fn lemma_admitted_among_next(candidates: Seq<Candidate>, filter: ContentFilter, n: int)
    requires
        0 <= n < candidates.len(),
    ensures
        admitted_among(candidates, filter, n + 1) == if filter.admits_contents(
            candidates[n].contents@,
        ) {
            admitted_among(candidates, filter, n).insert(candidates[n].path@)
        } else {
            admitted_among(candidates, filter, n)
        },
{
    let before = admitted_among(candidates, filter, n);
    let after = admitted_among(candidates, filter, n + 1);
    let grown = if filter.admits_contents(candidates[n].contents@) {
        before.insert(candidates[n].path@)
    } else {
        before
    };
    assert forall|p: Seq<char>| after.contains(p) <==> grown.contains(p) by {
        if after.contains(p) {
            let k = choose|k: int|
                0 <= k < n + 1 && k < candidates.len() && (#[trigger] candidates[k]).path@ == p
                    && filter.admits_contents(candidates[k].contents@);
            if k < n {
                assert(before.contains(p));
            }
        }
        if before.contains(p) {
            let k = choose|k: int|
                0 <= k < n && k < candidates.len() && (#[trigger] candidates[k]).path@ == p
                    && filter.admits_contents(candidates[k].contents@);
            assert(after.contains(p));
        }
        if filter.admits_contents(candidates[n].contents@) && p == candidates[n].path@ {
            assert(candidates[n].path@ == p);
            assert(after.contains(p));
        }
    }
    assert(after =~= grown);
}

/// Evaluates the filter on every candidate and collects the paths of those it
/// admits, each once. `None` exactly when a configured pattern is not a
/// usable expression.
pub fn build_work_set(candidates: &Vec<Candidate>, filter: &ContentFilter) -> (r: Option<WorkSet>)
    ensures
        r is Some <==> filter.usable(),
        r is Some ==> r.unwrap().wf() && r.unwrap()@ == admitted_paths(candidates@, *filter),
{
    if !filter.is_usable() {
        return None;
    }
    let mut set = WorkSet::new();
    let mut i: usize = 0;
    proof {
        assert(admitted_among(candidates@, *filter, 0) =~= Set::<Seq<char>>::empty());
    }
    while i < candidates.len()
        invariant
            i <= candidates.len(),
            filter.usable(),
            set.wf(),
            set@ == admitted_among(candidates@, *filter, i as int),
        decreases candidates.len() - i,
    {
        let candidate = &candidates[i];
        let verdict = filter.admits(candidate.contents.as_str());
        proof {
            lemma_admitted_among_next(candidates@, *filter, i as int);
        }
        if verdict == Some(true) {
            set.insert(candidate.path.clone());
        }
        i += 1;
    }
    Some(set)
}

/// No member of the work set comes from contents in which the exclusion
/// pattern was found: every member is the path of a candidate that the filter
/// admits, and for that candidate the exclusion pattern did not match.
pub proof fn lemma_work_set_respects_exclusion(
    candidates: Seq<Candidate>,
    filter: ContentFilter,
    path: Seq<char>,
)
    requires
        admitted_paths(candidates, filter).contains(path),
    ensures
        exists|i: int|
            0 <= i < candidates.len() && (#[trigger] candidates[i]).path@ == path
                && crate::filter::hit(filter.exclude_pattern, candidates[i].contents@) != Some(
                true,
            ) && crate::filter::hit(filter.include_pattern, candidates[i].contents@) != Some(
                false,
            ),
{
    let i = choose|i: int|
        0 <= i < candidates.len() && i < candidates.len() && (#[trigger] candidates[i]).path@
            == path && filter.admits_contents(candidates[i].contents@);
    assert(candidates[i].path@ == path);
}

/// A path all of whose candidates hold the exclusion pattern is no member,
/// whether or not they hold the inclusion pattern.
pub proof fn lemma_excluded_path_absent(
    candidates: Seq<Candidate>,
    filter: ContentFilter,
    path: Seq<char>,
)
    requires
        forall|i: int|
            0 <= i < candidates.len() && (#[trigger] candidates[i]).path@ == path
                ==> crate::filter::hit(filter.exclude_pattern, candidates[i].contents@) == Some(
                true,
            ),
    ensures
        !admitted_paths(candidates, filter).contains(path),
{
}

/// Scans may be filtered piece by piece: the paths admitted from two lists of
/// candidates together are those admitted from either.
pub proof fn lemma_admitted_paths_of_parts(
    first: Seq<Candidate>,
    second: Seq<Candidate>,
    filter: ContentFilter,
)
    ensures
        admitted_paths(first + second, filter) == admitted_paths(first, filter).union(
            admitted_paths(second, filter),
        ),
{
    let whole = first + second;
    let a = admitted_paths(whole, filter);
    let b = admitted_paths(first, filter).union(admitted_paths(second, filter));
    assert forall|p: Seq<char>| a.contains(p) <==> b.contains(p) by {
        if a.contains(p) {
            let i = choose|i: int|
                0 <= i < whole.len() && i < whole.len() && (#[trigger] whole[i]).path@ == p
                    && filter.admits_contents(whole[i].contents@);
            if i < first.len() {
                assert(first[i].path@ == p);
                assert(admitted_paths(first, filter).contains(p));
            } else {
                assert(second[i - first.len()].path@ == p);
                assert(admitted_paths(second, filter).contains(p));
            }
        }
        if admitted_paths(first, filter).contains(p) {
            let i = choose|i: int|
                0 <= i < first.len() && i < first.len() && (#[trigger] first[i]).path@ == p
                    && filter.admits_contents(first[i].contents@);
            assert(whole[i].path@ == p);
        }
        if admitted_paths(second, filter).contains(p) {
            let i = choose|i: int|
                0 <= i < second.len() && i < second.len() && (#[trigger] second[i]).path@ == p
                    && filter.admits_contents(second[i].contents@);
            assert(whole[i + first.len()].path@ == p);
        }
    }
    assert(a =~= b);
}

/// The work set depends on which candidates there are, not on their order or
/// on how often each was found: two scans that hold the same candidates give
/// the same members.
pub proof fn lemma_work_set_independent_of_order(
    first: Seq<Candidate>,
    second: Seq<Candidate>,
    filter: ContentFilter,
)
    requires
        forall|i: int| 0 <= i < first.len() ==> second.contains(#[trigger] first[i]),
        forall|i: int| 0 <= i < second.len() ==> first.contains(#[trigger] second[i]),
    ensures
        admitted_paths(first, filter) == admitted_paths(second, filter),
{
    let a = admitted_paths(first, filter);
    let b = admitted_paths(second, filter);
    assert forall|p: Seq<char>| a.contains(p) <==> b.contains(p) by {
        if a.contains(p) {
            let i = choose|i: int|
                0 <= i < first.len() && i < first.len() && (#[trigger] first[i]).path@ == p
                    && filter.admits_contents(first[i].contents@);
            assert(second.contains(first[i]));
            let j = choose|j: int| 0 <= j < second.len() && second[j] == first[i];
            assert(second[j].path@ == p);
        }
        if b.contains(p) {
            let i = choose|i: int|
                0 <= i < second.len() && i < second.len() && (#[trigger] second[i]).path@ == p
                    && filter.admits_contents(second[i].contents@);
            assert(first.contains(second[i]));
            let j = choose|j: int| 0 <= j < first.len() && first[j] == second[i];
            assert(first[j].path@ == p);
        }
    }
    assert(a =~= b);
}

} // verus!
