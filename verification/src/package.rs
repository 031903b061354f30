//! Packages and their per-architecture build results.
//!
//! A package owns at most one `BuildResult` per architecture; a later
//! submission for the same architecture fully replaces the earlier one.
//! Contracts speak of a package's results as a map from architecture to
//! the recorded outcome.

use vstd::prelude::*;

verus! {

/// One recorded outcome, as the contracts speak of it: whether the build
/// succeeded and the blob filename under which its log is stored. The
/// architecture is the key under which the outcome is recorded.
pub ghost struct ResultView {
    pub success: bool,
    pub log: Seq<char>,
}

/// One architecture's build outcome for one package.
#[derive(Debug)]
pub struct BuildResult {
    /// Target architecture identifier.
    pub arch: String,
    /// Whether the build succeeded.
    pub success: bool,
    /// Blob filename under which the log is stored.
    pub log: String,
}

impl View for BuildResult {
    type V = ResultView;

    open spec fn view(&self) -> ResultView {
        ResultView { success: self.success, log: self.log@ }
    }
}

/// A buildable unit, identified by its directory name in the source tree,
/// with one recorded result per architecture.
#[derive(Debug)]
pub struct Package {
    /// The package's name, unique within the store.
    pub name: String,
    /// The recorded results, at most one per architecture.
    pub results: Vec<BuildResult>,
}

/// No two entries record the same architecture.
pub open spec fn archs_unique(s: Seq<BuildResult>) -> bool {
    forall|i: int, j: int| 0 <= i < j < s.len() ==> s[i].arch@ != s[j].arch@
}

/// The results sequence read as a map from architecture to outcome; a
/// later entry for the same architecture shadows an earlier one.
pub open spec fn results_map_of(s: Seq<BuildResult>) -> Map<Seq<char>, ResultView>
    decreases s.len(),
{
    if s.len() == 0 {
        Map::empty()
    } else {
        results_map_of(s.drop_last()).insert(s.last().arch@, s.last()@)
    }
}

/// An architecture is in the map exactly when some entry records it.
pub proof fn lemma_results_map_contains(s: Seq<BuildResult>, a: Seq<char>)
    ensures
        results_map_of(s).contains_key(a) <==> (exists|i: int|
            0 <= i < s.len() && #[trigger] s[i].arch@ == a),
    decreases s.len(),
{
    if s.len() > 0 {
        lemma_results_map_contains(s.drop_last(), a);
        if s.last().arch@ == a {
            assert(s[s.len() - 1].arch@ == a);
        } else {
            assert(forall|i: int| 0 <= i < s.len() - 1 ==> s.drop_last()[i] == s[i]);
            if exists|i: int| 0 <= i < s.len() && #[trigger] s[i].arch@ == a {
                let i = choose|i: int| 0 <= i < s.len() && #[trigger] s[i].arch@ == a;
                assert(i < s.len() - 1);
                assert(s.drop_last()[i].arch@ == a);
            }
        }
    }
}

/// With unique architectures, the map records each entry exactly.
pub proof fn lemma_results_map_index(s: Seq<BuildResult>, i: int)
    requires
        archs_unique(s),
        0 <= i < s.len(),
    ensures
        results_map_of(s).contains_key(s[i].arch@),
        results_map_of(s)[s[i].arch@] == s[i]@,
    decreases s.len(),
{
    if i == s.len() - 1 {
        assert(s.last() == s[i]);
    } else {
        assert(forall|k: int| 0 <= k < s.len() - 1 ==> s.drop_last()[k] == s[k]);
        lemma_results_map_index(s.drop_last(), i);
        assert(s[i].arch@ != s.last().arch@);
    }
}

/// The map's domain is exactly the recorded architectures, so a map built
/// from unique architectures and one from the same entries with one entry
/// replaced agree outside the replaced key.
pub proof fn lemma_results_map_update(s: Seq<BuildResult>, i: int, r: BuildResult)
    requires
        archs_unique(s),
        0 <= i < s.len(),
        r.arch@ == s[i].arch@,
    ensures
        archs_unique(s.update(i, r)),
        results_map_of(s.update(i, r)) == results_map_of(s).insert(r.arch@, r@),
    decreases s.len(),
{
    let t = s.update(i, r);
    assert forall|k: int, j: int| 0 <= k < j < t.len() implies t[k].arch@ != t[j].arch@ by {
        assert(s[k].arch@ != s[j].arch@);
    }
    if i == s.len() - 1 {
        assert(t.drop_last() =~= s.drop_last());
        assert(t.last() == r);
        assert(results_map_of(t) =~= results_map_of(s).insert(r.arch@, r@));
    } else {
        assert(t.drop_last() =~= s.drop_last().update(i, r));
        assert(s.drop_last()[i] == s[i]);
        lemma_results_map_update(s.drop_last(), i, r);
        assert(t.last() == s.last());
        assert(s.last().arch@ != r.arch@);
        assert(results_map_of(t) =~= results_map_of(s).insert(r.arch@, r@));
    }
}

/// Appending an entry for a fresh architecture records it in the map.
pub proof fn lemma_results_map_push(s: Seq<BuildResult>, r: BuildResult)
    requires
        archs_unique(s),
        forall|i: int| 0 <= i < s.len() ==> #[trigger] s[i].arch@ != r.arch@,
    ensures
        archs_unique(s.push(r)),
        results_map_of(s.push(r)) == results_map_of(s).insert(r.arch@, r@),
{
    let t = s.push(r);
    assert(t.drop_last() =~= s);
    assert(t.last() == r);
    assert forall|k: int, j: int| 0 <= k < j < t.len() implies t[k].arch@ != t[j].arch@ by {
        if j < t.len() - 1 {
            assert(s[k].arch@ != s[j].arch@);
        } else {
            assert(s[k].arch@ != r.arch@);
        }
    }
}

impl Package {
    /// The invariant a stored package keeps: at most one result per
    /// architecture.
    pub open spec fn wf(self) -> bool {
        archs_unique(self.results@)
    }

    /// The package's results as a map from architecture to outcome.
    pub open spec fn result_map(self) -> Map<Seq<char>, ResultView> {
        results_map_of(self.results@)
    }

    /// A fresh package with no recorded results.
    pub fn new(name: String) -> (r: Package)
        ensures
            r.wf(),
            r.name == name,
            r.result_map() == Map::<Seq<char>, ResultView>::empty(),
    {
        Package { name, results: Vec::new() }
    }

    /// Record `result` under `arch`, replacing any earlier result for the
    /// same architecture and leaving every other architecture untouched:
    /// last write wins, one record per (package, architecture).
    pub fn upsert_result(&mut self, arch: String, success: bool, log: String)
        requires
            old(self).wf(),
        ensures
            final(self).wf(),
            final(self).name == old(self).name,
            final(self).result_map() == old(self).result_map().insert(
                arch@,
                ResultView { success, log: log@ },
            ),
    {
        let n = self.results.len();
        for i in 0..n
            invariant
                n == self.results@.len(),
                self.wf(),
                self.name == old(self).name,
                self.results@ == old(self).results@,
                forall|k: int| 0 <= k < i ==> #[trigger] self.results@[k].arch@ != arch@,
        {
            if self.results[i].arch == arch {
                let r = BuildResult { arch, success, log };
                proof {
                    lemma_results_map_update(self.results@, i as int, r);
                }
                self.results[i] = r;
                return;
            }
        }
        let r = BuildResult { arch, success, log };
        proof {
            lemma_results_map_push(self.results@, r);
        }
        self.results.push(r);
    }

    /// Look up the result recorded under `arch`, if any.
    pub fn get_result(&self, arch: &String) -> (r: Option<&BuildResult>)
        requires
            self.wf(),
        ensures
            match r {
                Some(b) => self.result_map().contains_key(arch@) && b.arch@ == arch@ && b@
                    == self.result_map()[arch@],
                None => !self.result_map().contains_key(arch@),
            },
    {
        proof {
            lemma_results_map_contains(self.results@, arch@);
        }
        let n = self.results.len();
        for i in 0..n
            invariant
                n == self.results@.len(),
                self.wf(),
                forall|k: int| 0 <= k < i ==> #[trigger] self.results@[k].arch@ != arch@,
        {
            if self.results[i].arch == *arch {
                proof {
                    lemma_results_map_index(self.results@, i as int);
                }
                return Some(&self.results[i]);
            }
        }
        None
    }
}

} // verus!
