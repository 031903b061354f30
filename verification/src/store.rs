//! The result store: a durable map from package name to its
//! per-architecture result set.
//!
//! `upsert` atomically ensures the stored package has the given result
//! recorded under the given architecture, creating the package on its
//! first submission; `query` returns the full recorded result set. Both
//! backends the collector can sit on (a document store rewriting whole
//! records, a relational table upserting single rows) must satisfy these
//! contracts; this module is the reference they are held to.

use vstd::prelude::*;
use crate::package::{
    archs_unique, lemma_results_map_contains, results_map_of, BuildResult, Package, ResultView,
};
use vstd::string::StringExecFns;

verus! {

/// The store as contracts speak of it: package name to architecture to
/// recorded outcome.
pub type StoreView = Map<Seq<char>, Map<Seq<char>, ResultView>>;

/// Why a query failed.
#[derive(Debug)]
pub enum StoreError {
    /// No package of the requested name has ever been recorded.
    PackageNotFound,
}

impl StoreError {
    /// A human-readable description, for the transport layer's error body.
    pub fn message(&self) -> (r: String)
        ensures
            r@ == "package not found"@,
    {
        "package not found".to_owned()
    }
}

/// The namespaced key a package's record sits under in the document-store
/// backend.
pub open spec fn spec_store_key(package: Seq<char>) -> Seq<char> {
    "reworkit:"@ + package
}

/// Derive the document-store key `reworkit:{package}`.
pub fn store_key(package: &String) -> (r: String)
    ensures
        r@ == spec_store_key(package@),
{
    let mut r = String::from_str("reworkit:");
    r.append(package.as_str());
    r
}

/// No two packages share a name.
pub open spec fn names_unique(s: Seq<Package>) -> bool {
    forall|i: int, j: int| 0 <= i < j < s.len() ==> s[i].name@ != s[j].name@
}

/// The package sequence read as a map from name to result set.
pub open spec fn packages_map_of(s: Seq<Package>) -> StoreView
    decreases s.len(),
{
    if s.len() == 0 {
        Map::empty()
    } else {
        packages_map_of(s.drop_last()).insert(s.last().name@, s.last().result_map())
    }
}

/// What one submission does to the store: the package's result set gains
/// (or replaces) the entry under `arch`, every other package untouched.
pub open spec fn spec_upsert(
    m: StoreView,
    name: Seq<char>,
    arch: Seq<char>,
    v: ResultView,
) -> StoreView {
    let rs = if m.contains_key(name) {
        m[name]
    } else {
        Map::empty()
    };
    m.insert(name, rs.insert(arch, v))
}

/// A name is in the map exactly when some package carries it.
pub proof fn lemma_packages_map_contains(s: Seq<Package>, n: Seq<char>)
    ensures
        packages_map_of(s).contains_key(n) <==> (exists|i: int|
            0 <= i < s.len() && #[trigger] s[i].name@ == n),
    decreases s.len(),
{
    if s.len() > 0 {
        lemma_packages_map_contains(s.drop_last(), n);
        if s.last().name@ == n {
            assert(s[s.len() - 1].name@ == n);
        } else {
            assert(forall|i: int| 0 <= i < s.len() - 1 ==> s.drop_last()[i] == s[i]);
            if exists|i: int| 0 <= i < s.len() && #[trigger] s[i].name@ == n {
                let i = choose|i: int| 0 <= i < s.len() && #[trigger] s[i].name@ == n;
                assert(i < s.len() - 1);
                assert(s.drop_last()[i].name@ == n);
            }
        }
    }
}

/// With unique names, the map records each package exactly.
pub proof fn lemma_packages_map_index(s: Seq<Package>, i: int)
    requires
        names_unique(s),
        0 <= i < s.len(),
    ensures
        packages_map_of(s).contains_key(s[i].name@),
        packages_map_of(s)[s[i].name@] == s[i].result_map(),
    decreases s.len(),
{
    if i == s.len() - 1 {
        assert(s.last() == s[i]);
    } else {
        assert(forall|k: int| 0 <= k < s.len() - 1 ==> s.drop_last()[k] == s[k]);
        lemma_packages_map_index(s.drop_last(), i);
        assert(s[i].name@ != s.last().name@);
    }
}

/// Replacing one package by another of the same name replaces its entry.
pub proof fn lemma_packages_map_update(s: Seq<Package>, i: int, p: Package)
    requires
        names_unique(s),
        0 <= i < s.len(),
        p.name@ == s[i].name@,
    ensures
        names_unique(s.update(i, p)),
        packages_map_of(s.update(i, p)) == packages_map_of(s).insert(p.name@, p.result_map()),
    decreases s.len(),
{
    let t = s.update(i, p);
    assert forall|k: int, j: int| 0 <= k < j < t.len() implies t[k].name@ != t[j].name@ by {
        assert(s[k].name@ != s[j].name@);
    }
    if i == s.len() - 1 {
        assert(t.drop_last() =~= s.drop_last());
        assert(t.last() == p);
        assert(packages_map_of(t) =~= packages_map_of(s).insert(p.name@, p.result_map()));
    } else {
        assert(t.drop_last() =~= s.drop_last().update(i, p));
        assert(s.drop_last()[i] == s[i]);
        lemma_packages_map_update(s.drop_last(), i, p);
        assert(t.last() == s.last());
        assert(s.last().name@ != p.name@);
        assert(packages_map_of(t) =~= packages_map_of(s).insert(p.name@, p.result_map()));
    }
}

/// Appending a package of a fresh name records it in the map.
pub proof fn lemma_packages_map_push(s: Seq<Package>, p: Package)
    requires
        names_unique(s),
        forall|i: int| 0 <= i < s.len() ==> #[trigger] s[i].name@ != p.name@,
    ensures
        names_unique(s.push(p)),
        packages_map_of(s.push(p)) == packages_map_of(s).insert(p.name@, p.result_map()),
{
    let t = s.push(p);
    assert(t.drop_last() =~= s);
    assert(t.last() == p);
    assert forall|k: int, j: int| 0 <= k < j < t.len() implies t[k].name@ != t[j].name@ by {
        if j < t.len() - 1 {
            assert(s[k].name@ != s[j].name@);
        } else {
            assert(s[k].name@ != p.name@);
        }
    }
}

/// The in-memory reference store: one package per name, one result per
/// architecture within each package.
pub struct ResultStore {
    packages: Vec<Package>,
}

impl View for ResultStore {
    type V = StoreView;

    closed spec fn view(&self) -> StoreView {
        packages_map_of(self.packages@)
    }
}

impl ResultStore {
    /// The invariant the store keeps: unique names, each package well
    /// formed.
    pub closed spec fn wf(self) -> bool {
        &&& names_unique(self.packages@)
        &&& forall|i: int| 0 <= i < self.packages@.len() ==> (#[trigger] self.packages@[i]).wf()
    }

    /// An empty store.
    pub fn new() -> (r: ResultStore)
        ensures
            r.wf(),
            r@ == StoreView::empty(),
    {
        ResultStore { packages: Vec::new() }
    }

    /// Record `(success, log)` under `(name, arch)`, creating the package
    /// on its first submission and otherwise replacing exactly that
    /// architecture's entry: the authoritative upsert both backends must
    /// implement.
    pub fn upsert(&mut self, name: String, arch: String, success: bool, log: String)
        requires
            old(self).wf(),
        ensures
            final(self).wf(),
            final(self)@ == spec_upsert(old(self)@, name@, arch@, ResultView { success, log: log@ }),
    {
        let n = self.packages.len();
        for i in 0..n
            invariant
                n == self.packages@.len(),
                self.wf(),
                self.packages@ == old(self).packages@,
                forall|k: int| 0 <= k < i ==> #[trigger] self.packages@[k].name@ != name@,
        {
            if self.packages[i].name == name {
                let ghost prev = self.packages@;
                proof {
                    lemma_packages_map_index(prev, i as int);
                }
                self.packages[i].upsert_result(arch, success, log);
                proof {
                    lemma_packages_map_update(prev, i as int, self.packages@[i as int]);
                }
                return;
            }
        }
        proof {
            lemma_packages_map_contains(self.packages@, name@);
        }
        let mut p = Package::new(name);
        p.upsert_result(arch, success, log);
        proof {
            lemma_packages_map_push(self.packages@, p);
        }
        self.packages.push(p);
    }

    /// Load the stored package of the given name, if any.
    pub fn get(&self, name: &String) -> (r: Option<&Package>)
        requires
            self.wf(),
        ensures
            match r {
                Some(p) => self@.contains_key(name@) && p.name@ == name@ && p.wf()
                    && p.result_map() == self@[name@],
                None => !self@.contains_key(name@),
            },
    {
        proof {
            lemma_packages_map_contains(self.packages@, name@);
        }
        let n = self.packages.len();
        for i in 0..n
            invariant
                n == self.packages@.len(),
                self.wf(),
                forall|k: int| 0 <= k < i ==> #[trigger] self.packages@[k].name@ != name@,
        {
            if self.packages[i].name == *name {
                proof {
                    lemma_packages_map_index(self.packages@, i as int);
                }
                return Some(&self.packages[i]);
            }
        }
        None
    }

    /// The full recorded result set for a package, one entry per
    /// architecture. A name the store has never seen is an error, kept
    /// distinct from every other failure so the transport layer can tell
    /// them apart.
    pub fn query(&self, name: &String) -> (r: Result<Vec<BuildResult>, StoreError>)
        requires
            self.wf(),
        ensures
            match r {
                Ok(rs) => self@.contains_key(name@) && archs_unique(rs@) && results_map_of(rs@)
                    == self@[name@],
                Err(e) => !self@.contains_key(name@) && e == StoreError::PackageNotFound,
            },
    {
        match self.get(name) {
            None => Err(StoreError::PackageNotFound),
            Some(p) => {
                let m = p.results.len();
                let mut out: Vec<BuildResult> = Vec::new();
                for i in 0..m
                    invariant
                        m == p.results@.len(),
                        p.wf(),
                        out@ == p.results@.subrange(0, i as int),
                {
                    let b = &p.results[i];
                    out.push(BuildResult {
                        arch: b.arch.clone(),
                        success: b.success,
                        log: b.log.clone(),
                    });
                    assert(out@.drop_last() == p.results@.subrange(0, i as int));
                    assert(out@ =~= p.results@.subrange(0, i + 1));
                }
                assert(out@ =~= p.results@);
                Ok(out)
            },
        }
    }
}

/// Last write wins: of two submissions for the same (package,
/// architecture) pair, the later fully replaces the earlier, whatever the
/// earlier recorded.
pub proof fn lemma_upsert_last_write_wins(
    m: StoreView,
    name: Seq<char>,
    arch: Seq<char>,
    v1: ResultView,
    v2: ResultView,
)
    ensures
        spec_upsert(spec_upsert(m, name, arch, v1), name, arch, v2) == spec_upsert(
            m,
            name,
            arch,
            v2,
        ),
{
    assert(spec_upsert(spec_upsert(m, name, arch, v1), name, arch, v2) =~~= spec_upsert(
        m,
        name,
        arch,
        v2,
    ));
}

/// A submission merges into the stored view: it pins exactly its own
/// (package, architecture) entry, keeps the package's every other
/// recorded architecture, and keeps every other package whole.
pub proof fn lemma_upsert_merges(m: StoreView, name: Seq<char>, arch: Seq<char>, v: ResultView)
    ensures
        spec_upsert(m, name, arch, v).contains_key(name),
        spec_upsert(m, name, arch, v)[name].contains_key(arch),
        spec_upsert(m, name, arch, v)[name][arch] == v,
        forall|b: Seq<char>|
            b != arch && m.contains_key(name) && m[name].contains_key(b)
                ==> #[trigger] spec_upsert(m, name, arch, v)[name].contains_key(b) && spec_upsert(
                m,
                name,
                arch,
                v,
            )[name][b] == m[name][b],
        forall|n2: Seq<char>|
            n2 != name && m.contains_key(n2) ==> #[trigger] spec_upsert(
                m,
                name,
                arch,
                v,
            ).contains_key(n2) && spec_upsert(m, name, arch, v)[n2] == m[n2],
{
}

} // verus!
