//! The table of external dependencies a session may reference, with optional
//! explicit artifact locations overriding standard dependency resolution.
//!
//! Declaring is idempotent: redeclaring a name with the same or no path is a
//! no-op, while redeclaring with a conflicting explicit path is a
//! configuration error reported immediately and leaves the table unchanged.

use vstd::prelude::*;

verus! {

/// The image of an optional owned string.
pub open spec fn opt_view(p: Option<String>) -> Option<Seq<char>> {
    match p {
        Option::Some(s) => Option::Some(s@),
        Option::None => Option::None,
    }
}

/// One external dependency: its name, and an explicit artifact location if
/// standard resolution is to be bypassed (as tests and vendored crates do).
pub struct Dependency {
    /// The dependency (crate) name.
    pub name: String,
    /// Explicit artifact location; `None` means standard resolution.
    pub path: Option<String>,
}

/// Mathematical image of a [`Dependency`].
pub ghost struct DependencyV {
    pub name: Seq<char>,
    pub path: Option<Seq<char>>,
}

impl View for Dependency {
    type V = DependencyV;

    open spec fn view(&self) -> DependencyV {
        DependencyV { name: self.name@, path: opt_view(self.path) }
    }
}

/// Error raised when a dependency name is redeclared with a conflicting
/// explicit path.
pub struct ConfigError {
    /// The name whose declarations conflicted.
    pub dependency: String,
}

/// Whether some dependency of `deps` bears `name`.
pub open spec fn has_dep(deps: Seq<DependencyV>, name: Seq<char>) -> bool {
    exists|i: int| 0 <= i < deps.len() && deps[i].name == name
}

/// The stored path of the dependency bearing `name` (meaningful only when
/// `has_dep` holds and names are unique).
pub open spec fn dep_path(deps: Seq<DependencyV>, name: Seq<char>) -> Option<Seq<char>> {
    deps[choose|i: int| 0 <= i < deps.len() && deps[i].name == name].path
}

/// No two dependencies of `deps` share a name.
pub open spec fn names_unique(deps: Seq<DependencyV>) -> bool {
    forall|i: int, j: int| 0 <= i < j < deps.len() ==> deps[i].name != deps[j].name
}

/// The table and success flag that one `declare(name, path)` call leaves
/// behind: a fresh name is appended; an existing name with the same or no
/// path is left alone; an existing name with a different explicit path is a
/// conflict, which changes nothing and fails.
pub open spec fn declare_result(
    deps: Seq<DependencyV>,
    name: Seq<char>,
    path: Option<Seq<char>>,
) -> (Seq<DependencyV>, bool) {
    if !has_dep(deps, name) {
        (deps.push(DependencyV { name, path }), true)
    } else if path is None || path == dep_path(deps, name) {
        (deps, true)
    } else {
        (deps, false)
    }
}

/// The table left behind by declaring every name of `crates` in order,
/// without an explicit path. Such declarations never conflict: a fresh name
/// is appended, a known one is left alone.
pub open spec fn merge_crates(deps: Seq<DependencyV>, crates: Seq<Seq<char>>) -> Seq<DependencyV>
    decreases crates.len(),
{
    if crates.len() == 0 {
        deps
    } else {
        declare_result(merge_crates(deps, crates.drop_last()), crates.last(), Option::None).0
    }
}

/// The mapping from dependency name to optional explicit artifact path,
/// consumed read-only by the project constructor.
pub struct LinkingConfiguration {
    deps: Vec<Dependency>,
}

impl View for LinkingConfiguration {
    type V = Seq<DependencyV>;

    closed spec fn view(&self) -> Seq<DependencyV> {
        self.deps@.map_values(|d: Dependency| d@)
    }
}

impl LinkingConfiguration {
    /// All declared names are distinct.
    pub open spec fn wf(&self) -> bool {
        names_unique(self@)
    }

    /// An empty table.
    pub fn new() -> (r: LinkingConfiguration)
        ensures
            r@ == Seq::<DependencyV>::empty(),
            r.wf(),
    {
        let r = LinkingConfiguration { deps: Vec::new() };
        proof {
            assert(r@ =~= Seq::<DependencyV>::empty());
        }
        r
    }

    /// The declared dependencies, in declaration order.
    pub fn dependencies(&self) -> (r: &Vec<Dependency>)
        ensures
            r@.map_values(|d: Dependency| d@) == self@,
    {
        &self.deps
    }

    /// Index of the dependency bearing `name`, if any.
    fn position_of(&self, name: &String) -> (r: Option<usize>)
        ensures
            match r {
                Option::Some(i) => i < self@.len() && self@[i as int].name == name@,
                Option::None => !has_dep(self@, name@),
            },
    {
        let mut i: usize = 0;
        while i < self.deps.len()
            invariant
                i <= self.deps.len(),
                forall|k: int| 0 <= k < i ==> self@[k].name != name@,
            decreases self.deps.len() - i,
        {
            if self.deps[i].name.eq(name) {
                assert(self@[i as int].name == name@);
                return Option::Some(i);
            }
            i += 1;
        }
        Option::None
    }

    /// Declare `name`, optionally with an explicit artifact path.
    ///
    /// Succeeds and appends when the name is new; succeeds and changes
    /// nothing when the name is already declared with the same path or when
    /// no path is given; fails and changes nothing when the paths conflict.
    pub fn declare(&mut self, name: String, path: Option<String>) -> (r: Result<(), ConfigError>)
        requires
            old(self).wf(),
        ensures
            final(self).wf(),
            final(self)@ == declare_result(old(self)@, name@, opt_view(path)).0,
            (r is Ok) == declare_result(old(self)@, name@, opt_view(path)).1,
            (r matches Result::Err(e) ==> e.dependency@ == name@),
    {
        match self.position_of(&name) {
            Option::None => {
                let ghost old_view = self@;
                let dep = Dependency { name, path };
                let ghost dv = dep@;
                self.deps.push(dep);
                proof {
                    assert(self@ =~= old_view.push(dv));
                    assert forall|i: int, j: int| 0 <= i < j < self@.len() implies
                        self@[i].name != self@[j].name
                    by {
                        if j < old_view.len() {
                            assert(old_view[i].name != old_view[j].name);
                        } else {
                            assert(!has_dep(old_view, dv.name));
                            assert(self@[i] == old_view[i]);
                        }
                    };
                }
                Result::Ok(())
            },
            Option::Some(i) => {
                proof {
                    let j = choose|j: int| 0 <= j < self@.len() && self@[j].name == name@;
                    assert(self@[j].name == name@);
                    assert(j == i as int);
                    assert(dep_path(self@, name@) == self@[i as int].path);
                }
                let same = match (&path, &self.deps[i].path) {
                    (Option::None, _) => true,
                    (Option::Some(p), Option::Some(q)) => p.eq(q),
                    (Option::Some(_), Option::None) => false,
                };
                if same {
                    Result::Ok(())
                } else {
                    Result::Err(ConfigError { dependency: name })
                }
            },
        }
    }

    /// The table extended by the crate names a fragment declares, none with
    /// an explicit path, leaving `self` untouched.
    pub fn extended(&self, crates: &Vec<String>) -> (r: LinkingConfiguration)
        requires
            self.wf(),
        ensures
            r.wf(),
            r@ == merge_crates(self@, crates@.map_values(|s: String| s@)),
    {
        let ghost names = crates@.map_values(|s: String| s@);
        let mut deps: Vec<Dependency> = Vec::new();
        let mut i: usize = 0;
        while i < self.deps.len()
            invariant
                i <= self.deps.len(),
                deps@.len() == i,
                forall|k: int| 0 <= k < i ==> deps@[k] == self.deps@[k],
            decreases self.deps.len() - i,
        {
            let d = &self.deps[i];
            let path = match &d.path {
                Option::Some(p) => Option::Some(p.clone()),
                Option::None => Option::None,
            };
            let copy = Dependency { name: d.name.clone(), path };
            proof {
                assert(copy == self.deps@[i as int]);
            }
            deps.push(copy);
            i += 1;
        }
        proof {
            assert(deps@ =~= self.deps@);
        }
        let mut r = LinkingConfiguration { deps };
        proof {
            assert(r@ == self@);
            assert(merge_crates(self@, names.take(0)) == self@);
        }
        let mut i: usize = 0;
        while i < crates.len()
            invariant
                i <= crates.len(),
                names == crates@.map_values(|s: String| s@),
                r.wf(),
                r@ == merge_crates(self@, names.take(i as int)),
            decreases crates.len() - i,
        {
            let ghost prefix = names.take(i as int + 1);
            proof {
                assert(prefix.drop_last() =~= names.take(i as int));
                assert(prefix.last() == names[i as int]);
            }
            let outcome = r.declare(crates[i].clone(), Option::None);
            proof {
                assert(outcome is Ok);
            }
            i += 1;
        }
        proof {
            assert(names.take(crates.len() as int) =~= names);
        }
        r
    }
}

/// Declaring a dependency is idempotent: whatever one `declare(name, path)`
/// call left behind, an identical second call succeeds exactly when the
/// first did and leaves the table unchanged.
pub proof fn lemma_declare_idempotent(
    deps: Seq<DependencyV>,
    name: Seq<char>,
    path: Option<Seq<char>>,
)
    requires
        names_unique(deps),
    ensures
        declare_result(declare_result(deps, name, path).0, name, path)
            == (declare_result(deps, name, path).0, declare_result(deps, name, path).1),
{
    let (d1, ok1) = declare_result(deps, name, path);
    if !has_dep(deps, name) {
        assert(d1 == deps.push(DependencyV { name, path }));
        assert(d1[deps.len() as int].name == name);
        assert(has_dep(d1, name));
        assert(dep_path(d1, name) == path) by {
            let j = choose|j: int| 0 <= j < d1.len() && d1[j].name == name;
            if j < deps.len() {
                assert(deps[j].name == name);
                assert(has_dep(deps, name));
            }
            assert(d1[j] == (DependencyV { name, path }));
        };
        assert(declare_result(d1, name, path) == (d1, true));
    }
}

/// Declaring a name that is already bound to a different explicit path fails
/// and does not alter the stored mapping.
pub proof fn lemma_declare_conflict(
    deps: Seq<DependencyV>,
    name: Seq<char>,
    stored: Seq<char>,
    offered: Seq<char>,
)
    requires
        has_dep(deps, name),
        dep_path(deps, name) == Option::Some(stored),
        offered != stored,
    ensures
        declare_result(deps, name, Option::Some(offered)).0 == deps,
        !declare_result(deps, name, Option::Some(offered)).1,
        dep_path(declare_result(deps, name, Option::Some(offered)).0, name)
            == Option::Some(stored),
{
}

} // verus!
