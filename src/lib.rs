//! Checks declared npm-style version constraints against the latest
//! published version of each dependency, and partitions the outcomes
//! into mismatches and errors.
use vstd::prelude::*;

pub mod error;
pub mod models;
pub mod npm;
pub mod report;
pub mod semver;

pub use error::CheckError;
pub use report::{
    handle_dependency_result, to_mismatches, CheckOutcome, DependencyCheckErrors, Mismatches,
    VersionMismatch,
};

verus! {

/// A dependency with a version constraint, of some package ecosystem.
///
/// Looking up the latest published version is left to the caller, who
/// fetches `api_url` and hands the result to `check_version`.
pub trait Dependency: Sized {
    spec fn name_spec(&self) -> Seq<char>;

    /// The constraint's text as it was declared.
    spec fn constraint_spec(&self) -> Seq<char>;

    /// The address that reports the latest published version.
    spec fn url_spec(&self) -> Seq<char>;

    /// Whether the text is a version of this ecosystem.
    spec fn is_version_spec(&self, version: Seq<char>) -> bool;

    /// Whether the version lies within the constraint.
    spec fn admits_spec(&self, version: Seq<char>) -> bool;

    fn get_name(&self) -> (r: &str)
        ensures
            r@ == self.name_spec(),
    ;

    fn api_url(&self) -> (r: &str)
        ensures
            r@ == self.url_spec(),
    ;

    fn is_satisfied_by(&self, version: &str) -> (r: bool)
        requires
            self.is_version_spec(version@),
        ensures
            r == self.admits_spec(version@),
    ;

    /// Decides the outcome from the result of the version lookup.
    fn check_version(&self, latest: Result<String, CheckError>) -> (r: CheckOutcome)
        ensures
            match latest {
                Err(e) => r == CheckOutcome::Error(e),
                Ok(v) => if !self.is_version_spec(v@) {
                    r matches CheckOutcome::Error(CheckError::VersionParse { version }) && version@ == v@
                } else if self.admits_spec(v@) {
                    r is NoMismatch
                } else {
                    r matches CheckOutcome::Mismatch(m) && m.name@ == self.name_spec() && m.constraint@
                        == self.constraint_spec() && m.version@ == v@
                },
            },
    ;
}

/// `r` is the outcome that `check_version` owes for `d` when the lookup gave `latest`: the
/// lookup's error; a version error when the text is no version; no mismatch
/// when the constraint admits the version; else a mismatch that names the
/// dependency, its constraint and the version.
pub open spec fn checked<D: Dependency>(d: &D, latest: Result<String, CheckError>, r: CheckOutcome) -> bool {
    match latest {
        Err(e) => r == CheckOutcome::Error(e),
        Ok(v) => if !d.is_version_spec(v@) {
            r matches CheckOutcome::Error(CheckError::VersionParse { version }) && version@ == v@
        } else if d.admits_spec(v@) {
            r is NoMismatch
        } else {
            r matches CheckOutcome::Mismatch(m) && m.name@ == d.name_spec() && m.constraint@
                == d.constraint_spec() && m.version@ == v@
        },
    }
}

/// Checks each dependency against the result of its own lookup: outcome
/// `i` belongs to dependency `i`, whatever the other lookups gave.
pub fn check_dependencies<T: Dependency>(dependencies: &[T], latest: Vec<Result<String, CheckError>>) -> (r: Vec<CheckOutcome>)
    requires
        latest@.len() == dependencies@.len(),
    ensures
        r@.len() == dependencies@.len(),
        forall|i: int| 0 <= i < r@.len() ==> checked(&dependencies@[i], latest@[i], #[trigger] r@[i]),
{
    let ghost all = latest@;
    let mut latest = latest;
    let mut results: Vec<CheckOutcome> = Vec::with_capacity(dependencies.len());
    let mut i: usize = 0;
    while i < dependencies.len()
        invariant
            all.len() == dependencies@.len(),
            i <= dependencies@.len(),
            latest@ == all.skip(i as int),
            results@.len() == i,
            forall|j: int| 0 <= j < i ==> checked(&dependencies@[j], all[j], #[trigger] results@[j]),
        decreases dependencies@.len() - i,
    {
        let fetched = latest.remove(0);
        proof {
            assert(all.skip(i as int + 1) =~= all.skip(i as int).remove(0));
        }
        let outcome = dependencies[i].check_version(fetched);
        results.push(outcome);
        i = i + 1;
    }
    results
}

/// The regular and the development dependencies of one project.
pub struct ProjectDependencies<T: Dependency> {
    dependencies: Vec<T>,
    dev_dependencies: Vec<T>,
}

impl<T: Dependency> ProjectDependencies<T> {
    pub closed spec fn dependencies_spec(&self) -> Seq<T> {
        self.dependencies@
    }

    pub closed spec fn dev_dependencies_spec(&self) -> Seq<T> {
        self.dev_dependencies@
    }

    pub fn new(deps: Vec<T>, dev_deps: Vec<T>) -> (r: Self)
        ensures
            r.dependencies_spec() == deps@,
            r.dev_dependencies_spec() == dev_deps@,
    {
        ProjectDependencies { dependencies: deps, dev_dependencies: dev_deps }
    }

    pub fn dependencies(&self) -> (r: &[T])
        ensures
            r@ == self.dependencies_spec(),
    {
        self.dependencies.as_slice()
    }

    pub fn dev_dependencies(&self) -> (r: &[T])
        ensures
            r@ == self.dev_dependencies_spec(),
    {
        self.dev_dependencies.as_slice()
    }

    /// Checks the regular dependencies; `latest[i]` is the lookup result of
    /// dependency `i`.
    pub fn check_dependencies(&self, latest: Vec<Result<String, CheckError>>) -> (r: Vec<CheckOutcome>)
        requires
            latest@.len() == self.dependencies_spec().len(),
        ensures
            r@.len() == self.dependencies_spec().len(),
            forall|i: int| 0 <= i < r@.len() ==> checked(&self.dependencies_spec()[i], latest@[i], #[trigger] r@[i]),
    {
        check_dependencies(self.dependencies.as_slice(), latest)
    }

    /// Checks the development dependencies; `latest[i]` is the lookup
    /// result of development dependency `i`.
    pub fn check_dev_dependencies(&self, latest: Vec<Result<String, CheckError>>) -> (r: Vec<CheckOutcome>)
        requires
            latest@.len() == self.dev_dependencies_spec().len(),
        ensures
            r@.len() == self.dev_dependencies_spec().len(),
            forall|i: int| 0 <= i < r@.len() ==> checked(&self.dev_dependencies_spec()[i], latest@[i], #[trigger] r@[i]),
    {
        check_dependencies(self.dev_dependencies.as_slice(), latest)
    }
}

} // verus!
