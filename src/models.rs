//! A dependency generic over the kind of requirement it carries.
use vstd::prelude::*;

use crate::semver::{is_version_text, parse_version, range_admits, satisfies, Constraint};

verus! {

/// A kind of version requirement that can test the text of a version.
pub trait Satisfied {
    /// Whether the text is a version this requirement can test.
    spec fn accepts_spec(&self, version: Seq<char>) -> bool;

    /// Whether the version meets the requirement.
    spec fn satisfied_spec(&self, version: Seq<char>) -> bool;

    /// Provides a unified way to check that a given flavour of version
    /// requirement is satisfied by the string representation of a given
    /// version.
    fn is_satisfied_by(&self, version: &str) -> (r: bool)
        requires
            self.accepts_spec(version@),
        ensures
            r == self.satisfied_spec(version@),
    ;
}

impl Satisfied for Constraint {
    open spec fn accepts_spec(&self, version: Seq<char>) -> bool {
        is_version_text(version)
    }

    open spec fn satisfied_spec(&self, version: Seq<char>) -> bool {
        range_admits(self@, version)
    }

    fn is_satisfied_by(&self, version: &str) -> (r: bool) {
        match parse_version(version) {
            Ok(parsed) => satisfies(self, &parsed),
            Err(_) => false,
        }
    }
}

/// A named dependency with a requirement of kind `T`.
pub struct Dependency<T: Satisfied> {
    name: String,
    version: T,
}

/// The regular and the development dependencies of one project.
pub struct DependencyHolder<T: Satisfied> {
    dependencies: Vec<Dependency<T>>,
    dev_dependencies: Vec<Dependency<T>>,
}

impl<T: Satisfied> Dependency<T> {
    pub closed spec fn name_spec(&self) -> Seq<char> {
        self.name@
    }

    pub closed spec fn version_spec(&self) -> T {
        self.version
    }

    pub fn create(name: &str, version: T) -> (r: Self)
        ensures
            r.name_spec() == name@,
            r.version_spec() == version,
    {
        Dependency { name: String::from_str(name), version }
    }

    pub fn get_name(&self) -> (r: &str)
        ensures
            r@ == self.name_spec(),
    {
        self.name.as_str()
    }

    pub fn get_version(&self) -> (r: &T)
        ensures
            *r == self.version_spec(),
    {
        &self.version
    }
}

impl<T: Satisfied> Satisfied for Dependency<T> {
    open spec fn accepts_spec(&self, version: Seq<char>) -> bool {
        self.version_spec().accepts_spec(version)
    }

    open spec fn satisfied_spec(&self, version: Seq<char>) -> bool {
        self.version_spec().satisfied_spec(version)
    }

    fn is_satisfied_by(&self, version: &str) -> (r: bool) {
        self.version.is_satisfied_by(version)
    }
}

impl<T: Satisfied> DependencyHolder<T> {
    pub closed spec fn dependencies_spec(&self) -> Seq<Dependency<T>> {
        self.dependencies@
    }

    pub closed spec fn dev_dependencies_spec(&self) -> Seq<Dependency<T>> {
        self.dev_dependencies@
    }

    pub fn new(dependencies: Vec<Dependency<T>>, dev_dependencies: Vec<Dependency<T>>) -> (r: Self)
        ensures
            r.dependencies_spec() == dependencies@,
            r.dev_dependencies_spec() == dev_dependencies@,
    {
        DependencyHolder { dependencies, dev_dependencies }
    }

    /// Exposes a way to borrow a slice for dependencies.
    pub fn dependencies(&self) -> (r: &[Dependency<T>])
        ensures
            r@ == self.dependencies_spec(),
    {
        self.dependencies.as_slice()
    }

    /// Exposes a way to borrow a slice for dev dependencies.
    pub fn dev_dependencies(&self) -> (r: &[Dependency<T>])
        ensures
            r@ == self.dev_dependencies_spec(),
    {
        self.dev_dependencies.as_slice()
    }
}

} // verus!
