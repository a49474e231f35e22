//! Dependencies of npm packages, as a `package.json` declares them.
use vstd::prelude::*;

use crate::error::CheckError;
use crate::report::{CheckOutcome, VersionMismatch};
use crate::semver::{
    is_constraint_text, is_version_text, parse_constraint, parse_version, range_admits, satisfies,
    Constraint,
};
use crate::{Dependency, ProjectDependencies};

verus! {

/// A dependency on an npm package.
pub struct NpmDependency {
    version: Constraint,
    name: String,
    api_url: String,
}

/// The dependencies declared by a `package.json`.
pub type PackageJson = ProjectDependencies<NpmDependency>;

/// The part of the registry's answer that the check reads.
pub struct PackageData {
    pub version: String,
}

/// The two dependency tables of a `package.json`, as name and constraint
/// pairs.
pub struct PackageJsonRaw {
    pub dependencies: Vec<(String, String)>,
    pub dev_dependencies: Vec<(String, String)>,
}

/// The registry address that reports the latest version of a package.
pub open spec fn npm_url(name: Seq<char>) -> Seq<char> {
    "https://registry.npmjs.org/"@ + name + "/latest"@
}

/// The entries whose constraint can be read, in order.
pub open spec fn readable_entries(map: Seq<(String, String)>) -> Seq<(String, String)>
    decreases map.len(),
{
    if map.len() == 0 {
        Seq::empty()
    } else {
        let rest = readable_entries(map.drop_last());
        if is_constraint_text(map.last().1@) {
            rest.push(map.last())
        } else {
            rest
        }
    }
}

impl NpmDependency {
    /// Creates a dependency from a name and a constraint text that is
    /// known to be valid.
    pub fn new(name: &str, version: &str) -> (r: Self)
        requires
            is_constraint_text(version@),
        ensures
            r.name_spec() == name@,
            r.constraint_spec() == version@,
            r.url_spec() == npm_url(name@),
    {
        let r = NpmDependency::try_new(name, version);
        r.unwrap()
    }

    /// Creates a dependency, or `None` when the constraint text cannot be
    /// read.
    pub fn try_new(name: &str, version: &str) -> (r: Option<Self>)
        ensures
            r is Some <==> is_constraint_text(version@),
            r matches Some(d) ==> d.name_spec() == name@ && d.constraint_spec() == version@
                && d.url_spec() == npm_url(name@),
    {
        match parse_constraint(version) {
            Ok(parsed) => {
                let mut api_url = String::from_str("https://registry.npmjs.org/");
                api_url.append(name);
                api_url.append("/latest");
                Some(NpmDependency { name: String::from_str(name), version: parsed, api_url })
            },
            Err(_) => None,
        }
    }

    /// The dependencies of the entries whose constraint can be read, in
    /// order; the others are left out.
    pub fn from_map(map: Vec<(String, String)>) -> (r: Vec<Self>)
        ensures
            r@.len() == readable_entries(map@).len(),
            forall|i: int|
                0 <= i < r@.len() ==> (#[trigger] r@[i]).name_spec() == readable_entries(map@)[i].0@
                    && r@[i].constraint_spec() == readable_entries(map@)[i].1@
                    && r@[i].url_spec() == npm_url(readable_entries(map@)[i].0@),
    {
        let mut deps: Vec<Self> = Vec::new();
        let mut i: usize = 0;
        while i < map.len()
            invariant
                i <= map@.len(),
                deps@.len() == readable_entries(map@.take(i as int)).len(),
                forall|j: int|
                    0 <= j < deps@.len() ==> (#[trigger] deps@[j]).name_spec()
                        == readable_entries(map@.take(i as int))[j].0@ && deps@[j].constraint_spec()
                        == readable_entries(map@.take(i as int))[j].1@ && deps@[j].url_spec()
                        == npm_url(readable_entries(map@.take(i as int))[j].0@),
            decreases map@.len() - i,
        {
            proof {
                assert(map@.take(i as int + 1).drop_last() =~= map@.take(i as int));
            }
            let (name, version) = (&map[i].0, &map[i].1);
            if crate::semver::is_valid_constraint(version.as_str()) {
                deps.push(NpmDependency::new(name.as_str(), version.as_str()));
            }
            i = i + 1;
        }
        assert(map@.take(map@.len() as int) =~= map@);
        deps
    }
}

impl Dependency for NpmDependency {
    closed spec fn name_spec(&self) -> Seq<char> {
        self.name@
    }

    closed spec fn constraint_spec(&self) -> Seq<char> {
        self.version@
    }

    closed spec fn url_spec(&self) -> Seq<char> {
        self.api_url@
    }

    open spec fn is_version_spec(&self, version: Seq<char>) -> bool {
        is_version_text(version)
    }

    open spec fn admits_spec(&self, version: Seq<char>) -> bool {
        range_admits(self.constraint_spec(), version)
    }

    fn get_name(&self) -> (r: &str) {
        self.name.as_str()
    }

    fn api_url(&self) -> (r: &str) {
        self.api_url.as_str()
    }

    fn is_satisfied_by(&self, version: &str) -> (r: bool) {
        match parse_version(version) {
            Ok(parsed) => satisfies(&self.version, &parsed),
            Err(_) => false,
        }
    }

    fn check_version(&self, latest: Result<String, CheckError>) -> (r: CheckOutcome) {
        match latest {
            Err(e) => CheckOutcome::Error(e),
            Ok(version) => {
                if !crate::semver::is_valid_version(version.as_str()) {
                    CheckOutcome::Error(CheckError::VersionParse { version })
                } else if self.is_satisfied_by(version.as_str()) {
                    CheckOutcome::NoMismatch
                } else {
                    CheckOutcome::Mismatch(
                        VersionMismatch {
                            name: self.name.clone(),
                            constraint: String::from_str(self.version.as_str()),
                            version,
                        },
                    )
                }
            },
        }
    }
}

/// The project's dependencies whose constraints can be read, regular and
/// development ones apart.
pub fn from_raw(raw: PackageJsonRaw) -> (r: PackageJson)
    ensures
        r.dependencies_spec().len() == readable_entries(raw.dependencies@).len(),
        r.dev_dependencies_spec().len() == readable_entries(raw.dev_dependencies@).len(),
        forall|i: int|
            0 <= i < r.dependencies_spec().len() ==> (#[trigger] r.dependencies_spec()[i]).name_spec()
                == readable_entries(raw.dependencies@)[i].0@
                && r.dependencies_spec()[i].constraint_spec() == readable_entries(raw.dependencies@)[i].1@
                && r.dependencies_spec()[i].url_spec() == npm_url(readable_entries(raw.dependencies@)[i].0@),
        forall|i: int|
            0 <= i < r.dev_dependencies_spec().len() ==> (#[trigger] r.dev_dependencies_spec()[i]).name_spec()
                == readable_entries(raw.dev_dependencies@)[i].0@
                && r.dev_dependencies_spec()[i].constraint_spec() == readable_entries(raw.dev_dependencies@)[i].1@
                && r.dev_dependencies_spec()[i].url_spec() == npm_url(readable_entries(raw.dev_dependencies@)[i].0@),
{
    PackageJson::new(NpmDependency::from_map(raw.dependencies), NpmDependency::from_map(raw.dev_dependencies))
}

} // verus!
