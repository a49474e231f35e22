//! Partitioning per-dependency outcomes into mismatches and errors, and
//! building the report of one run.
use vstd::prelude::*;

use crate::error::CheckError;

verus! {

/// A dependency whose constraint the latest published version violates.
#[derive(Clone, Debug)]
pub struct VersionMismatch {
    pub name: String,
    pub constraint: String,
    pub version: String,
}

/// The result of checking one dependency.
#[derive(Clone, Debug)]
pub enum CheckOutcome {
    NoMismatch,
    Mismatch(VersionMismatch),
    Error(CheckError),
}

/// The mismatches of one run; `dev_dependencies` is `None` when the
/// development dependencies were not checked.
#[derive(Clone, Debug)]
pub struct Mismatches {
    pub dependencies: Vec<VersionMismatch>,
    pub dev_dependencies: Option<Vec<VersionMismatch>>,
}

/// The errors of one run, together with their messages joined by newlines.
pub struct DependencyCheckErrors {
    errors: Vec<CheckError>,
    msg: String,
}

impl VersionMismatch {
    pub fn new(name: &str, constraint: &str, version: &str) -> (r: VersionMismatch)
        ensures
            r.name@ == name@,
            r.constraint@ == constraint@,
            r.version@ == version@,
    {
        VersionMismatch {
            name: String::from_str(name),
            constraint: String::from_str(constraint),
            version: String::from_str(version),
        }
    }

    /// The name, the constraint and the version, in that order.
    pub fn destruct(&self) -> (r: (&str, &str, &str))
        ensures
            r.0@ == self.name@,
            r.1@ == self.constraint@,
            r.2@ == self.version@,
    {
        (self.name.as_str(), self.constraint.as_str(), self.version.as_str())
    }

    pub fn name(&self) -> (r: &str)
        ensures
            r@ == self.name@,
    {
        self.name.as_str()
    }
}

/// The mismatches among `outcomes`, in order.
pub open spec fn mismatches_of(outcomes: Seq<CheckOutcome>) -> Seq<VersionMismatch>
    decreases outcomes.len(),
{
    if outcomes.len() == 0 {
        Seq::empty()
    } else {
        let rest = mismatches_of(outcomes.drop_last());
        match outcomes.last() {
            CheckOutcome::Mismatch(m) => rest.push(m),
            _ => rest,
        }
    }
}

/// The errors among `outcomes`, in order.
pub open spec fn errors_of(outcomes: Seq<CheckOutcome>) -> Seq<CheckError>
    decreases outcomes.len(),
{
    if outcomes.len() == 0 {
        Seq::empty()
    } else {
        let rest = errors_of(outcomes.drop_last());
        match outcomes.last() {
            CheckOutcome::Error(e) => rest.push(e),
            _ => rest,
        }
    }
}

/// The lines joined with a newline between each two.
pub open spec fn join_lines(lines: Seq<Seq<char>>) -> Seq<char>
    decreases lines.len(),
{
    if lines.len() == 0 {
        Seq::empty()
    } else if lines.len() == 1 {
        lines[0]
    } else {
        join_lines(lines.drop_last()) + seq!['\n'] + lines.last()
    }
}

/// The messages of `errors`, joined by newlines.
pub open spec fn messages_of(errors: Seq<CheckError>) -> Seq<char> {
    join_lines(errors.map_values(|e: CheckError| e.message_spec()))
}

impl Mismatches {
    /// All mismatches: the regular ones, then the development ones.
    pub open spec fn all_spec(&self) -> Seq<VersionMismatch> {
        match self.dev_dependencies {
            Some(dev) => self.dependencies@ + dev@,
            None => self.dependencies@,
        }
    }

    pub fn concat(self) -> (r: Vec<VersionMismatch>)
        ensures
            r@ == self.all_spec(),
    {
        let mut all = self.dependencies;
        match self.dev_dependencies {
            Some(dev) => {
                let mut dev = dev;
                all.append(&mut dev);
            },
            None => {},
        }
        all
    }
}

impl DependencyCheckErrors {
    pub closed spec fn errors_spec(&self) -> Seq<CheckError> {
        self.errors@
    }

    /// The message is always the errors' messages joined by newlines.
    pub closed spec fn wf(&self) -> bool {
        self.msg@ == messages_of(self.errors@)
    }

    pub fn new(err: Vec<CheckError>) -> (r: DependencyCheckErrors)
        ensures
            r.wf(),
            r.errors_spec() == err@,
    {
        let mut msg = String::new();
        let mut i: usize = 0;
        while i < err.len()
            invariant
                i <= err@.len(),
                msg@ == messages_of(err@.take(i as int)),
            decreases err@.len() - i,
        {
            let line = err[i].message();
            if i > 0 {
                msg.append("\n");
            }
            msg.append(line.as_str());
            proof {
                let lines = err@.take(i as int + 1).map_values(|e: CheckError| e.message_spec());
                assert(lines.drop_last() =~= err@.take(i as int).map_values(|e: CheckError| e.message_spec()));
                reveal_strlit("\n");
            }
            i = i + 1;
        }
        assert(err@.take(err@.len() as int) =~= err@);
        DependencyCheckErrors { errors: err, msg }
    }

    /// Appends the errors of `err` after those of `self`; the message
    /// follows.
    pub fn join(&mut self, err: DependencyCheckErrors)
        requires
            old(self).wf(),
        ensures
            final(self).wf(),
            final(self).errors_spec() == old(self).errors_spec() + err.errors_spec(),
    {
        let mut all = Vec::new();
        all.append(&mut self.errors);
        let mut rest = err.errors;
        all.append(&mut rest);
        *self = DependencyCheckErrors::new(all);
    }

    /// The errors' messages joined by newlines.
    pub fn message(&self) -> (r: &str)
        requires
            self.wf(),
        ensures
            r@ == messages_of(self.errors_spec()),
    {
        self.msg.as_str()
    }

    pub fn errors(&self) -> (r: &Vec<CheckError>)
        ensures
            r@ == self.errors_spec(),
    {
        &self.errors
    }

    /// Whether there are no errors, that is whether the run succeeded.
    pub fn is_empty(&self) -> (r: bool)
        ensures
            r == (self.errors_spec().len() == 0),
    {
        self.errors.len() == 0
    }
}

impl Default for DependencyCheckErrors {
    fn default() -> (r: DependencyCheckErrors)
        ensures
            r.wf(),
            r.errors_spec() == Seq::<CheckError>::empty(),
    {
        DependencyCheckErrors::new(Vec::new())
    }
}

/// Splits outcomes into mismatches and errors, each in input order; the
/// outcomes without a mismatch are dropped.
pub fn handle_dependency_result(results: Vec<CheckOutcome>) -> (r: (
    Vec<VersionMismatch>,
    DependencyCheckErrors,
))
    ensures
        r.0@ == mismatches_of(results@),
        r.1.wf(),
        r.1.errors_spec() == errors_of(results@),
{
    let ghost all = results@;
    let mut results = results;
    let mut mismatches: Vec<VersionMismatch> = Vec::new();
    let mut errs: Vec<CheckError> = Vec::new();
    let mut i: usize = 0;
    let n = results.len();
    while i < n
        invariant
            n == all.len(),
            i <= n,
            results@ == all.skip(i as int),
            mismatches@ == mismatches_of(all.take(i as int)),
            errs@ == errors_of(all.take(i as int)),
        decreases n - i,
    {
        let outcome = results.remove(0);
        proof {
            assert(all.take(i as int + 1).drop_last() =~= all.take(i as int));
            assert(all.skip(i as int + 1) =~= all.skip(i as int).remove(0));
        }
        match outcome {
            CheckOutcome::Mismatch(m) => mismatches.push(m),
            CheckOutcome::Error(e) => errs.push(e),
            CheckOutcome::NoMismatch => {},
        }
        i = i + 1;
    }
    assert(all.take(n as int) =~= all);
    (mismatches, DependencyCheckErrors::new(errs))
}

} // verus!

verus! {

/// The report of one run: the mismatches among `results`, those among
/// `dev_results` when the development dependencies were checked, and the
/// errors of both, regular ones first.
pub fn to_mismatches(results: Vec<CheckOutcome>, dev_results: Option<Vec<CheckOutcome>>) -> (r: (
    Mismatches,
    DependencyCheckErrors,
))
    ensures
        r.0.dependencies@ == mismatches_of(results@),
        match dev_results {
            Some(dev) => r.0.dev_dependencies matches Some(m) && m@ == mismatches_of(dev@),
            None => r.0.dev_dependencies is None,
        },
        r.1.wf(),
        r.1.errors_spec() == errors_of(results@) + match dev_results {
            Some(dev) => errors_of(dev@),
            None => Seq::empty(),
        },
{
    let (mismatches, mut err) = handle_dependency_result(results);
    let (dev_mismatches, dev_err) = match dev_results {
        Some(dev) => {
            let (m, e) = handle_dependency_result(dev);
            (Some(m), e)
        },
        None => (None, DependencyCheckErrors::new(Vec::new())),
    };
    err.join(dev_err);
    proof {
        if dev_results is None {
            assert(err.errors_spec() =~= errors_of(results@) + Seq::empty());
        }
    }
    (Mismatches { dependencies: mismatches, dev_dependencies: dev_mismatches }, err)
}

/// A run fails exactly when one of its outcomes is an error, and it
/// reports a mismatch exactly when one of its outcomes is a mismatch.
pub proof fn lemma_run_verdict(outcomes: Seq<CheckOutcome>)
    ensures
        errors_of(outcomes).len() == 0 <==> forall|i: int| 0 <= i < outcomes.len() ==> !(#[trigger] outcomes[i] is Error),
        mismatches_of(outcomes).len() == 0 <==> forall|i: int| 0 <= i < outcomes.len() ==> !(#[trigger] outcomes[i] is Mismatch),
    decreases outcomes.len(),
{
    if outcomes.len() > 0 {
        let rest = outcomes.drop_last();
        lemma_run_verdict(rest);
        assert(forall|i: int| 0 <= i < rest.len() ==> rest[i] == outcomes[i]);
    }
}

} // verus!

verus! {

/// One comma-separated line: name, constraint, version.
pub open spec fn csv_row(m: VersionMismatch) -> Seq<char> {
    m.name@ + ","@ + m.constraint@ + ","@ + m.version@
}

/// The comma-separated line of one mismatch.
pub fn to_csv_row(m: &VersionMismatch) -> (r: String)
    ensures
        r@ == csv_row(*m),
{
    let mut row = m.name.clone();
    row.append(",");
    row.append(m.constraint.as_str());
    row.append(",");
    row.append(m.version.as_str());
    row
}

/// The comma-separated lines of all mismatches, regular ones first.
pub fn csv_rows(mismatches: &Mismatches) -> (r: Vec<String>)
    ensures
        r@.len() == mismatches.all_spec().len(),
        forall|i: int| 0 <= i < r@.len() ==> (#[trigger] r@[i])@ == csv_row(mismatches.all_spec()[i]),
{
    let mut rows: Vec<String> = Vec::new();
    let mut i: usize = 0;
    while i < mismatches.dependencies.len()
        invariant
            i <= mismatches.dependencies@.len(),
            rows@.len() == i,
            forall|j: int| 0 <= j < i ==> (#[trigger] rows@[j])@ == csv_row(mismatches.dependencies@[j]),
        decreases mismatches.dependencies@.len() - i,
    {
        rows.push(to_csv_row(&mismatches.dependencies[i]));
        i = i + 1;
    }
    match &mismatches.dev_dependencies {
        Some(dev) => {
            let n = rows.len();
            let mut k: usize = 0;
            while k < dev.len()
                invariant
                    n == mismatches.dependencies@.len(),
                    k <= dev@.len(),
                    rows@.len() == n + k,
                    forall|j: int| 0 <= j < n ==> (#[trigger] rows@[j])@ == csv_row(mismatches.dependencies@[j]),
                    forall|j: int| 0 <= j < k ==> (#[trigger] rows@[n + j])@ == csv_row(dev@[j]),
                decreases dev@.len() - k,
            {
                rows.push(to_csv_row(&dev[k]));
                k = k + 1;
            }
            proof {
                let all = mismatches.all_spec();
                assert forall|j: int| 0 <= j < rows@.len() implies (#[trigger] rows@[j])@ == csv_row(all[j]) by {
                    if j >= n {
                        assert(rows@[n + (j - n)] == rows@[j]);
                    }
                }
            }
        },
        None => {},
    }
    rows
}

} // verus!
