//! The course of one rewrite: a single transaction over all statements,
//! then a compaction. The module decides what is to be executed next; the
//! caller executes it and reports how it went.

use crate::columns::{models, ColumnSpec};
use crate::error::{Cause, CauseModel, RewriteFailed};
use crate::plan::{first_unresolved, mismatch, plan, resolves, statements_of, texts};
use crate::schema::{tables, TableSchema};
use vstd::prelude::*;

verus! {

/// How a rewrite ended.
#[derive(Clone, Copy, Debug, PartialEq, Eq, Structural)]
pub enum Ending {
    /// The transaction could not be opened. Nothing was executed.
    Unopened,
    /// A statement or the commit failed, and the transaction was rolled back.
    RolledBack,
    /// Every statement was committed and the database was compacted.
    Committed,
    /// Every statement was committed, but the compaction failed.
    Uncompacted,
}

/// Where a rewrite stands: what its caller is to execute next.
#[derive(Clone, Copy, Debug, PartialEq, Eq, Structural)]
pub enum Step {
    /// Open the transaction.
    Begin,
    /// Execute the statement with this index.
    Apply(usize),
    /// Commit the transaction.
    Commit,
    /// Roll the transaction back.
    Rollback,
    /// Compact the database.
    Compact,
    /// There is nothing left to execute.
    Finished(Ending),
}

/// The state of a rewrite as plain values.
pub struct RewriteModel {
    pub statements: Seq<Seq<char>>,
    pub step: Step,
    pub failure: Option<CauseModel>,
}

/// The step that follows `step` in a rewrite of `count` statements, once
/// the caller has executed it and reports whether it succeeded.
pub open spec fn next_step(count: nat, step: Step, succeeded: bool) -> Step {
    match step {
        Step::Begin => if !succeeded {
            Step::Finished(Ending::Unopened)
        } else if count == 0 {
            Step::Commit
        } else {
            Step::Apply(0)
        },
        Step::Apply(index) => if !succeeded {
            Step::Rollback
        } else if index + 1 < count {
            Step::Apply((index + 1) as usize)
        } else {
            Step::Commit
        },
        Step::Commit => if succeeded {
            Step::Compact
        } else {
            Step::Rollback
        },
        Step::Rollback => Step::Finished(Ending::RolledBack),
        Step::Compact => if succeeded {
            Step::Finished(Ending::Committed)
        } else {
            Step::Finished(Ending::Uncompacted)
        },
        Step::Finished(ending) => Step::Finished(ending),
    }
}

/// A rewrite of `statements` before anything was executed.
pub open spec fn initial(statements: Seq<Seq<char>>) -> RewriteModel {
    RewriteModel { statements, step: Step::Begin, failure: None }
}

/// The state after the caller has executed what `state` was waiting for.
/// `report` is `None` if that succeeded, else the storage engine's message.
/// The first failure of a run is the one it keeps as its cause.
pub open spec fn advance(state: RewriteModel, report: Option<Seq<char>>) -> RewriteModel {
    RewriteModel {
        statements: state.statements,
        step: next_step(state.statements.len(), state.step, report is None),
        failure: if state.failure is Some || state.step is Finished {
            state.failure
        } else {
            match report {
                Some(message) => Some(CauseModel::StorageFailure { message }),
                None => None,
            }
        },
    }
}

/// The statement that the caller is to execute in `state`, if any.
pub open spec fn pending_text(state: RewriteModel) -> Option<Seq<char>> {
    match state.step {
        Step::Begin => Some("BEGIN"@),
        Step::Apply(index) => Some(state.statements[index as int]),
        Step::Commit => Some("COMMIT"@),
        Step::Rollback => Some("ROLLBACK"@),
        Step::Compact => Some("VACUUM"@),
        Step::Finished(_) => None,
    }
}

/// Whether the transaction of a rewrite at `step` has been committed.
pub open spec fn has_committed(step: Step) -> bool {
    step == Step::Compact || step == Step::Finished(Ending::Committed) || step == Step::Finished(
        Ending::Uncompacted,
    )
}

/// What holds of every state that a rewrite can be in: a statement to apply
/// exists, and a cause of failure is held exactly from the first failure on.
pub open spec fn well_formed(state: RewriteModel) -> bool {
    &&& state.step matches Step::Apply(index) ==> index < state.statements.len()
    &&& state.failure is Some <==> (state.step == Step::Rollback || state.step == Step::Finished(
        Ending::Unopened,
    ) || state.step == Step::Finished(Ending::RolledBack) || state.step == Step::Finished(
        Ending::Uncompacted,
    ))
}

/// What a caller's report of an execution says, as plain values.
pub open spec fn report_of(outcome: Result<(), String>) -> Option<Seq<char>> {
    match outcome {
        Ok(_) => None,
        Err(message) => Some(message@),
    }
}

/// One run of a rewrite.
pub struct Rewrite {
    statements: Vec<String>,
    step: Step,
    failure: Option<RewriteFailed>,
}

/// The state that the three parts of a `Rewrite` stand for.
spec fn model_of(statements: Vec<String>, step: Step, failure: Option<RewriteFailed>)
    -> RewriteModel {
    RewriteModel {
        statements: texts(statements@),
        step,
        failure: match failure {
            Some(cause) => Some(cause@),
            None => None,
        },
    }
}

impl View for Rewrite {
    type V = RewriteModel;

    closed spec fn view(&self) -> RewriteModel {
        model_of(self.statements, self.step, self.failure)
    }
}

impl Rewrite {
    #[verifier::type_invariant]
    spec fn inv(self) -> bool {
        well_formed(model_of(self.statements, self.step, self.failure))
    }

    /// A rewrite that will execute `statements` in their order.
    pub fn new(statements: Vec<String>) -> (run: Self)
        ensures
            run@ == initial(texts(statements@)),
    {
        Rewrite { statements, step: Step::Begin, failure: None }
    }

    /// Plans the rewrite that carries out `specs` on a database with the
    /// given schema. A spec that names a table or column which the schema
    /// lacks fails the whole rewrite before anything is executed.
    pub fn prepare(specs: &Vec<ColumnSpec>, schema: &Vec<TableSchema>) -> (outcome: Result<
        Self,
        RewriteFailed,
    >)
        ensures
            match outcome {
                Ok(run) => {
                    &&& forall|i: int|
                        0 <= i < specs.len() ==> resolves(
                            #[trigger] models(specs@)[i],
                            tables(schema@),
                        )
                    &&& run@ == initial(statements_of(models(specs@)))
                },
                Err(failure) => exists|index: int|
                    first_unresolved(models(specs@), tables(schema@), index) && failure@
                        == mismatch(#[trigger] models(specs@)[index], tables(schema@)),
            },
    {
        match plan(specs, schema) {
            Ok(statements) => Ok(Rewrite::new(statements)),
            Err(failure) => Err(failure),
        }
    }

    /// Where the rewrite stands.
    pub fn step(&self) -> (step: Step)
        ensures
            step == self@.step,
            well_formed(self@),
    {
        proof {
            use_type_invariant(self);
        }
        self.step
    }

    /// Whether there is nothing left to execute.
    pub fn is_finished(&self) -> (done: bool)
        ensures
            done == (self@.step is Finished),
    {
        match self.step {
            Step::Finished(_) => true,
            _ => false,
        }
    }

    /// The statement that the caller is to execute now, if any.
    pub fn pending(&self) -> (statement: Option<String>)
        ensures
            match statement {
                Some(text) => pending_text(self@) == Some(text@),
                None => pending_text(self@) is None,
            },
    {
        proof {
            use_type_invariant(self);
        }
        match self.step {
            Step::Begin => Some(String::from_str("BEGIN")),
            Step::Apply(index) => Some(self.statements[index].clone()),
            Step::Commit => Some(String::from_str("COMMIT")),
            Step::Rollback => Some(String::from_str("ROLLBACK")),
            Step::Compact => Some(String::from_str("VACUUM")),
            Step::Finished(_) => None,
        }
    }

    /// Takes the caller's report of how the pending statement went and moves
    /// on: `Ok` if the storage engine executed it, else the engine's message.
    pub fn record(&mut self, outcome: Result<(), String>)
        ensures
            final(self)@ == advance(old(self)@, report_of(outcome)),
    {
        proof {
            use_type_invariant(&*self);
        }
        let mut held = Rewrite::new(Vec::new());
        std::mem::swap(self, &mut held);
        let Rewrite { statements, step, failure } = held;
        let succeeded = outcome.is_ok();
        let next = match step {
            Step::Begin => if !succeeded {
                Step::Finished(Ending::Unopened)
            } else if statements.len() == 0 {
                Step::Commit
            } else {
                Step::Apply(0)
            },
            Step::Apply(index) => {
                assert(index < statements.len());
                if !succeeded {
                    Step::Rollback
                } else if index + 1 < statements.len() {
                    Step::Apply(index + 1)
                } else {
                    Step::Commit
                }
            },
            Step::Commit => if succeeded {
                Step::Compact
            } else {
                Step::Rollback
            },
            Step::Rollback => Step::Finished(Ending::RolledBack),
            Step::Compact => if succeeded {
                Step::Finished(Ending::Committed)
            } else {
                Step::Finished(Ending::Uncompacted)
            },
            Step::Finished(ending) => Step::Finished(ending),
        };
        let finished = match step {
            Step::Finished(_) => true,
            _ => false,
        };
        let kept = if failure.is_some() || finished {
            failure
        } else {
            match outcome {
                Ok(_) => None,
                Err(message) => Some(RewriteFailed::new(Cause::StorageFailure { message })),
            }
        };
        *self = Rewrite { statements, step: next, failure: kept };
    }

    /// The result of the rewrite, once it is finished: success if everything
    /// was committed and compacted, else the first failure. `None` while
    /// there is still something to execute.
    pub fn finish(self) -> (result: Option<Result<(), RewriteFailed>>)
        ensures
            match result {
                None => !(self@.step is Finished),
                Some(Ok(_)) => self@.step == Step::Finished(Ending::Committed),
                Some(Err(failure)) => self@.step is Finished && self@.step != Step::Finished(
                    Ending::Committed,
                ) && self@.failure == Some(failure@),
            },
    {
        proof {
            use_type_invariant(&self);
        }
        match self.step {
            Step::Finished(_) => match self.failure {
                Some(failure) => Some(Err(failure)),
                None => Some(Ok(())),
            },
            _ => None,
        }
    }
}

/// The state that a rewrite reaches from `state` when its caller makes the
/// given reports, one after the other.
pub open spec fn run(state: RewriteModel, reports: Seq<Option<Seq<char>>>) -> RewriteModel
    decreases reports.len(),
{
    if reports.len() == 0 {
        state
    } else {
        advance(run(state, reports.drop_last()), reports.last())
    }
}

/// The step of a rewrite of `count` statements after `done` executions that
/// all succeeded: the opening, then each statement, the commit and the
/// compaction.
pub open spec fn on_course(count: nat, done: nat) -> Step {
    if done == 0 {
        Step::Begin
    } else if done <= count {
        Step::Apply((done - 1) as usize)
    } else if done == count + 1 {
        Step::Commit
    } else if done == count + 2 {
        Step::Compact
    } else {
        Step::Finished(Ending::Committed)
    }
}

/// Whether none of the reports is a failure.
pub open spec fn all_succeeded(reports: Seq<Option<Seq<char>>>) -> bool {
    forall|i: int| 0 <= i < reports.len() ==> (#[trigger] reports[i]) is None
}

/// A rewrite starts well formed.
pub proof fn lemma_initial_is_well_formed(statements: Seq<Seq<char>>)
    ensures
        well_formed(initial(statements)),
{
}

/// Every report leaves a well-formed rewrite well formed.
pub proof fn lemma_well_formed_is_kept(state: RewriteModel, report: Option<Seq<char>>)
    requires
        well_formed(state),
    ensures
        well_formed(advance(state, report)),
{
}

/// A run may be cut in two: the state after all reports is the state that
/// the later reports lead to from where the earlier ones led.
pub proof fn lemma_run_in_two(state: RewriteModel, reports: Seq<Option<Seq<char>>>, cut: int)
    requires
        0 <= cut <= reports.len(),
    ensures
        run(state, reports) == run(run(state, reports.take(cut)), reports.skip(cut)),
    decreases reports.len(),
{
    if cut == reports.len() {
        assert(reports.take(cut) =~= reports);
    } else {
        lemma_run_in_two(state, reports.drop_last(), cut);
        assert(reports.drop_last().take(cut) =~= reports.take(cut));
        assert(reports.drop_last().skip(cut) =~= reports.skip(cut).drop_last());
    }
}

/// While nothing fails, a rewrite of statements that fit the machine's
/// index range goes its course and holds no cause of failure.
pub proof fn lemma_course_of_successes(
    statements: Seq<Seq<char>>,
    reports: Seq<Option<Seq<char>>>,
)
    requires
        statements.len() <= usize::MAX,
        all_succeeded(reports),
    ensures
        run(initial(statements), reports).step == on_course(statements.len(), reports.len()),
        run(initial(statements), reports).failure is None,
        run(initial(statements), reports).statements == statements,
    decreases reports.len(),
{
    if reports.len() > 0 {
        lemma_course_of_successes(statements, reports.drop_last());
    }
}

/// Once a rewrite has failed before its commit went through, no report
/// brings it back: it rolls back and ends, with the cause it had.
pub proof fn lemma_failure_is_final(state: RewriteModel, reports: Seq<Option<Seq<char>>>)
    requires
        state.failure is Some,
        state.step == Step::Rollback || state.step == Step::Finished(Ending::RolledBack)
            || state.step == Step::Finished(Ending::Unopened),
    ensures
        run(state, reports).failure == state.failure,
        !has_committed(run(state, reports).step),
        reports.len() == 0 ==> run(state, reports).step == state.step,
        reports.len() > 0 ==> run(state, reports).step == (if state.step == Step::Finished(
            Ending::Unopened,
        ) {
            Step::Finished(Ending::Unopened)
        } else {
            Step::Finished(Ending::RolledBack)
        }),
    decreases reports.len(),
{
    if reports.len() > 0 {
        lemma_failure_is_final(state, reports.drop_last());
    }
}

/// The commit goes through only if the opening, every statement and the
/// commit itself succeeded.
pub proof fn lemma_commit_needs_every_success(
    statements: Seq<Seq<char>>,
    reports: Seq<Option<Seq<char>>>,
)
    requires
        statements.len() <= usize::MAX,
        has_committed(run(initial(statements), reports).step),
    ensures
        reports.len() >= statements.len() + 2,
        all_succeeded(reports.take(statements.len() as int + 2)),
{
    let count = statements.len() as int;
    let early = if reports.len() < count + 2 {
        reports
    } else {
        reports.take(count + 2)
    };
    if all_succeeded(early) {
        if reports.len() < count + 2 {
            lemma_course_of_successes(statements, reports);
        }
    } else {
        let failed = choose|i: int| 0 <= i < early.len() && !((#[trigger] early[i]) is None);
        lemma_first_failure(early, failed);
        let first = choose|k: int|
            0 <= k <= failed && early[k] is Some && all_succeeded(early.take(k));
        assert(reports.take(first) =~= early.take(first));
        lemma_failure_is_rolled_back(statements, reports, first);
    }
}

/// Before any failure there is a first one.
proof fn lemma_first_failure(reports: Seq<Option<Seq<char>>>, failed: int)
    requires
        0 <= failed < reports.len(),
        reports[failed] is Some,
    ensures
        exists|k: int| 0 <= k <= failed && reports[k] is Some && all_succeeded(reports.take(k)),
    decreases failed,
{
    if !all_succeeded(reports.take(failed)) {
        let earlier = choose|i: int|
            0 <= i < reports.take(failed).len() && !((#[trigger] reports.take(failed)[i]) is None);
        lemma_first_failure(reports, earlier);
    }
}

/// A rewrite that fails partway changes nothing for good. If report number
/// `first` is the first failure, and it concerns the opening, a statement or
/// the commit, then the commit never goes through, whatever is reported
/// afterwards; the step after the failure is the rollback, unless the
/// transaction was never opened; and the run keeps that failure as its
/// cause.
pub proof fn lemma_failure_is_rolled_back(
    statements: Seq<Seq<char>>,
    reports: Seq<Option<Seq<char>>>,
    first: int,
)
    requires
        statements.len() <= usize::MAX,
        0 <= first < reports.len(),
        first <= statements.len() + 1,
        reports[first] is Some,
        all_succeeded(reports.take(first)),
    ensures
        !has_committed(run(initial(statements), reports).step),
        run(initial(statements), reports).failure == Some(
            CauseModel::StorageFailure { message: reports[first]->0 },
        ),
        run(initial(statements), reports.take(first + 1)).step == (if first == 0 {
            Step::Finished(Ending::Unopened)
        } else {
            Step::Rollback
        }),
        reports.len() > first + 1 ==> run(initial(statements), reports).step == (if first == 0 {
            Step::Finished(Ending::Unopened)
        } else {
            Step::Finished(Ending::RolledBack)
        }),
{
    let start = initial(statements);
    let upto = reports.take(first + 1);
    lemma_course_of_successes(statements, reports.take(first));
    assert(upto.drop_last() =~= reports.take(first));
    let failed = run(start, upto);
    lemma_run_in_two(start, reports, first + 1);
    lemma_failure_is_final(failed, reports.skip(first + 1));
}

/// A rewrite in which nothing fails ends committed and compacted, after the
/// opening, every statement, the commit and the compaction.
pub proof fn lemma_success_is_committed(
    statements: Seq<Seq<char>>,
    reports: Seq<Option<Seq<char>>>,
)
    requires
        statements.len() <= usize::MAX,
        all_succeeded(reports),
        reports.len() >= statements.len() + 3,
    ensures
        run(initial(statements), reports).step == Step::Finished(Ending::Committed),
        run(initial(statements), reports).failure is None,
{
    lemma_course_of_successes(statements, reports);
}

} // verus!
