//! The consistency engine: given what each lint's invocation(s) returned,
//! apply the severity policy and compute the aggregate verdict. A
//! single-source lint's query selects violations, so a non-empty result is
//! itself the finding; a comparison lint's finding is the set of rows present
//! on exactly one side. The run fails exactly when an error-severity lint
//! produced a non-empty violation or diff set; warnings are reported but
//! never flip the verdict.

use vstd::prelude::*;
use crate::lint::{LintResult, LintResultModel};
use crate::lint_data::{severity_exactly_one, LintData, LintDataModel};
use crate::rows::{clone_rows, diff_rows, row_diff, Row, RowModel};

verus! {

/// Mathematical model of a [`LintCallResult`].
#[verifier::ext_equal]
pub enum LintCallResultModel {
    Rows(Seq<RowModel>),
    Failed(Seq<char>),
}

/// What one invocation of a plugin's single-lint entrypoint produced: the
/// decoded result rows, or the message of the error that the call or the
/// decoding of its answer raised.
pub enum LintCallResult {
    Rows(Vec<Row>),
    Failed(String),
}

impl DeepView for LintCallResult {
    type V = LintCallResultModel;

    open spec fn deep_view(&self) -> LintCallResultModel {
        match self {
            LintCallResult::Rows(rows) => LintCallResultModel::Rows(rows.deep_view()),
            LintCallResult::Failed(m) => LintCallResultModel::Failed(m@),
        }
    }
}

/// Mathematical model of a [`LintExecution`].
#[verifier::ext_equal]
pub struct LintExecutionModel {
    pub lint: LintDataModel,
    pub main: LintCallResultModel,
    pub compared: Option<LintCallResultModel>,
}

/// One lint together with what its invocations returned: the main side's
/// outcome always, and the secondary side's outcome for a comparison lint.
pub struct LintExecution {
    pub lint: LintData,
    pub main: LintCallResult,
    pub compared: Option<LintCallResult>,
}

impl DeepView for LintExecution {
    type V = LintExecutionModel;

    open spec fn deep_view(&self) -> LintExecutionModel {
        LintExecutionModel {
            lint: self.lint.deep_view(),
            main: self.main.deep_view(),
            compared: self.compared.deep_view(),
        }
    }
}

/// Mathematical model of a [`Finding`].
#[verifier::ext_equal]
pub struct FindingModel {
    pub name: Seq<char>,
    pub output: LintResultModel,
    pub rows: Seq<RowModel>,
}

/// One reported finding: the lint's name, its severity with its message, and
/// the non-empty violation or diff rows it produced.
pub struct Finding {
    pub name: String,
    pub output: LintResult,
    pub rows: Vec<Row>,
}

impl DeepView for Finding {
    type V = FindingModel;

    open spec fn deep_view(&self) -> FindingModel {
        FindingModel {
            name: self.name@,
            output: self.output.deep_view(),
            rows: self.rows.deep_view(),
        }
    }
}

/// Mathematical model of a [`RunReport`].
#[verifier::ext_equal]
pub struct RunReportModel {
    pub passes: bool,
    pub findings: Seq<FindingModel>,
    pub failed_calls: Seq<Seq<char>>,
}

/// The outcome of a whole run: the verdict, every finding in lint order, and
/// the names of single-source lints whose invocation failed.
pub struct RunReport {
    pub passes: bool,
    pub findings: Vec<Finding>,
    pub failed_calls: Vec<String>,
}

impl DeepView for RunReport {
    type V = RunReportModel;

    open spec fn deep_view(&self) -> RunReportModel {
        RunReportModel {
            passes: self.passes,
            findings: self.findings.deep_view(),
            failed_calls: self.failed_calls.deep_view(),
        }
    }
}

/// Whether this execution belongs to a comparison lint.
pub open spec fn is_compared(e: LintExecutionModel) -> bool {
    e.lint.compared_lint is Some
}

/// An execution is well formed when its lint selects exactly one severity
/// and it carries a secondary outcome exactly when the lint is a comparison
/// lint.
pub open spec fn execution_wf(e: LintExecutionModel) -> bool {
    severity_exactly_one(e.lint) && (is_compared(e) <==> e.compared is Some)
}

/// The severity attached to a finding of this lint.
pub open spec fn output_of(d: LintDataModel) -> LintResultModel {
    match d.warning {
        Some(m) => LintResultModel::Warning(m),
        None => LintResultModel::Error(d.error.unwrap()),
    }
}

/// The empty report: a run over no lints passes with nothing to report.
pub open spec fn empty_report() -> RunReportModel {
    RunReportModel { passes: true, findings: Seq::empty(), failed_calls: Seq::empty() }
}

/// Fold one execution into the report accumulated so far.
pub open spec fn run_step(acc: RunReportModel, e: LintExecutionModel) -> Result<
    RunReportModel,
    Seq<char>,
> {
    if is_compared(e) {
        match e.main {
            LintCallResultModel::Failed(m) => Err(m),
            LintCallResultModel::Rows(main_rows) => match e.compared.unwrap() {
                LintCallResultModel::Failed(m) => Err(m),
                LintCallResultModel::Rows(secondary_rows) => {
                    let diff = diff_rows(main_rows, secondary_rows);
                    if diff.len() > 0 {
                        Ok(
                            RunReportModel {
                                passes: acc.passes && !(e.lint.error is Some),
                                findings: acc.findings.push(
                                    FindingModel {
                                        name: e.lint.name,
                                        output: output_of(e.lint),
                                        rows: diff,
                                    },
                                ),
                                failed_calls: acc.failed_calls,
                            },
                        )
                    } else {
                        Ok(acc)
                    }
                },
            },
        }
    } else {
        match e.main {
            LintCallResultModel::Failed(m) => Ok(
                RunReportModel {
                    passes: false,
                    findings: acc.findings,
                    failed_calls: acc.failed_calls.push(e.lint.name),
                },
            ),
            LintCallResultModel::Rows(rows) => {
                if rows.len() > 0 {
                    Ok(
                        RunReportModel {
                            passes: acc.passes && !(e.lint.error is Some),
                            findings: acc.findings.push(
                                FindingModel {
                                    name: e.lint.name,
                                    output: output_of(e.lint),
                                    rows: rows,
                                },
                            ),
                            failed_calls: acc.failed_calls,
                        },
                    )
                } else {
                    Ok(acc)
                }
            },
        }
    }
}

/// The report of a run over the executions in order. A failed invocation of
/// a comparison lint aborts the whole run with that failure's message; a
/// failed invocation of a single-source lint is recorded and fails the
/// verdict without aborting.
pub open spec fn run_spec(execs: Seq<LintExecutionModel>) -> Result<RunReportModel, Seq<char>>
    decreases execs.len(),
{
    if execs.len() == 0 {
        Ok(empty_report())
    } else {
        match run_spec(execs.drop_last()) {
            Err(m) => Err(m),
            Ok(acc) => run_step(acc, execs.last()),
        }
    }
}

/// Whether one lint's outcome flips the verdict to failure: its severity is
/// an error and it produced a non-empty violation or diff set.
pub open spec fn execution_violates(e: LintExecutionModel) -> bool {
    e.lint.error is Some && (if is_compared(e) {
        diff_rows(e.main->Rows_0, e.compared.unwrap()->Rows_0).len() > 0
    } else {
        e.main->Rows_0.len() > 0
    })
}

/// Aggregate verdict law: when every invocation returns rows, the run
/// reaches a verdict, and it passes exactly when no error-severity lint
/// produced a non-empty violation or diff set — warning findings never flip
/// the verdict.
pub proof fn lemma_run_verdict(execs: Seq<LintExecutionModel>)
    requires
        forall|i: int| 0 <= i < execs.len() ==> (#[trigger] execs[i]).main is Rows,
        forall|i: int|
            0 <= i < execs.len() ==> is_compared(#[trigger] execs[i]) ==> execs[i].compared.unwrap()
                is Rows,
        forall|i: int| 0 <= i < execs.len() ==> execution_wf(#[trigger] execs[i]),
    ensures
        run_spec(execs) is Ok,
        run_spec(execs)->Ok_0.passes <==> (forall|i: int|
            0 <= i < execs.len() ==> !execution_violates(#[trigger] execs[i])),
    decreases execs.len(),
{
    if execs.len() > 0 {
        assert(forall|i: int|
            0 <= i < execs.len() - 1 ==> execs.drop_last()[i] == #[trigger] execs[i]);
        lemma_run_verdict(execs.drop_last());
        let acc = run_spec(execs.drop_last())->Ok_0;
        let e = execs.last();
        if acc.passes && !execution_violates(e) {
            assert(run_spec(execs)->Ok_0.passes);
        }
        if run_spec(execs)->Ok_0.passes {
            assert(acc.passes);
            assert(!execution_violates(e));
        }
    }
}

/// Once a step of the run aborts, the whole run aborts with that failure:
/// a well-formed prefix that reaches an aborting step determines the result.
proof fn lemma_run_prefix_err(execs: Seq<LintExecutionModel>, i: int)
    requires
        0 <= i < execs.len(),
        run_spec(execs.take(i)) is Ok,
        run_step(run_spec(execs.take(i))->Ok_0, execs[i]) is Err,
    ensures
        run_spec(execs) == run_step(run_spec(execs.take(i))->Ok_0, execs[i]),
    decreases execs.len(),
{
    if execs.len() == i + 1 {
        assert(execs.drop_last() =~= execs.take(i));
        assert(execs.last() == execs[i]);
    } else {
        assert(execs.drop_last().take(i) =~= execs.take(i));
        assert(execs.drop_last()[i] == execs[i]);
        lemma_run_prefix_err(execs.drop_last(), i);
    }
}

/// Run the engine over what each lint's invocations returned, in merged
/// source order.
pub fn run_lints(executions: &Vec<LintExecution>) -> (r: Result<RunReport, String>)
    requires
        forall|i: int|
            0 <= i < executions.deep_view().len() ==> execution_wf(
                #[trigger] executions.deep_view()[i],
            ),
    ensures
        r matches Ok(report) ==> run_spec(executions.deep_view()) == Ok::<RunReportModel, Seq<char>>(
            report.deep_view(),
        ),
        r matches Err(m) ==> run_spec(executions.deep_view()) == Err::<RunReportModel, Seq<char>>(
            m@,
        ),
{
    let ghost ev = executions.deep_view();
    let mut passes = true;
    let mut findings: Vec<Finding> = Vec::new();
    let mut failed_calls: Vec<String> = Vec::new();
    proof {
        assert(ev.take(0) =~= Seq::<LintExecutionModel>::empty());
        assert(findings.deep_view() =~= Seq::<FindingModel>::empty());
        assert(failed_calls.deep_view() =~= Seq::<Seq<char>>::empty());
        assert(RunReportModel {
            passes: true,
            findings: findings.deep_view(),
            failed_calls: failed_calls.deep_view(),
        } =~= empty_report());
    }
    let mut i: usize = 0;
    #[verifier::loop_isolation(false)]
    while i < executions.len()
        invariant
            i <= executions.len(),
            run_spec(ev.take(i as int)) == Ok::<RunReportModel, Seq<char>>(
                RunReportModel {
                    passes: passes,
                    findings: findings.deep_view(),
                    failed_calls: failed_calls.deep_view(),
                },
            ),
        decreases executions.len() - i,
    {
        let e = &executions[i];
        proof {
            assert(ev[i as int] == executions@[i as int].deep_view());
            assert(execution_wf(ev[i as int]));
            assert(ev.take(i + 1 as int).drop_last() =~= ev.take(i as int));
            assert(ev.take(i + 1 as int).last() == ev[i as int]);
        }
        let ghost acc = RunReportModel {
            passes: passes,
            findings: findings.deep_view(),
            failed_calls: failed_calls.deep_view(),
        };
        if e.lint.compared_lint.is_some() {
            let main_rows = match &e.main {
                LintCallResult::Rows(rows) => rows,
                LintCallResult::Failed(m) => {
                    proof {
                        assert(run_step(acc, ev[i as int]) == Err::<RunReportModel, Seq<char>>(m@));
                        lemma_run_prefix_err(ev, i as int);
                    }
                    return Err(m.clone());
                },
            };
            let secondary_rows = match &e.compared {
                Some(LintCallResult::Rows(rows)) => rows,
                Some(LintCallResult::Failed(m)) => {
                    proof {
                        assert(run_step(acc, ev[i as int]) == Err::<RunReportModel, Seq<char>>(m@));
                        lemma_run_prefix_err(ev, i as int);
                    }
                    return Err(m.clone());
                },
                None => {
                    proof {
                        assert(false);
                    }
                    return Err(String::new());
                },
            };
            let diff = row_diff(main_rows, secondary_rows);
            if diff.len() > 0 {
                let output = severity_output(&e.lint);
                if e.lint.error.is_some() {
                    passes = false;
                }
                findings.push(Finding { name: e.lint.name.clone(), output, rows: diff });
                proof {
                    assert(findings.deep_view() =~= acc.findings.push(
                        run_step(acc, ev[i as int])->Ok_0.findings.last(),
                    ));
                    assert(findings.deep_view() =~= run_step(acc, ev[i as int])->Ok_0.findings);
                }
            } else {
                proof {
                    assert(diff.deep_view().len() == 0);
                }
            }
        } else {
            match &e.main {
                LintCallResult::Failed(_m) => {
                    passes = false;
                    failed_calls.push(e.lint.name.clone());
                    proof {
                        assert(failed_calls.deep_view() =~= acc.failed_calls.push(
                            ev[i as int].lint.name,
                        ));
                    }
                },
                LintCallResult::Rows(rows) => {
                    if rows.len() > 0 {
                        let output = severity_output(&e.lint);
                        if e.lint.error.is_some() {
                            passes = false;
                        }
                        findings.push(
                            Finding { name: e.lint.name.clone(), output, rows: clone_rows(rows) },
                        );
                        proof {
                            assert(findings.deep_view() =~= run_step(
                                acc,
                                ev[i as int],
                            )->Ok_0.findings);
                        }
                    } else {
                        proof {
                            assert(rows.deep_view().len() == 0);
                        }
                    }
                },
            }
        }
        proof {
            assert(run_step(acc, ev[i as int]) == Ok::<RunReportModel, Seq<char>>(
                RunReportModel {
                    passes: passes,
                    findings: findings.deep_view(),
                    failed_calls: failed_calls.deep_view(),
                },
            ));
        }
        i = i + 1;
    }
    proof {
        assert(ev.take(executions@.len() as int) =~= ev);
    }
    Ok(RunReport { passes, findings, failed_calls })
}

/// The severity message of a lint definition with exactly one severity set.
fn severity_output(lint: &LintData) -> (out: LintResult)
    requires
        severity_exactly_one(lint.deep_view()),
    ensures
        out.deep_view() == output_of(lint.deep_view()),
{
    match &lint.warning {
        Some(m) => LintResult::Warning(m.clone()),
        None => match &lint.error {
            Some(m) => LintResult::Error(m.clone()),
            None => {
                proof {
                    assert(false);
                }
                LintResult::Error(String::new())
            },
        },
    }
}

} // verus!
