//! The sandbox bridge: the lifecycle of one isolated plugin module and the
//! verdict of its batch entrypoint. A module is initialized exactly once —
//! asking again must observe the already-initialized state, never re-run
//! setup — and may be invoked only once initialized. The batch entrypoint
//! applies each lint's severity and fails overall exactly when an
//! error-severity lint found rows.

use vstd::prelude::*;
use crate::engine::{LintCallResult, LintCallResultModel};
use crate::lint::{Lint, LintModel, LintResultModel, PluginErrors, PluginErrorsModel};

verus! {

/// One isolated, loaded plugin module. `initialized` says whether its
/// module-local adapter singleton exists; `setups_run` counts how many times
/// setup actually ran (never more than once).
pub struct PluginHandle {
    pub initialized: bool,
    pub setups_run: u64,
}

/// The lifecycle invariant: setup has run exactly once when the handle is
/// initialized, and never before that.
pub open spec fn handle_wf(h: PluginHandle) -> bool {
    h.setups_run == (if h.initialized {
        1u64
    } else {
        0u64
    })
}

/// The state a handle reaches when asked to initialize: an uninitialized
/// handle runs setup once; an initialized one is left exactly as it was.
pub open spec fn initialized_state(h: PluginHandle) -> PluginHandle {
    if h.initialized {
        h
    } else {
        PluginHandle { initialized: true, setups_run: (h.setups_run + 1) as u64 }
    }
}

/// Initialization idempotence law: asking a handle to initialize twice
/// leaves it in the same observable state as asking once.
pub proof fn lemma_initialize_idempotent(h: PluginHandle)
    ensures
        initialized_state(initialized_state(h)) == initialized_state(h),
{
}

impl PluginHandle {
    /// A freshly loaded module: not yet initialized, setup never run.
    pub fn load() -> (h: PluginHandle)
        ensures
            !h.initialized,
            h.setups_run == 0,
            handle_wf(h),
    {
        PluginHandle { initialized: false, setups_run: 0 }
    }

    /// Allocate the module-local adapter singleton exactly once; a second
    /// call observes the already-initialized state and does not re-run
    /// setup. Yields whether setup ran in this call.
    pub fn initialize(&mut self) -> (did_setup: bool)
        requires
            handle_wf(*old(self)),
        ensures
            *final(self) == initialized_state(*old(self)),
            handle_wf(*final(self)),
            did_setup == !old(self).initialized,
    {
        if self.initialized {
            false
        } else {
            self.setups_run = self.setups_run + 1;
            self.initialized = true;
            true
        }
    }

    /// Whether the handle may be handed lints to run.
    pub fn can_invoke(&self) -> (r: bool)
        ensures
            r == self.initialized,
    {
        self.initialized
    }
}

/// Whether the batch passes, folded over the lints in order: a failed
/// invocation aborts with its message, and otherwise the batch passes unless
/// some error-severity lint found rows.
pub open spec fn lint_all_passes(lints: Seq<LintModel>, outcomes: Seq<LintCallResultModel>) -> Result<
    bool,
    Seq<char>,
>
    decreases lints.len(),
{
    if lints.len() == 0 {
        Ok(true)
    } else {
        match lint_all_passes(lints.drop_last(), outcomes.drop_last()) {
            Err(m) => Err(m),
            Ok(p) => match outcomes.last() {
                LintCallResultModel::Failed(m) => Err(m),
                LintCallResultModel::Rows(rows) => Ok(
                    p && !(rows.len() > 0 && lints.last().output is Error),
                ),
            },
        }
    }
}

/// The verdict of the batch entrypoint: a failed invocation propagates as a
/// plugin error, and otherwise the batch fails overall exactly when at least
/// one error-severity lint produced a non-empty result.
pub open spec fn lint_all_spec(
    lints: Seq<LintModel>,
    outcomes: Seq<LintCallResultModel>,
    plugin: Seq<char>,
) -> Result<(), PluginErrorsModel> {
    match lint_all_passes(lints, outcomes) {
        Err(m) => Err(PluginErrorsModel::PluginError(m)),
        Ok(true) => Ok(()),
        Ok(false) => Err(PluginErrorsModel::PluginLintsFailed(plugin)),
    }
}

/// Once an invocation fails, the batch verdict is that failure: a prefix
/// that reaches a failed invocation, none having failed before, determines
/// the fold.
proof fn lemma_lint_all_prefix_err(
    lints: Seq<LintModel>,
    outcomes: Seq<LintCallResultModel>,
    i: int,
)
    requires
        lints.len() == outcomes.len(),
        0 <= i < lints.len(),
        lint_all_passes(lints.take(i), outcomes.take(i)) is Ok,
        outcomes[i] is Failed,
    ensures
        lint_all_passes(lints, outcomes) == Err::<bool, Seq<char>>(outcomes[i]->Failed_0),
    decreases lints.len(),
{
    if lints.len() == i + 1 {
        assert(lints.drop_last() =~= lints.take(i));
        assert(outcomes.drop_last() =~= outcomes.take(i));
        assert(outcomes.last() == outcomes[i]);
    } else {
        assert(lints.drop_last().take(i) =~= lints.take(i));
        assert(outcomes.drop_last().take(i) =~= outcomes.take(i));
        assert(outcomes.drop_last()[i] == outcomes[i]);
        lemma_lint_all_prefix_err(lints.drop_last(), outcomes.drop_last(), i);
    }
}

/// Batch verdict law: when every invocation returns rows, the batch reaches
/// a verdict, and it passes exactly when no error-severity lint returned a
/// row; warnings never fail the batch.
pub proof fn lemma_lint_all_verdict(lints: Seq<LintModel>, outcomes: Seq<LintCallResultModel>)
    requires
        lints.len() == outcomes.len(),
        forall|i: int| 0 <= i < outcomes.len() ==> (#[trigger] outcomes[i]) is Rows,
    ensures
        lint_all_passes(lints, outcomes) is Ok,
        lint_all_passes(lints, outcomes) == Ok::<bool, Seq<char>>(
            forall|i: int|
                0 <= i < lints.len() ==> !((#[trigger] lints[i]).output is Error && outcomes[
                    i
                ]->Rows_0.len() > 0),
        ),
    decreases lints.len(),
{
    if lints.len() > 0 {
        assert(forall|i: int|
            0 <= i < lints.len() - 1 ==> lints.drop_last()[i] == #[trigger] lints[i]);
        assert(forall|i: int|
            0 <= i < outcomes.len() - 1 ==> outcomes.drop_last()[i] == #[trigger] outcomes[i]);
        lemma_lint_all_verdict(lints.drop_last(), outcomes.drop_last());
        let all_before = forall|i: int|
            0 <= i < lints.len() - 1 ==> !((#[trigger] lints[i]).output is Error && outcomes[
                i
            ]->Rows_0.len() > 0);
        let last_ok = !(lints.last().output is Error && outcomes.last()->Rows_0.len() > 0);
        if all_before && last_ok {
            assert forall|i: int|
                0 <= i < lints.len() implies !((#[trigger] lints[i]).output is Error && outcomes[
                i
            ]->Rows_0.len() > 0) by {
                if i < lints.len() - 1 {
                } else {
                    assert(lints[i] == lints.last());
                    assert(outcomes[i] == outcomes.last());
                }
            }
        }
    }
}

/// The batch entrypoint's decision: given what each lint's invocation
/// returned, in order, report the batch verdict for the named plugin.
pub fn lint_all(lints: &Vec<Lint>, outcomes: &Vec<LintCallResult>, plugin_name: &str) -> (r: Result<
    (),
    PluginErrors,
>)
    requires
        lints.len() == outcomes.len(),
    ensures
        r matches Err(e) ==> lint_all_spec(
            lints.deep_view(),
            outcomes.deep_view(),
            plugin_name@,
        ) == Err::<(), PluginErrorsModel>(e.deep_view()),
        r is Ok ==> lint_all_spec(lints.deep_view(), outcomes.deep_view(), plugin_name@) == Ok::<
            (),
            PluginErrorsModel,
        >(()),
{
    let ghost lv = lints.deep_view();
    let ghost ov = outcomes.deep_view();
    let mut passes = true;
    let mut i: usize = 0;
    #[verifier::loop_isolation(false)]
    while i < lints.len()
        invariant
            i <= lints.len(),
            lint_all_passes(lv.take(i as int), ov.take(i as int)) == Ok::<bool, Seq<char>>(passes),
        decreases lints.len() - i,
    {
        proof {
            assert(lv[i as int] == lints@[i as int].deep_view());
            assert(ov[i as int] == outcomes@[i as int].deep_view());
            assert(lv.take(i + 1 as int).drop_last() =~= lv.take(i as int));
            assert(ov.take(i + 1 as int).drop_last() =~= ov.take(i as int));
            assert(lv.take(i + 1 as int).last() == lv[i as int]);
            assert(ov.take(i + 1 as int).last() == ov[i as int]);
        }
        match &outcomes[i] {
            LintCallResult::Failed(m) => {
                proof {
                    lemma_lint_all_prefix_err(lv, ov, i as int);
                }
                return Err(PluginErrors::PluginError(m.clone()));
            },
            LintCallResult::Rows(rows) => {
                if rows.len() > 0 {
                    match &lints[i].output {
                        crate::lint::LintResult::Error(_) => {
                            passes = false;
                        },
                        crate::lint::LintResult::Warning(_) => {},
                    }
                }
                proof {
                    assert(rows.deep_view().len() == rows@.len());
                }
            },
        }
        i = i + 1;
    }
    proof {
        assert(lv.take(lints@.len() as int) =~= lv);
        assert(ov.take(outcomes@.len() as int) =~= ov);
    }
    if passes {
        Ok(())
    } else {
        Err(PluginErrors::PluginLintsFailed(plugin_name.to_owned()))
    }
}

/// What a plugin asks the host to mount into its sandbox: files with these
/// extensions, minus these directories.
pub struct Files {
    pub extensions: Vec<String>,
    pub ignored_dirs: Vec<String>,
}

/// One file handed into the sandbox: its name, its path under the sandbox
/// mount, and its contents.
pub struct FilteredFile {
    pub name: String,
    pub path: String,
    pub contents: String,
}

/// The files the host actually mounted.
pub struct AvailableFiles {
    pub files: Vec<FilteredFile>,
}

/// The file request of an API-specification plugin: YAML documents,
/// whatever the directory.
pub fn requested_files() -> (f: Files)
    ensures
        f.extensions@.len() == 2,
        f.extensions@[0]@ == "yml"@,
        f.extensions@[1]@ == "yaml"@,
        f.ignored_dirs@.len() == 0,
{
    let mut extensions: Vec<String> = Vec::new();
    extensions.push(String::from_str("yml"));
    extensions.push(String::from_str("yaml"));
    Files { extensions, ignored_dirs: Vec::new() }
}

} // verus!
