//! The lint that crosses the sandbox boundary: a named query with bound
//! arguments and a severity, plus the errors a plugin can report back.

use vstd::prelude::*;
use vstd::string::*;
use crate::value::{Value, ValueModel};

verus! {

/// Mathematical model of a [`LintResult`].
pub enum LintResultModel {
    Warning(Seq<char>),
    Error(Seq<char>),
}

/// The severity of a lint, with the message to report when it finds rows:
/// a warning is logged and the run continues, an error fails the run.
/// Exactly one of the two is ever attached to a valid lint.
pub enum LintResult {
    Warning(String),
    Error(String),
}

impl DeepView for LintResult {
    type V = LintResultModel;

    open spec fn deep_view(&self) -> LintResultModel {
        match self {
            LintResult::Warning(m) => LintResultModel::Warning(m@),
            LintResult::Error(m) => LintResultModel::Error(m@),
        }
    }
}

impl Clone for LintResult {
    fn clone(&self) -> (res: Self)
        ensures
            res.deep_view() == self.deep_view(),
    {
        match self {
            LintResult::Warning(m) => LintResult::Warning(m.clone()),
            LintResult::Error(m) => LintResult::Error(m.clone()),
        }
    }
}

impl Default for LintResult {
    /// The default severity is an error with a placeholder message.
    fn default() -> (res: Self)
        ensures
            res.deep_view() == LintResultModel::Error("No output"@),
    {
        LintResult::Error(String::from_str("No output"))
    }
}

/// Mathematical model of a [`Lint`].
pub struct LintModel {
    pub name: Seq<char>,
    pub lint: Seq<char>,
    pub output: LintResultModel,
    pub args: Seq<(Seq<char>, ValueModel)>,
}

/// One lint as a plugin receives it over the wire: a name, the query text,
/// the severity, and the query arguments (a name-to-value mapping whose
/// order is irrelevant).
pub struct Lint {
    pub name: String,
    pub lint: String,
    pub output: LintResult,
    pub args: Vec<(String, Value)>,
}

impl DeepView for Lint {
    type V = LintModel;

    open spec fn deep_view(&self) -> LintModel {
        LintModel {
            name: self.name@,
            lint: self.lint@,
            output: self.output.deep_view(),
            args: self.args.deep_view(),
        }
    }
}

/// Copy a name-to-value argument list.
pub fn clone_entries(entries: &Vec<(String, Value)>) -> (out: Vec<(String, Value)>)
    ensures
        out.deep_view() == entries.deep_view(),
{
    let mut out: Vec<(String, Value)> = Vec::new();
    let mut i: usize = 0;
    #[verifier::loop_isolation(false)]
    while i < entries.len()
        invariant
            i <= entries.len(),
            out.deep_view() =~= entries.deep_view().take(i as int),
        decreases entries.len() - i,
    {
        let pair = &entries[i];
        out.push((pair.0.clone(), pair.1.clone()));
        i = i + 1;
    }
    proof {
        assert(out.deep_view() =~= entries.deep_view());
    }
    out
}

impl Clone for Lint {
    fn clone(&self) -> (res: Self)
        ensures
            res.deep_view() == self.deep_view(),
    {
        Lint {
            name: self.name.clone(),
            lint: self.lint.clone(),
            output: self.output.clone(),
            args: clone_entries(&self.args),
        }
    }
}

/// What a plugin reports when it cannot finish its work.
pub enum PluginErrors {
    /// At least one error-severity lint of the named plugin found rows.
    PluginLintsFailed(String),
    /// No source file matched the structure the plugin asked for.
    FilesNotFound(String),
    /// The plugin failed for another reason, described by the message.
    PluginError(String),
}

/// Mathematical model of a [`PluginErrors`].
pub enum PluginErrorsModel {
    PluginLintsFailed(Seq<char>),
    FilesNotFound(Seq<char>),
    PluginError(Seq<char>),
}

impl DeepView for PluginErrors {
    type V = PluginErrorsModel;

    open spec fn deep_view(&self) -> PluginErrorsModel {
        match self {
            PluginErrors::PluginLintsFailed(s) => PluginErrorsModel::PluginLintsFailed(s@),
            PluginErrors::FilesNotFound(s) => PluginErrorsModel::FilesNotFound(s@),
            PluginErrors::PluginError(s) => PluginErrorsModel::PluginError(s@),
        }
    }
}

impl Clone for PluginErrors {
    fn clone(&self) -> (res: Self)
        ensures
            res.deep_view() == self.deep_view(),
    {
        match self {
            PluginErrors::PluginLintsFailed(s) => PluginErrors::PluginLintsFailed(s.clone()),
            PluginErrors::FilesNotFound(s) => PluginErrors::FilesNotFound(s.clone()),
            PluginErrors::PluginError(s) => PluginErrors::PluginError(s.clone()),
        }
    }
}

impl PluginErrors {
    /// The error rendered for display.
    pub fn message(&self) -> (out: String)
        ensures
            out@ == self.message_text(),
    {
        match self {
            PluginErrors::PluginLintsFailed(s) => String::from_str("Lint for the ").concat(
                s.as_str(),
            ).concat(" plugin failed"),
            PluginErrors::FilesNotFound(s) => String::from_str(
                "Source file(s) not found with structure: ",
            ).concat(s.as_str()),
            PluginErrors::PluginError(s) => String::from_str("Error in the plugin: ").concat(
                s.as_str(),
            ),
        }
    }

    /// The text `message` renders.
    pub open spec fn message_text(&self) -> Seq<char> {
        match self.deep_view() {
            PluginErrorsModel::PluginLintsFailed(s) => "Lint for the "@ + s + " plugin failed"@,
            PluginErrorsModel::FilesNotFound(s) => "Source file(s) not found with structure: "@
                + s,
            PluginErrorsModel::PluginError(s) => "Error in the plugin: "@ + s,
        }
    }
}

} // verus!
