//! Lint definitions as they are written in configuration, their validation
//! gate, and the merger that turns several definition sources into one
//! ordered batch. Validation is fail-closed: one bad definition rejects the
//! whole merged batch before anything runs.

use vstd::prelude::*;
use crate::lint::{clone_entries, Lint, LintModel, LintResult};
use crate::value::{Value, ValueModel};

verus! {

/// Mathematical model of a [`LintData`].
pub struct LintDataModel {
    pub name: Seq<char>,
    pub lint: Seq<char>,
    pub args: Seq<(Seq<char>, ValueModel)>,
    pub warning: Option<Seq<char>>,
    pub error: Option<Seq<char>>,
    pub compared_lint: Option<Seq<char>>,
    pub compared_args: Option<Seq<(Seq<char>, ValueModel)>>,
}

/// One lint definition as loaded from a definition source: a name, the
/// query, its arguments, exactly one of a warning or an error message, and,
/// for comparison mode, the query and arguments of the secondary side.
pub struct LintData {
    pub name: String,
    pub lint: String,
    pub args: Vec<(String, Value)>,
    pub warning: Option<String>,
    pub error: Option<String>,
    pub compared_lint: Option<String>,
    pub compared_args: Option<Vec<(String, Value)>>,
}

impl DeepView for LintData {
    type V = LintDataModel;

    open spec fn deep_view(&self) -> LintDataModel {
        LintDataModel {
            name: self.name@,
            lint: self.lint@,
            args: self.args.deep_view(),
            warning: self.warning.deep_view(),
            error: self.error.deep_view(),
            compared_lint: self.compared_lint.deep_view(),
            compared_args: self.compared_args.deep_view(),
        }
    }
}

impl Clone for LintData {
    fn clone(&self) -> (res: Self)
        ensures
            res.deep_view() == self.deep_view(),
    {
        LintData {
            name: self.name.clone(),
            lint: self.lint.clone(),
            args: clone_entries(&self.args),
            warning: match &self.warning {
                Some(s) => Some(s.clone()),
                None => None,
            },
            error: match &self.error {
                Some(s) => Some(s.clone()),
                None => None,
            },
            compared_lint: match &self.compared_lint {
                Some(s) => Some(s.clone()),
                None => None,
            },
            compared_args: match &self.compared_args {
                Some(entries) => Some(clone_entries(entries)),
                None => None,
            },
        }
    }
}

/// Why a lint definition, or a whole batch, was rejected.
#[derive(Debug)]
pub enum ConfigError {
    /// The definition has an empty name.
    EmptyName,
    /// The definition has an empty query.
    EmptyQuery,
    /// The named definition selects no severity at all.
    NoSeverity(String),
    /// The named definition selects both severities at once.
    BothSeverities(String),
    /// The named comparison definition has no secondary query.
    MissingComparedLint(String),
    /// At least one definition of the merged batch is invalid.
    InvalidConfig,
    /// A plugin configuration names neither a path nor a url for its module.
    NoPluginSource,
}

/// Mathematical model of a [`ConfigError`].
pub enum ConfigErrorModel {
    EmptyName,
    EmptyQuery,
    NoSeverity(Seq<char>),
    BothSeverities(Seq<char>),
    MissingComparedLint(Seq<char>),
    InvalidConfig,
    NoPluginSource,
}

impl DeepView for ConfigError {
    type V = ConfigErrorModel;

    open spec fn deep_view(&self) -> ConfigErrorModel {
        match self {
            ConfigError::EmptyName => ConfigErrorModel::EmptyName,
            ConfigError::EmptyQuery => ConfigErrorModel::EmptyQuery,
            ConfigError::NoSeverity(n) => ConfigErrorModel::NoSeverity(n@),
            ConfigError::BothSeverities(n) => ConfigErrorModel::BothSeverities(n@),
            ConfigError::MissingComparedLint(n) => ConfigErrorModel::MissingComparedLint(n@),
            ConfigError::InvalidConfig => ConfigErrorModel::InvalidConfig,
            ConfigError::NoPluginSource => ConfigErrorModel::NoPluginSource,
        }
    }
}

/// Exactly one of the warning and error severities is selected.
pub open spec fn severity_exactly_one(d: LintDataModel) -> bool {
    (d.warning is Some && d.error is None) || (d.warning is None && d.error is Some)
}

/// A lint definition is valid: non-empty name, non-empty query, exactly one
/// severity.
pub open spec fn lint_valid(d: LintDataModel) -> bool {
    d.name.len() > 0 && d.lint.len() > 0 && severity_exactly_one(d)
}

/// A comparison lint definition is valid: valid as above, with a secondary
/// query present.
pub open spec fn compared_lint_valid(d: LintDataModel) -> bool {
    lint_valid(d) && d.compared_lint is Some
}

/// Which rejection `validate` reports for a definition, checked in order:
/// empty name, empty query, no severity, both severities.
pub open spec fn validate_spec(d: LintDataModel) -> Result<(), ConfigErrorModel> {
    if d.name.len() == 0 {
        Err(ConfigErrorModel::EmptyName)
    } else if d.lint.len() == 0 {
        Err(ConfigErrorModel::EmptyQuery)
    } else if d.warning is None && d.error is None {
        Err(ConfigErrorModel::NoSeverity(d.name))
    } else if d.warning is Some && d.error is Some {
        Err(ConfigErrorModel::BothSeverities(d.name))
    } else {
        Ok(())
    }
}

/// Validation acceptance law: a lint definition passes validation exactly
/// when it is valid — non-empty name and query and exactly one severity; any
/// other combination is rejected.
pub proof fn lemma_validate_accepts_iff_valid(d: LintDataModel)
    ensures
        validate_spec(d) is Ok <==> lint_valid(d),
{
}

impl LintData {
    /// Validate this definition, reporting the first failure in order:
    /// empty name, empty query, no severity, both severities.
    pub fn validate(&self) -> (r: Result<(), ConfigError>)
        ensures
            r is Ok <==> lint_valid(self.deep_view()),
            match r {
                Ok(()) => validate_spec(self.deep_view()) is Ok,
                Err(e) => validate_spec(self.deep_view()) == Err::<(), ConfigErrorModel>(
                    e.deep_view(),
                ),
            },
    {
        if self.name.as_str().unicode_len() == 0 {
            return Err(ConfigError::EmptyName);
        }
        if self.lint.as_str().unicode_len() == 0 {
            return Err(ConfigError::EmptyQuery);
        }
        if self.warning.is_none() && self.error.is_none() {
            return Err(ConfigError::NoSeverity(self.name.clone()));
        }
        if self.warning.is_some() && self.error.is_some() {
            return Err(ConfigError::BothSeverities(self.name.clone()));
        }
        Ok(())
    }

    /// Validate this definition for comparison mode: as `validate`, and the
    /// secondary query must be present.
    pub fn validate_compared_lints(&self) -> (r: Result<(), ConfigError>)
        ensures
            r is Ok <==> compared_lint_valid(self.deep_view()),
            lint_valid(self.deep_view()) && self.deep_view().compared_lint is None ==> (r
                matches Err(e) && e.deep_view() == ConfigErrorModel::MissingComparedLint(
                self.deep_view().name,
            )),
            !lint_valid(self.deep_view()) ==> (r matches Err(e) && validate_spec(self.deep_view())
                == Err::<(), ConfigErrorModel>(e.deep_view())),
    {
        match self.validate() {
            Ok(()) => {},
            Err(e) => {
                return Err(e);
            },
        }
        if self.compared_lint.is_none() {
            return Err(ConfigError::MissingComparedLint(self.name.clone()));
        }
        Ok(())
    }

    /// The severity of a valid definition: the warning message when one is
    /// set, else the error message.
    pub open spec fn output_spec(d: LintDataModel) -> crate::lint::LintResultModel {
        match d.warning {
            Some(m) => crate::lint::LintResultModel::Warning(m),
            None => crate::lint::LintResultModel::Error(d.error.unwrap()),
        }
    }

    /// Convert this definition into the lint sent to the plugin.
    pub fn convert_to_plugin_lint(&self) -> (r: Option<Lint>)
        requires
            severity_exactly_one(self.deep_view()),
        ensures
            r is Some,
            r.unwrap().deep_view() == (LintModel {
                name: self.deep_view().name,
                lint: self.deep_view().lint,
                output: Self::output_spec(self.deep_view()),
                args: self.deep_view().args,
            }),
    {
        Some(
            Lint {
                name: self.name.clone(),
                lint: self.lint.clone(),
                args: clone_entries(&self.args),
                output: match &self.warning {
                    Some(m) => LintResult::Warning(m.clone()),
                    None => LintResult::Error(match &self.error {
                        Some(m) => m.clone(),
                        None => {
                            proof {
                                assert(false);
                            }
                            String::new()
                        },
                    }),
                },
            },
        )
    }

    /// Convert this comparison definition into the pair of lints sent to the
    /// two sides: the main side runs the primary query, the secondary side
    /// the secondary query (with its own arguments, empty when absent); both
    /// carry the same name and severity. Yields nothing when the secondary
    /// query is absent.
    pub fn convert_to_plugin_lint_with_compared(&self) -> (r: Option<(Lint, Lint)>)
        requires
            severity_exactly_one(self.deep_view()),
        ensures
            r is Some <==> self.deep_view().compared_lint is Some,
            r matches Some(pair) ==> {
                &&& pair.0.deep_view() == (LintModel {
                    name: self.deep_view().name,
                    lint: self.deep_view().lint,
                    output: Self::output_spec(self.deep_view()),
                    args: self.deep_view().args,
                })
                &&& pair.1.deep_view() == (LintModel {
                    name: self.deep_view().name,
                    lint: self.deep_view().compared_lint.unwrap(),
                    output: Self::output_spec(self.deep_view()),
                    args: match self.deep_view().compared_args {
                        Some(args) => args,
                        None => Seq::empty(),
                    },
                })
            },
    {
        let compared_lint = match &self.compared_lint {
            Some(q) => q.clone(),
            None => {
                return None;
            },
        };
        let main = match self.convert_to_plugin_lint() {
            Some(l) => l,
            None => {
                proof {
                    assert(false);
                }
                return None;
            },
        };
        let compared_args = match &self.compared_args {
            Some(entries) => clone_entries(entries),
            None => Vec::new(),
        };
        let compared = Lint {
            name: self.name.clone(),
            lint: compared_lint,
            args: compared_args,
            output: main.output.clone(),
        };
        proof {
            assert(compared.deep_view().args =~= (match self.deep_view().compared_args {
                Some(args) => args,
                None => Seq::empty(),
            }));
        }
        Some((main, compared))
    }
}

/// Merge the lint batches of several definition sources into one ordered
/// batch, in source order, and validate every definition; if any definition
/// is invalid the whole merged batch is rejected.
pub fn merge_lints(batches: &Vec<Vec<LintData>>) -> (r: Result<Vec<LintData>, ConfigError>)
    ensures
        r is Ok <==> (forall|i: int|
            0 <= i < batches.deep_view().flatten().len() ==> lint_valid(
                #[trigger] batches.deep_view().flatten()[i],
            )),
        r matches Ok(lints) ==> lints.deep_view() == batches.deep_view().flatten(),
        r is Err ==> (r matches Err(e) && e.deep_view() == ConfigErrorModel::InvalidConfig),
{
    let ghost bv = batches.deep_view();
    let mut lints: Vec<LintData> = Vec::new();
    let mut i: usize = 0;
    #[verifier::loop_isolation(false)]
    while i < batches.len()
        invariant
            i <= batches.len(),
            lints.deep_view() =~= bv.take(i as int).flatten(),
        decreases batches.len() - i,
    {
        let batch = &batches[i];
        proof {
            assert(bv[i as int] == batches@[i as int].deep_view());
            bv.take(i as int).lemma_flatten_push(bv[i as int]);
            assert(bv.take(i + 1 as int) =~= bv.take(i as int).push(bv[i as int]));
        }
        let mut j: usize = 0;
        #[verifier::loop_isolation(false)]
        while j < batch.len()
            invariant
                j <= batch.len(),
                lints.deep_view() =~= bv.take(i as int).flatten() + batches@[
                    i as int
                ].deep_view().take(j as int),
            decreases batch.len() - j,
        {
            proof {
                assert(batch@[j as int].deep_view() == batches@[i as int].deep_view()[j as int]);
            }
            let ghost before = lints.deep_view();
            lints.push(batch[j].clone());
            proof {
                let bi = batches@[i as int].deep_view();
                assert(lints.deep_view() =~= before.push(bi[j as int]));
                assert(bi.take(j + 1 as int) =~= bi.take(j as int).push(bi[j as int]));
                assert(lints.deep_view() =~= bv.take(i as int).flatten() + bi.take(j + 1 as int));
            }
            j = j + 1;
        }
        proof {
            assert(batches@[i as int].deep_view().take(batch@.len() as int) =~= batches@[
                i as int
            ].deep_view());
            assert(lints.deep_view() =~= bv.take(i + 1 as int).flatten());
        }
        i = i + 1;
    }
    proof {
        assert(bv.take(batches@.len() as int) =~= bv);
        assert(lints.deep_view() =~= bv.flatten());
    }
    let ghost all = bv.flatten();
    let mut valid = true;
    let mut k: usize = 0;
    #[verifier::loop_isolation(false)]
    while k < lints.len()
        invariant
            k <= lints.len(),
            lints.deep_view() == all,
            valid <==> (forall|m: int| 0 <= m < k ==> lint_valid(#[trigger] all[m])),
        decreases lints.len() - k,
    {
        proof {
            assert(all[k as int] == lints@[k as int].deep_view());
        }
        if lints[k].validate().is_err() {
            valid = false;
        }
        k = k + 1;
    }
    if !valid {
        return Err(ConfigError::InvalidConfig);
    }
    Ok(lints)
}

} // verus!
