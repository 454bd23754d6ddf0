//! The per-domain lint configuration: each entry names a rule and carries a
//! query for the infrastructure-as-code side, the API-specification side, or
//! both. An entry with neither query is rejected, and one bad entry rejects
//! the whole configuration.

use vstd::prelude::*;
use vstd::string::*;
use crate::value::{Value, ValueModel};

verus! {

/// Mathematical model of a [`Lint`].
pub struct ConfigLintModel {
    pub name: Seq<char>,
    pub terraform: Option<Seq<char>>,
    pub api: Option<Seq<char>>,
    pub error: Seq<char>,
    pub tf_args: Seq<(Seq<char>, ValueModel)>,
    pub oa_args: Seq<(Seq<char>, ValueModel)>,
}

/// One configured rule: its name, the message reported when it fails, a
/// query against the infrastructure-as-code representation and/or one
/// against the API-specification representation, each with its own
/// arguments.
pub struct Lint {
    pub name: String,
    pub terraform: Option<String>,
    pub api: Option<String>,
    pub error: String,
    pub tf_args: Vec<(String, Value)>,
    pub oa_args: Vec<(String, Value)>,
}

impl DeepView for Lint {
    type V = ConfigLintModel;

    open spec fn deep_view(&self) -> ConfigLintModel {
        ConfigLintModel {
            name: self.name@,
            terraform: self.terraform.deep_view(),
            api: self.api.deep_view(),
            error: self.error@,
            tf_args: self.tf_args.deep_view(),
            oa_args: self.oa_args.deep_view(),
        }
    }
}

/// A configured rule is valid when it has a query for at least one side.
pub open spec fn config_lint_valid(l: ConfigLintModel) -> bool {
    l.terraform is Some || l.api is Some
}

impl Lint {
    /// Accept this rule exactly when it queries at least one representation;
    /// otherwise report which rule is missing its queries.
    pub fn validate(&self) -> (r: Result<(), String>)
        ensures
            r is Ok <==> config_lint_valid(self.deep_view()),
            r matches Err(m) ==> m@ == "Lint "@ + self.name@ + " has no terraform or api query"@,
    {
        if self.terraform.is_none() && self.api.is_none() {
            return Err(
                String::from_str("Lint ").concat(self.name.as_str()).concat(
                    " has no terraform or api query",
                ),
            );
        }
        Ok(())
    }
}

/// Mathematical model of a [`Config`].
pub struct ConfigModel {
    pub lints: Seq<ConfigLintModel>,
}

/// A whole lint configuration: the configured rules in order.
pub struct Config {
    pub lints: Vec<Lint>,
}

impl DeepView for Config {
    type V = ConfigModel;

    open spec fn deep_view(&self) -> ConfigModel {
        ConfigModel { lints: self.lints.deep_view() }
    }
}

impl Config {
    /// Accept the configuration exactly when every rule is valid; one bad
    /// rule rejects the whole configuration.
    pub fn validate(&self) -> (r: Result<(), String>)
        ensures
            r is Ok <==> (forall|i: int|
                0 <= i < self.deep_view().lints.len() ==> config_lint_valid(
                    #[trigger] self.deep_view().lints[i],
                )),
            r matches Err(m) ==> m@ == "Lint config is not valid"@,
    {
        let ghost lv = self.deep_view().lints;
        let mut valid = true;
        let mut i: usize = 0;
        #[verifier::loop_isolation(false)]
        while i < self.lints.len()
            invariant
                i <= self.lints.len(),
                valid <==> (forall|k: int| 0 <= k < i ==> config_lint_valid(#[trigger] lv[k])),
            decreases self.lints.len() - i,
        {
            proof {
                assert(lv[i as int] == self.lints@[i as int].deep_view());
            }
            if self.lints[i].validate().is_err() {
                valid = false;
            }
            i = i + 1;
        }
        if !valid {
            return Err(String::from_str("Lint config is not valid"));
        }
        Ok(())
    }

    /// Whether any rule queries the API-specification representation.
    pub fn has_api_lints(&self) -> (r: bool)
        ensures
            r == exists|i: int|
                0 <= i < self.deep_view().lints.len() && (#[trigger] self.deep_view().lints[i]).api
                    is Some,
    {
        let ghost lv = self.deep_view().lints;
        let mut i: usize = 0;
        #[verifier::loop_isolation(false)]
        while i < self.lints.len()
            invariant
                i <= self.lints.len(),
                forall|k: int| 0 <= k < i ==> !((#[trigger] lv[k]).api is Some),
            decreases self.lints.len() - i,
        {
            proof {
                assert(lv[i as int] == self.lints@[i as int].deep_view());
            }
            if self.lints[i].api.is_some() {
                proof {
                    assert(lv[i as int].api is Some);
                }
                return true;
            }
            i = i + 1;
        }
        false
    }
}

/// The kinds of check a rule can ask for of a query's result set.
pub enum Check {
    IsEmpty,
    IsEqual,
    AtLeastOne,
}

} // verus!
