//! The operation that asks for the builder of an executable.

use vstd::prelude::*;
use vstd::string::*;
use crate::construct::EnvironmentContext;
use crate::distribution::PythonDistribution;
use crate::error::{outcome_view, ErrorModel, Operation, ScriptError};
use crate::marshal::{
    optional_dict_arg,
    optional_type_arg,
    required_bool_arg,
    required_str_arg,
    spec_optional_dict_arg,
    spec_optional_type_arg,
    spec_required_bool_arg,
    spec_required_str_arg,
    text_pairs,
};
use crate::pipeline::{plan, Step};
use crate::policy::{
    extension_module_filter,
    invalid_filter_error,
    invalid_policy_error,
    resources_policy,
    spec_filter,
    spec_resources_policy,
    ExtensionModuleFilter,
    PolicyModel,
    ResourcesPolicy,
};
use crate::value::Value;

verus! {

/// A validated request for the builder of an executable.
#[derive(Debug, PartialEq, Eq)]
pub struct ExecutableRequest {
    /// The triple of the machine that builds.
    pub host_triple: String,
    /// The triple that is built for.
    pub target_triple: String,
    /// The name of the executable.
    pub name: String,
    pub resources_policy: ResourcesPolicy,
    /// Whether the script gave a configuration of the interpreter. Where it
    /// gave none, the configuration is to be had from the script's own
    /// constructor for it, called without arguments.
    pub config_given: bool,
    pub extension_module_filter: ExtensionModuleFilter,
    pub preferred_extension_module_variants: Option<Vec<(String, String)>>,
    pub include_sources: bool,
    pub include_resources: bool,
    pub include_test: bool,
}

/// A request for a builder as contracts speak of it.
pub struct ExecutableModel {
    pub host_triple: Seq<char>,
    pub target_triple: Seq<char>,
    pub name: Seq<char>,
    pub resources_policy: PolicyModel,
    pub config_given: bool,
    pub extension_module_filter: ExtensionModuleFilter,
    pub preferred_extension_module_variants: Option<Seq<(Seq<char>, Seq<char>)>>,
    pub include_sources: bool,
    pub include_resources: bool,
    pub include_test: bool,
}

impl View for ExecutableRequest {
    type V = ExecutableModel;

    open spec fn view(&self) -> ExecutableModel {
        ExecutableModel {
            host_triple: self.host_triple@,
            target_triple: self.target_triple@,
            name: self.name@,
            resources_policy: self.resources_policy@,
            config_given: self.config_given,
            extension_module_filter: self.extension_module_filter,
            preferred_extension_module_variants: match self.preferred_extension_module_variants {
                Some(v) => Some(text_pairs(v@)),
                None => None,
            },
            include_sources: self.include_sources,
            include_resources: self.include_resources,
            include_test: self.include_test,
        }
    }
}

/// The script's arguments to `to_python_executable`.
pub struct ExecutableArguments {
    pub name: Value,
    pub resources_policy: Value,
    pub config: Value,
    pub extension_module_filter: Value,
    pub preferred_extension_module_variants: Value,
    pub include_sources: Value,
    pub include_resources: Value,
    pub include_test: Value,
}

/// The three switches of the request, or the error for the first of them
/// that is no boolean.
pub open spec fn spec_switches(a: ExecutableArguments) -> Result<(bool, bool, bool), ErrorModel> {
    let op = Operation::ToPythonExecutable;
    match spec_required_bool_arg(op, "include_sources"@, a.include_sources) {
        Err(e) => Err(e),
        Ok(sources) => match spec_required_bool_arg(op, "include_resources"@, a.include_resources) {
            Err(e) => Err(e),
            Ok(resources) => match spec_required_bool_arg(op, "include_test"@, a.include_test) {
                Err(e) => Err(e),
                Ok(test) => Ok((sources, resources, test)),
            },
        },
    }
}

/// The names and the optional parts of the request, or the error for the
/// first of them that has the wrong shape: the executable's name, the
/// policy's name, whether a configuration is given, the filter's name and
/// the preferred variants.
pub open spec fn spec_named_parts(a: ExecutableArguments) -> Result<
    (Seq<char>, Seq<char>, bool, Seq<char>, Option<Seq<(Seq<char>, Seq<char>)>>),
    ErrorModel,
> {
    let op = Operation::ToPythonExecutable;
    match spec_required_str_arg(op, "name"@, a.name) {
        Err(e) => Err(e),
        Ok(name) => match spec_required_str_arg(op, "resources_policy"@, a.resources_policy) {
            Err(e) => Err(e),
            Ok(policy) => match spec_optional_type_arg(
                op,
                "config"@,
                "PythonInterpreterConfig"@,
                a.config,
            ) {
                Err(e) => Err(e),
                Ok(config_given) => match spec_required_str_arg(
                    op,
                    "extension_module_filter"@,
                    a.extension_module_filter,
                ) {
                    Err(e) => Err(e),
                    Ok(filter) => match spec_optional_dict_arg(
                        op,
                        "preferred_extension_module_variants"@,
                        a.preferred_extension_module_variants,
                    ) {
                        Err(e) => Err(e),
                        Ok(variants) => Ok((name, policy, config_given, filter, variants)),
                    },
                },
            },
        },
    }
}

/// The request that `to_python_executable` makes of its arguments. The
/// shapes of all arguments are examined first, in the order in which the
/// script gives them; then the policy's name, then the filter's.
pub open spec fn spec_to_python_executable(
    env: EnvironmentContext,
    a: ExecutableArguments,
) -> Result<ExecutableModel, ErrorModel> {
    let op = Operation::ToPythonExecutable;
    match spec_named_parts(a) {
        Err(e) => Err(e),
        Ok(parts) => match spec_switches(a) {
            Err(e) => Err(e),
            Ok(switches) => match spec_resources_policy(parts.1) {
                None => Err(invalid_policy_error(op, parts.1)),
                Some(policy) => match spec_filter(parts.3) {
                    None => Err(invalid_filter_error(op, parts.3)),
                    Some(filter) => Ok(
                        ExecutableModel {
                            host_triple: env.build_host_triple@,
                            target_triple: env.build_target_triple@,
                            name: parts.0,
                            resources_policy: policy,
                            config_given: parts.2,
                            extension_module_filter: filter,
                            preferred_extension_module_variants: parts.4,
                            include_sources: switches.0,
                            include_resources: switches.1,
                            include_test: switches.2,
                        },
                    ),
                },
            },
        },
    }
}

impl<D, C> PythonDistribution<D, C> {
    /// `to_python_executable(name, resources_policy="in-memory-only",
    /// config=None, extension_module_filter="all",
    /// preferred_extension_module_variants=None, include_sources=True,
    /// include_resources=False, include_test=False)`: the request for the
    /// builder of an executable, for the machine that builds and the
    /// target that is built for. The policy and the filter are refused
    /// before anything is resolved.
    pub fn to_python_executable(
        &self,
        env: &EnvironmentContext,
        arguments: &ExecutableArguments,
    ) -> (r: Result<Step<ExecutableRequest>, ScriptError>)
        ensures
            outcome_view(r) == plan(self@, spec_to_python_executable(*env, *arguments)),
    {
        let op = Operation::ToPythonExecutable;
        let name = required_str_arg(op, "name", &arguments.name)?;
        let policy_name = required_str_arg(op, "resources_policy", &arguments.resources_policy)?;
        let config_given = optional_type_arg(
            op,
            "config",
            "PythonInterpreterConfig",
            &arguments.config,
        )?;
        let filter_name = required_str_arg(
            op,
            "extension_module_filter",
            &arguments.extension_module_filter,
        )?;
        let preferred_extension_module_variants = optional_dict_arg(
            op,
            "preferred_extension_module_variants",
            &arguments.preferred_extension_module_variants,
        )?;
        let include_sources = required_bool_arg(op, "include_sources", &arguments.include_sources)?;
        let include_resources = required_bool_arg(
            op,
            "include_resources",
            &arguments.include_resources,
        )?;
        let include_test = required_bool_arg(op, "include_test", &arguments.include_test)?;
        let resources_policy = resources_policy(op, policy_name.as_str())?;
        let extension_module_filter = extension_module_filter(op, filter_name.as_str())?;
        Ok(
            self.step(
                ExecutableRequest {
                    host_triple: env.build_host_triple.clone(),
                    target_triple: env.build_target_triple.clone(),
                    name,
                    resources_policy,
                    config_given,
                    extension_module_filter,
                    preferred_extension_module_variants,
                    include_sources,
                    include_resources,
                    include_test,
                },
            ),
        )
    }
}

/// Every refusal of a request for a builder names the operation.
pub proof fn lemma_refusals_name_the_operation(env: EnvironmentContext, a: ExecutableArguments)
    ensures
        spec_to_python_executable(env, a) is Err ==> spec_to_python_executable(
            env,
            a,
        )->Err_0.label == Operation::ToPythonExecutable.label(),
{
}

} // verus!
