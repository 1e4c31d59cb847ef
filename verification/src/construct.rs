//! The two constructors that a script calls to get a handle.

use vstd::prelude::*;
use vstd::string::*;
use crate::distribution::{HandleModel, PythonDistribution};
use crate::error::{outcome_view, ErrorCode, ErrorModel, Operation, ScriptError};
use crate::location::{
    first_serving,
    lemma_first_serving_is_found,
    spec_find_distribution,
    DistributionRegistry,
    LocationModel,
    PythonDistributionLocation,
    PythonDistributionRecord,
};
use crate::marshal::{optional_str_arg, required_str_arg, shape_error, str_text};
use crate::policy::{
    default_flavor,
    explicit_flavor,
    invalid_flavor_error,
    lemma_refused_name_is_in_message,
    spec_default_flavor,
    unknown_flavor_error,
    DistributionFlavor,
};
use crate::text::contains_text;
use crate::value::Value;

verus! {

/// What the environment of a script holds for the operations.
#[derive(Clone, Debug, PartialEq, Eq)]
pub struct EnvironmentContext {
    /// The directory against which relative paths of the script are taken.
    pub cwd: String,
    /// The triple of the machine that builds.
    pub build_host_triple: String,
    /// The triple that is built for.
    pub build_target_triple: String,
    /// The directory under which distributions are put.
    pub python_distributions_path: String,
    /// Whether the packaging tools are to report what they do.
    pub verbose: bool,
}

/// The error for a target for which the registry has no distribution of the
/// flavor asked for.
pub open spec fn no_default_error(target_triple: Seq<char>) -> ErrorModel {
    ErrorModel {
        code: ErrorCode::Build,
        message: "could not find default Python distribution for "@ + target_triple,
        label: Operation::DefaultDistribution.label(),
    }
}

/// The error for a call that gives both a local path and a URL.
pub open spec fn both_locations_error() -> ErrorModel {
    ErrorModel {
        code: ErrorCode::IncorrectParameterType,
        message: "cannot define both local_path and url"@,
        label: Operation::ExplicitDistribution.label(),
    }
}

/// An unresolved handle.
pub open spec fn fresh_handle<D, C>(
    flavor: DistributionFlavor,
    source: LocationModel,
    dest_dir: Seq<char>,
) -> HandleModel<D, C> {
    HandleModel { flavor, source, dest_dir, distribution: None, compiler: None }
}

/// The target that a default distribution is looked up for: the one the
/// script names, else the one that is built for.
pub open spec fn chosen_target(env: EnvironmentContext, build_target: Value) -> Seq<char> {
    if build_target is Str {
        str_text(build_target)
    } else {
        env.build_target_triple@
    }
}

/// What `default_python_distribution` gives: the arguments' shapes are
/// examined first, then the flavor's name, then the registry.
pub open spec fn spec_default_python_distribution<D, C>(
    env: EnvironmentContext,
    records: Seq<PythonDistributionRecord>,
    flavor: Value,
    build_target: Value,
) -> Result<HandleModel<D, C>, ErrorModel> {
    if !(flavor is Str) {
        Err(
            shape_error(
                Operation::DefaultDistribution,
                "a string"@,
                "flavor"@,
                flavor.spec_get_type(),
            ),
        )
    } else if !(build_target is NoValue) && !(build_target is Str) {
        Err(
            shape_error(Operation::DefaultDistribution, "an optional string"@,
                "build_target"@,
                build_target.spec_get_type(),
            ),
        )
    } else {
        match spec_default_flavor(str_text(flavor)) {
            None => Err(unknown_flavor_error(str_text(flavor))),
            Some(f) => match spec_find_distribution(records, f, chosen_target(env, build_target)) {
                None => Err(no_default_error(chosen_target(env, build_target))),
                Some(record) => Ok(
                    fresh_handle(f, record.location@, env.python_distributions_path@),
                ),
            },
        }
    }
}

/// The text that stands for an optional string where a text is needed: the
/// string's own, and `None` for the script's "no value".
pub open spec fn text_or_none(v: Value) -> Seq<char> {
    if v is Str {
        str_text(v)
    } else {
        "None"@
    }
}

/// What the constructor with an explicit location gives: the arguments'
/// shapes are examined first, then that not both a local path and a URL
/// are given, then the flavor's name. With a local path the location is
/// that file; without one it is the URL, and with neither it is the URL
/// `None`.
pub open spec fn spec_from_args<D, C>(
    env: EnvironmentContext,
    sha256: Value,
    local_path: Value,
    url: Value,
    flavor: Value,
) -> Result<HandleModel<D, C>, ErrorModel> {
    if !(sha256 is Str) {
        Err(
            shape_error(
                Operation::ExplicitDistribution,
                "a string"@,
                "sha256"@,
                sha256.spec_get_type(),
            ),
        )
    } else if !(local_path is NoValue) && !(local_path is Str) {
        Err(
            shape_error(Operation::ExplicitDistribution, "an optional string"@,
                "local_path"@,
                local_path.spec_get_type(),
            ),
        )
    } else if !(url is NoValue) && !(url is Str) {
        Err(
            shape_error(
                Operation::ExplicitDistribution,
                "an optional string"@,
                "url"@,
                url.spec_get_type(),
            ),
        )
    } else if !(flavor is Str) {
        Err(
            shape_error(
                Operation::ExplicitDistribution,
                "a string"@,
                "flavor"@,
                flavor.spec_get_type(),
            ),
        )
    } else if local_path is Str && url is Str {
        Err(both_locations_error())
    } else if str_text(flavor) != "standalone"@ {
        Err(invalid_flavor_error(str_text(flavor)))
    } else if local_path is Str {
        Ok(
            fresh_handle(
                DistributionFlavor::Standalone,
                LocationModel::Local { local_path: str_text(local_path), sha256: str_text(sha256) },
                env.python_distributions_path@,
            ),
        )
    } else {
        Ok(
            fresh_handle(
                DistributionFlavor::Standalone,
                LocationModel::Url { url: text_or_none(url), sha256: str_text(sha256) },
                env.python_distributions_path@,
            ),
        )
    }
}

impl<D, C> PythonDistribution<D, C> {
    /// A handle for the distribution that the registry knows for a flavor
    /// and a target. The target is the one the script names, else the one
    /// that is built for.
    pub fn default_python_distribution(
        env: &EnvironmentContext,
        registry: &DistributionRegistry,
        flavor: &Value,
        build_target: &Value,
    ) -> (r: Result<Self, ScriptError>)
        ensures
            outcome_view(r) == spec_default_python_distribution::<D, C>(
                *env,
                registry.records@,
                *flavor,
                *build_target,
            ),
    {
        let flavor_name = required_str_arg(Operation::DefaultDistribution, "flavor", flavor)?;
        let build_target = optional_str_arg(
            Operation::DefaultDistribution,
            "build_target",
            build_target,
        )?;
        let target = match build_target {
            Some(t) => t,
            None => env.build_target_triple.clone(),
        };
        let flavor = default_flavor(flavor_name.as_str())?;
        match registry.find_distribution(target.as_str(), flavor) {
            Some(record) => Ok(
                PythonDistribution::from_location(
                    flavor,
                    record.location.duplicate(),
                    env.python_distributions_path.as_str(),
                ),
            ),
            None => {
                let mut message = String::from_str(
                    "could not find default Python distribution for ",
                );
                message.append(target.as_str());
                Err(Operation::DefaultDistribution.error(ErrorCode::Build, message))
            },
        }
    }

    /// A handle for a distribution at an explicit location: a checksum with
    /// a local path or a URL, not with both.
    pub fn from_args(
        env: &EnvironmentContext,
        sha256: &Value,
        local_path: &Value,
        url: &Value,
        flavor: &Value,
    ) -> (r: Result<Self, ScriptError>)
        ensures
            outcome_view(r) == spec_from_args::<D, C>(*env, *sha256, *local_path, *url, *flavor),
    {
        let sha256 = required_str_arg(Operation::ExplicitDistribution, "sha256", sha256)?;
        let local_path = optional_str_arg(
            Operation::ExplicitDistribution,
            "local_path",
            local_path,
        )?;
        let url = optional_str_arg(Operation::ExplicitDistribution, "url", url)?;
        let flavor_name = required_str_arg(Operation::ExplicitDistribution, "flavor", flavor)?;
        if local_path.is_some() && url.is_some() {
            return Err(
                Operation::ExplicitDistribution.error(
                    ErrorCode::IncorrectParameterType,
                    String::from_str("cannot define both local_path and url"),
                ),
            );
        }
        let location = match local_path {
            Some(local_path) => PythonDistributionLocation::Local { local_path, sha256 },
            None => match url {
                Some(url) => PythonDistributionLocation::Url { url, sha256 },
                None => PythonDistributionLocation::Url { url: String::from_str("None"), sha256 },
            },
        };
        let flavor = explicit_flavor(flavor_name.as_str())?;
        Ok(
            PythonDistribution::from_location(
                flavor,
                location,
                env.python_distributions_path.as_str(),
            ),
        )
    }
}

/// Whoever gives both a local path and a URL is refused with one fixed
/// message, whatever the two texts are, the checksum and the flavor's
/// name. (The arguments' shapes are examined before: the law speaks of
/// calls whose arguments are strings.)
pub proof fn lemma_both_locations_refused<D, C>(
    env: EnvironmentContext,
    sha256: Value,
    local_path: Value,
    url: Value,
    flavor: Value,
)
    requires
        sha256 is Str,
        local_path is Str,
        url is Str,
        flavor is Str,
    ensures
        spec_from_args::<D, C>(env, sha256, local_path, url, flavor) == Err::<
            HandleModel<D, C>,
            ErrorModel,
        >(both_locations_error()),
        both_locations_error().message == "cannot define both local_path and url"@,
{
}

/// A flavor's name that is not recognized is refused by both
/// constructors, and the message holds the name. (Both examine the
/// arguments' shapes before, and the second that not both a local path and
/// a URL are given: the law speaks of calls that pass these checks.)
pub proof fn lemma_unknown_flavor_refused<D, C>(
    env: EnvironmentContext,
    records: Seq<PythonDistributionRecord>,
    flavor: Value,
    build_target: Value,
    sha256: Value,
    local_path: Value,
    url: Value,
)
    requires
        flavor is Str,
        spec_default_flavor(str_text(flavor)) is None,
        build_target is NoValue || build_target is Str,
        sha256 is Str,
        local_path is NoValue || local_path is Str,
        url is NoValue || url is Str,
        !(local_path is Str && url is Str),
    ensures
        spec_default_python_distribution::<D, C>(env, records, flavor, build_target) is Err,
        contains_text(
            spec_default_python_distribution::<D, C>(
                env,
                records,
                flavor,
                build_target,
            )->Err_0.message,
            str_text(flavor),
        ),
        spec_from_args::<D, C>(env, sha256, local_path, url, flavor) is Err,
        contains_text(
            spec_from_args::<D, C>(env, sha256, local_path, url, flavor)->Err_0.message,
            str_text(flavor),
        ),
{
    lemma_refused_name_is_in_message(Operation::DefaultDistribution, str_text(flavor));
}

/// A call without a target and with the flavor `standalone` gives the
/// distribution that the registry has for the target that is built for:
/// an unresolved handle of the standalone flavor, at the location of the
/// first record for them.
pub proof fn lemma_default_is_for_ambient_target<D, C>(
    env: EnvironmentContext,
    records: Seq<PythonDistributionRecord>,
    flavor: Value,
    at: int,
)
    requires
        flavor is Str,
        str_text(flavor) == "standalone"@,
        first_serving(records, DistributionFlavor::Standalone, env.build_target_triple@, at),
    ensures
        spec_default_python_distribution::<D, C>(env, records, flavor, Value::NoValue) == Ok::<
            HandleModel<D, C>,
            ErrorModel,
        >(
            fresh_handle(
                DistributionFlavor::Standalone,
                records[at].location@,
                env.python_distributions_path@,
            ),
        ),
{
    lemma_first_serving_is_found(
        records,
        DistributionFlavor::Standalone,
        env.build_target_triple@,
        at,
    );
}

/// Every refusal of a constructor names the constructor.
pub proof fn lemma_refusals_name_the_constructor<D, C>(
    env: EnvironmentContext,
    records: Seq<PythonDistributionRecord>,
    flavor: Value,
    build_target: Value,
    sha256: Value,
    local_path: Value,
    url: Value,
)
    ensures
        spec_default_python_distribution::<D, C>(env, records, flavor, build_target) is Err
            ==> spec_default_python_distribution::<D, C>(
            env,
            records,
            flavor,
            build_target,
        )->Err_0.label == Operation::DefaultDistribution.label(),
        spec_from_args::<D, C>(env, sha256, local_path, url, flavor) is Err ==> spec_from_args::<
            D,
            C,
        >(env, sha256, local_path, url, flavor)->Err_0.label
            == Operation::ExplicitDistribution.label(),
{
}

} // verus!
