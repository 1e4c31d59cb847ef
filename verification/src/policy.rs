//! The closed sets of names that a script may use: distribution flavors,
//! extension module filters and resources policies.

use vstd::prelude::*;
use vstd::string::*;
use python_packaging::policy::ExtensionModuleFilter as ToolFilter;
use crate::error::{ErrorCode, ErrorModel, Operation, ScriptError};
use crate::text::{contains_text, has_prefix, lemma_middle_occurs, same_text, starts_with};

verus! {

/// The build and linkage variant of a distribution.
#[derive(Clone, Copy, Debug, PartialEq, Eq, Structural)]
pub enum DistributionFlavor {
    Standalone,
    StandaloneStatic,
    StandaloneDynamic,
}

/// The flavor that a name stands for where a default distribution is asked
/// for.
pub open spec fn spec_default_flavor(name: Seq<char>) -> Option<DistributionFlavor> {
    if name == "standalone"@ {
        Some(DistributionFlavor::Standalone)
    } else if name == "standalone_static"@ {
        Some(DistributionFlavor::StandaloneStatic)
    } else if name == "standalone_dynamic"@ {
        Some(DistributionFlavor::StandaloneDynamic)
    } else {
        None
    }
}

/// The error for a name that is no flavor of a default distribution.
pub open spec fn unknown_flavor_error(name: Seq<char>) -> ErrorModel {
    ErrorModel {
        code: ErrorCode::Build,
        message: "unknown distribution flavor "@ + name,
        label: Operation::DefaultDistribution.label(),
    }
}

/// The error for a name that is no flavor of a distribution with an
/// explicit location.
pub open spec fn invalid_flavor_error(name: Seq<char>) -> ErrorModel {
    ErrorModel {
        code: ErrorCode::Build,
        message: "invalid distribution flavor "@ + name,
        label: Operation::ExplicitDistribution.label(),
    }
}

/// The flavor of a default distribution: one of `standalone`,
/// `standalone_static` and `standalone_dynamic`. Any other name is an error
/// whose message ends with the name.
pub fn default_flavor(name: &str) -> (r: Result<DistributionFlavor, ScriptError>)
    ensures
        spec_default_flavor(name@) is Some ==> r is Ok && r->Ok_0 == spec_default_flavor(
            name@,
        )->Some_0,
        spec_default_flavor(name@) is None ==> r is Err && r->Err_0@ == unknown_flavor_error(
            name@,
        ),
{
    if same_text(name, "standalone") {
        Ok(DistributionFlavor::Standalone)
    } else if same_text(name, "standalone_static") {
        Ok(DistributionFlavor::StandaloneStatic)
    } else if same_text(name, "standalone_dynamic") {
        Ok(DistributionFlavor::StandaloneDynamic)
    } else {
        let mut message = String::from_str("unknown distribution flavor ");
        message.append(name);
        Err(Operation::DefaultDistribution.error(ErrorCode::Build, message))
    }
}

/// The flavor of a distribution with an explicit location: `standalone`
/// only. Any other name is an error whose message ends with the name.
pub fn explicit_flavor(name: &str) -> (r: Result<DistributionFlavor, ScriptError>)
    ensures
        name@ == "standalone"@ ==> r is Ok && r->Ok_0 == DistributionFlavor::Standalone,
        name@ != "standalone"@ ==> r is Err && r->Err_0@ == invalid_flavor_error(name@),
{
    if same_text(name, "standalone") {
        Ok(DistributionFlavor::Standalone)
    } else {
        let mut message = String::from_str("invalid distribution flavor ");
        message.append(name);
        Err(Operation::ExplicitDistribution.error(ErrorCode::Build, message))
    }
}

/// Which extension modules of a distribution are eligible.
#[derive(Clone, Copy, Debug, PartialEq, Eq, Structural)]
pub enum ExtensionModuleFilter {
    Minimal,
    All,
    NoLibraries,
    NoGpl,
}

/// The filter that a name stands for.
pub open spec fn spec_filter(name: Seq<char>) -> Option<ExtensionModuleFilter> {
    if name == "minimal"@ {
        Some(ExtensionModuleFilter::Minimal)
    } else if name == "all"@ {
        Some(ExtensionModuleFilter::All)
    } else if name == "no-libraries"@ {
        Some(ExtensionModuleFilter::NoLibraries)
    } else if name == "no-gpl"@ {
        Some(ExtensionModuleFilter::NoGpl)
    } else {
        None
    }
}

/// Parses a filter's name with `ExtensionModuleFilter::try_from` of
/// `python_packaging::policy`: `minimal`, `all`, `no-libraries` and
/// `no-gpl` give their filter, and any other name gives the text
/// "<name> is not a valid extension module filter".
#[verifier::external_body]
fn filter_from_name(name: &str) -> (r: Result<ExtensionModuleFilter, String>)
    ensures
        spec_filter(name@) is Some ==> r is Ok && r->Ok_0 == spec_filter(name@)->Some_0,
        spec_filter(name@) is None ==> r is Err && r->Err_0@ == name@
            + " is not a valid extension module filter"@,
{
    match ToolFilter::try_from(name) {
        Ok(ToolFilter::Minimal) => Ok(ExtensionModuleFilter::Minimal),
        Ok(ToolFilter::All) => Ok(ExtensionModuleFilter::All),
        Ok(ToolFilter::NoLibraries) => Ok(ExtensionModuleFilter::NoLibraries),
        Ok(ToolFilter::NoGPL) => Ok(ExtensionModuleFilter::NoGpl),
        Err(e) => Err(e),
    }
}

/// The error of an operation for a name that is no extension module
/// filter.
pub open spec fn invalid_filter_error(operation: Operation, name: Seq<char>) -> ErrorModel {
    ErrorModel {
        code: ErrorCode::IncorrectParameterType,
        message: name + " is not a valid extension module filter"@,
        label: operation.label(),
    }
}

/// The extension module filter that a name stands for. A name outside the
/// recognized set is an error whose message begins with the name.
pub fn extension_module_filter(operation: Operation, name: &str) -> (r: Result<
    ExtensionModuleFilter,
    ScriptError,
>)
    ensures
        spec_filter(name@) is Some ==> r is Ok && r->Ok_0 == spec_filter(name@)->Some_0,
        spec_filter(name@) is None ==> r is Err && r->Err_0@ == invalid_filter_error(
            operation,
            name@,
        ),
{
    match filter_from_name(name) {
        Ok(f) => Ok(f),
        Err(message) => Err(operation.error(ErrorCode::IncorrectParameterType, message)),
    }
}

/// How the resources that were found are to be embedded in an executable.
#[derive(Clone, Debug, PartialEq, Eq)]
pub enum ResourcesPolicy {
    /// Load everything from memory.
    InMemoryOnly,
    /// Load everything from files under the given directory, which is
    /// relative to the executable.
    FilesystemRelativeOnly(String),
    /// Load from memory where that is possible, else from files under the
    /// given directory.
    PreferInMemoryFallbackFilesystemRelative(String),
}

/// A resources policy as contracts speak of it.
pub enum PolicyModel {
    InMemoryOnly,
    FilesystemRelativeOnly(Seq<char>),
    PreferInMemoryFallbackFilesystemRelative(Seq<char>),
}

impl View for ResourcesPolicy {
    type V = PolicyModel;

    open spec fn view(&self) -> PolicyModel {
        match self {
            ResourcesPolicy::InMemoryOnly => PolicyModel::InMemoryOnly,
            ResourcesPolicy::FilesystemRelativeOnly(prefix) => PolicyModel::FilesystemRelativeOnly(
                prefix@,
            ),
            ResourcesPolicy::PreferInMemoryFallbackFilesystemRelative(prefix) =>
                PolicyModel::PreferInMemoryFallbackFilesystemRelative(prefix@),
        }
    }
}

/// What follows the first `n` characters of a text.
pub open spec fn rest_after(text: Seq<char>, n: nat) -> Seq<char> {
    text.subrange(n as int, text.len() as int)
}

/// The policy that a name stands for: `in-memory-only`, or one of the two
/// names that end in a colon, followed by a directory.
pub open spec fn spec_resources_policy(name: Seq<char>) -> Option<PolicyModel> {
    if name == "in-memory-only"@ {
        Some(PolicyModel::InMemoryOnly)
    } else if starts_with(name, "filesystem-relative-only:"@) {
        Some(
            PolicyModel::FilesystemRelativeOnly(
                rest_after(name, "filesystem-relative-only:"@.len()),
            ),
        )
    } else if starts_with(name, "prefer-in-memory-fallback-filesystem-relative:"@) {
        Some(
            PolicyModel::PreferInMemoryFallbackFilesystemRelative(
                rest_after(name, "prefer-in-memory-fallback-filesystem-relative:"@.len()),
            ),
        )
    } else {
        None
    }
}

/// The error of an operation for a name that is no resources policy.
pub open spec fn invalid_policy_error(operation: Operation, name: Seq<char>) -> ErrorModel {
    ErrorModel {
        code: ErrorCode::Build,
        message: "invalid value for Python Resources Policy: "@ + name,
        label: operation.label(),
    }
}

/// What follows `prefix` in a text that begins with it.
fn after_prefix(text: &str, prefix: &str) -> (r: String)
    requires
        starts_with(text@, prefix@),
    ensures
        r@ == rest_after(text@, prefix@.len()),
{
    let from = prefix.unicode_len();
    let to = text.unicode_len();
    String::from_str(text.substring_char(from, to))
}

/// The resources policy that a name stands for. A name outside the
/// recognized set is an error whose message ends with the name.
pub fn resources_policy(operation: Operation, name: &str) -> (r: Result<
    ResourcesPolicy,
    ScriptError,
>)
    ensures
        spec_resources_policy(name@) is Some ==> r is Ok && r->Ok_0@ == spec_resources_policy(
            name@,
        )->Some_0,
        spec_resources_policy(name@) is None ==> r is Err && r->Err_0@ == invalid_policy_error(
            operation,
            name@,
        ),
{
    if same_text(name, "in-memory-only") {
        Ok(ResourcesPolicy::InMemoryOnly)
    } else if has_prefix(name, "filesystem-relative-only:") {
        Ok(ResourcesPolicy::FilesystemRelativeOnly(after_prefix(name, "filesystem-relative-only:")))
    } else if has_prefix(name, "prefer-in-memory-fallback-filesystem-relative:") {
        Ok(
            ResourcesPolicy::PreferInMemoryFallbackFilesystemRelative(
                after_prefix(name, "prefer-in-memory-fallback-filesystem-relative:"),
            ),
        )
    } else {
        let mut message = String::from_str("invalid value for Python Resources Policy: ");
        message.append(name);
        Err(operation.error(ErrorCode::Build, message))
    }
}

/// A name that is refused is told to the script's author: the message of
/// each of the errors for an unrecognized flavor, filter or policy holds
/// the name as it was given.
pub proof fn lemma_refused_name_is_in_message(operation: Operation, name: Seq<char>)
    ensures
        contains_text(unknown_flavor_error(name).message, name),
        contains_text(invalid_flavor_error(name).message, name),
        contains_text(invalid_filter_error(operation, name).message, name),
        contains_text(invalid_policy_error(operation, name).message, name),
{
    let nothing = Seq::<char>::empty();
    lemma_middle_occurs("unknown distribution flavor "@, name, nothing);
    assert("unknown distribution flavor "@ + name + nothing =~= "unknown distribution flavor "@
        + name);
    lemma_middle_occurs("invalid distribution flavor "@, name, nothing);
    assert("invalid distribution flavor "@ + name + nothing =~= "invalid distribution flavor "@
        + name);
    lemma_middle_occurs(nothing, name, " is not a valid extension module filter"@);
    assert(nothing + name + " is not a valid extension module filter"@ =~= name
        + " is not a valid extension module filter"@);
    lemma_middle_occurs("invalid value for Python Resources Policy: "@, name, nothing);
    assert("invalid value for Python Resources Policy: "@ + name + nothing
        =~= "invalid value for Python Resources Policy: "@ + name);
}

} // verus!
