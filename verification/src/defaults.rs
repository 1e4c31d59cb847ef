//! The values that stand in for the arguments which a script leaves out.

use vstd::prelude::*;
use vstd::string::*;
use crate::executable::ExecutableArguments;
use crate::marshal::str_text;
use crate::policy::{
    spec_default_flavor,
    spec_filter,
    spec_resources_policy,
    DistributionFlavor,
    ExtensionModuleFilter,
    PolicyModel,
};
use crate::value::Value;

verus! {

/// The script's "no value", for an optional argument that is left out.
pub fn absent() -> (r: Value)
    ensures
        r is NoValue,
{
    Value::NoValue
}

/// The flavor where none is named: `standalone`.
pub fn flavor() -> (r: Value)
    ensures
        r is Str,
        str_text(r) == "standalone"@,
{
    Value::Str(String::from_str("standalone"))
}

/// The extension module filter where none is named: `all`.
pub fn extension_module_filter() -> (r: Value)
    ensures
        r is Str,
        str_text(r) == "all"@,
{
    Value::Str(String::from_str("all"))
}

/// The resources policy where none is named: `in-memory-only`.
pub fn resources_policy() -> (r: Value)
    ensures
        r is Str,
        str_text(r) == "in-memory-only"@,
{
    Value::Str(String::from_str("in-memory-only"))
}

/// Whether tests are included where the script does not say: they are not.
pub fn include_test() -> (r: Value)
    ensures
        r == Value::Bool(false),
{
    Value::Bool(false)
}

/// Whether sources are included where the script does not say: they are.
pub fn include_sources() -> (r: Value)
    ensures
        r == Value::Bool(true),
{
    Value::Bool(true)
}

/// Whether data files are included where the script does not say: they
/// are not.
pub fn include_resources() -> (r: Value)
    ensures
        r == Value::Bool(false),
{
    Value::Bool(false)
}

impl ExecutableArguments {
    /// The arguments of a call that gives the executable's name and leaves
    /// out all else.
    pub fn with_defaults(name: Value) -> (r: ExecutableArguments)
        ensures
            r.name == name,
            r.resources_policy is Str && str_text(r.resources_policy) == "in-memory-only"@,
            r.config is NoValue,
            r.extension_module_filter is Str && str_text(r.extension_module_filter) == "all"@,
            r.preferred_extension_module_variants is NoValue,
            r.include_sources == Value::Bool(true),
            r.include_resources == Value::Bool(false),
            r.include_test == Value::Bool(false),
    {
        ExecutableArguments {
            name,
            resources_policy: resources_policy(),
            config: absent(),
            extension_module_filter: extension_module_filter(),
            preferred_extension_module_variants: absent(),
            include_sources: include_sources(),
            include_resources: include_resources(),
            include_test: include_test(),
        }
    }
}

/// What stands in for a name that is left out is itself a recognized
/// name: the standalone flavor, the filter that lets every extension
/// module pass, and the policy that loads everything from memory.
pub proof fn lemma_defaults_are_recognized()
    ensures
        spec_default_flavor("standalone"@) == Some(DistributionFlavor::Standalone),
        spec_filter("all"@) == Some(ExtensionModuleFilter::All),
        spec_resources_policy("in-memory-only"@) == Some(PolicyModel::InMemoryOnly),
{
    reveal_strlit("all");
    reveal_strlit("minimal");
    assert("all"@.len() != "minimal"@.len());
}

} // verus!
