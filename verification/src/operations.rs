//! The operations that list what a distribution bundles or what a
//! packaging tool finds: how each validates its arguments, what it asks of
//! its collaborator, and what it hands on of what the collaborator found.

use vstd::prelude::*;
use vstd::string::*;
use crate::construct::EnvironmentContext;
use crate::distribution::PythonDistribution;
use crate::error::{outcome_view, ErrorModel, Operation, ScriptError};
use crate::marshal::{
    optional_dict_arg,
    optional_list_arg,
    required_bool_arg,
    required_list_arg,
    required_str_arg,
    spec_optional_dict_arg,
    spec_optional_list_arg,
    spec_required_bool_arg,
    spec_required_list_arg,
    spec_required_str_arg,
    text_pairs,
    texts,
};
use crate::pipeline::{plan, Step};
use crate::policy::{
    extension_module_filter,
    invalid_filter_error,
    lemma_refused_name_is_in_message,
    spec_filter,
    ExtensionModuleFilter,
};
use crate::resource::{
    is_test_resource,
    keeps_in_packages,
    lemma_listing_without_tests_is_part,
    lists_resource,
    retain_in_packages,
    select_package_resources,
    PythonResource,
};
use crate::text::contains_text;
use crate::value::Value;

verus! {

/// A validated request to a collaborator.
#[derive(Debug, PartialEq, Eq)]
pub enum Call {
    /// The distribution's extension modules that pass the filter, with the
    /// variant preferred for each name where the script prefers one.
    ExtensionModules {
        filter: ExtensionModuleFilter,
        preferred_variants: Option<Vec<(String, String)>>,
    },
    /// The pure-source modules of the distribution's standard library.
    SourceModules,
    /// The data files that the distribution bundles.
    PackageResources { include_test: bool },
    /// Run the installer in the distribution's environment.
    PipInstall { verbose: bool, args: Vec<String>, extra_envs: Vec<(String, String)> },
    /// Find the resources under a directory.
    ReadPackageRoot { path: String, packages: Vec<String> },
    /// List what is installed in a virtual environment.
    ReadVirtualenv { path: String },
    /// Run the `setup.py` of a package and collect what it installs.
    SetupPyInstall {
        package_path: String,
        verbose: bool,
        extra_envs: Vec<(String, String)>,
        extra_global_arguments: Vec<String>,
    },
}

/// A request as contracts speak of it.
pub enum CallModel {
    ExtensionModules {
        filter: ExtensionModuleFilter,
        preferred_variants: Option<Seq<(Seq<char>, Seq<char>)>>,
    },
    SourceModules,
    PackageResources { include_test: bool },
    PipInstall { verbose: bool, args: Seq<Seq<char>>, extra_envs: Seq<(Seq<char>, Seq<char>)> },
    ReadPackageRoot { path: Seq<char>, packages: Seq<Seq<char>> },
    ReadVirtualenv { path: Seq<char> },
    SetupPyInstall {
        package_path: Seq<char>,
        verbose: bool,
        extra_envs: Seq<(Seq<char>, Seq<char>)>,
        extra_global_arguments: Seq<Seq<char>>,
    },
}

impl View for Call {
    type V = CallModel;

    open spec fn view(&self) -> CallModel {
        match self {
            Call::ExtensionModules { filter, preferred_variants } => CallModel::ExtensionModules {
                filter: *filter,
                preferred_variants: match preferred_variants {
                    Some(v) => Some(text_pairs(v@)),
                    None => None,
                },
            },
            Call::SourceModules => CallModel::SourceModules,
            Call::PackageResources { include_test } => CallModel::PackageResources {
                include_test: *include_test,
            },
            Call::PipInstall { verbose, args, extra_envs } => CallModel::PipInstall {
                verbose: *verbose,
                args: texts(args@),
                extra_envs: text_pairs(extra_envs@),
            },
            Call::ReadPackageRoot { path, packages } => CallModel::ReadPackageRoot {
                path: path@,
                packages: texts(packages@),
            },
            Call::ReadVirtualenv { path } => CallModel::ReadVirtualenv { path: path@ },
            Call::SetupPyInstall { package_path, verbose, extra_envs, extra_global_arguments } =>
                CallModel::SetupPyInstall {
                    package_path: package_path@,
                    verbose: *verbose,
                    extra_envs: text_pairs(extra_envs@),
                    extra_global_arguments: texts(extra_global_arguments@),
                },
        }
    }
}

impl CallModel {
    /// The operation that makes the request.
    pub open spec fn operation(self) -> Operation {
        match self {
            CallModel::ExtensionModules { .. } => Operation::ExtensionModules,
            CallModel::SourceModules => Operation::SourceModules,
            CallModel::PackageResources { .. } => Operation::PackageResources,
            CallModel::PipInstall { .. } => Operation::PipInstall,
            CallModel::ReadPackageRoot { .. } => Operation::ReadPackageRoot,
            CallModel::ReadVirtualenv { .. } => Operation::ReadVirtualenv,
            CallModel::SetupPyInstall { .. } => Operation::SetupPyInstall,
        }
    }

    /// What the operation hands on of what the collaborator found, in the
    /// collaborator's order. The listing of data files leaves out the
    /// standard library's test packages unless tests are asked for, the
    /// scan of a directory keeps what is in the packages asked for, and
    /// every other operation hands on the whole list.
    pub open spec fn selection(self, found: Seq<PythonResource>) -> Seq<PythonResource> {
        match self {
            CallModel::PackageResources { include_test } => found.filter(
                lists_resource(include_test),
            ),
            CallModel::ReadPackageRoot { path, packages } => found.filter(
                keeps_in_packages(packages),
            ),
            _ => found,
        }
    }
}

impl Call {
    /// The operation that makes the request.
    pub fn operation(&self) -> (r: Operation)
        ensures
            r == self@.operation(),
    {
        match self {
            Call::ExtensionModules { .. } => Operation::ExtensionModules,
            Call::SourceModules => Operation::SourceModules,
            Call::PackageResources { .. } => Operation::PackageResources,
            Call::PipInstall { .. } => Operation::PipInstall,
            Call::ReadPackageRoot { .. } => Operation::ReadPackageRoot,
            Call::ReadVirtualenv { .. } => Operation::ReadVirtualenv,
            Call::SetupPyInstall { .. } => Operation::SetupPyInstall,
        }
    }

    /// What the operation hands to the script, given how the collaborator
    /// ended: its selection of the records found, in their order, or the
    /// operation's error around what the collaborator reported. Nothing is
    /// handed on of a call that failed.
    pub fn complete(&self, ended: Result<Vec<PythonResource>, String>) -> (r: Result<
        Vec<PythonResource>,
        ScriptError,
    >)
        ensures
            ended is Ok ==> r is Ok && r->Ok_0@ == self@.selection(ended->Ok_0@),
            ended is Err ==> r is Err && r->Err_0@ == self@.operation().failure(ended->Err_0@),
    {
        match ended {
            Err(e) => Err(self.operation().fail(e.as_str())),
            Ok(found) => match self {
                Call::PackageResources { include_test } => Ok(
                    select_package_resources(found, *include_test),
                ),
                Call::ReadPackageRoot { path, packages } => Ok(retain_in_packages(found, packages)),
                _ => Ok(found),
            },
        }
    }
}

/// The entries of an optional dictionary, none where it is absent.
pub open spec fn entries_or_none(entries: Option<Seq<(Seq<char>, Seq<char>)>>) -> Seq<
    (Seq<char>, Seq<char>),
> {
    match entries {
        Some(found) => found,
        None => Seq::empty(),
    }
}

/// The items of an optional list, none where it is absent.
pub open spec fn items_or_none(items: Option<Seq<Seq<char>>>) -> Seq<Seq<char>> {
    match items {
        Some(found) => found,
        None => Seq::empty(),
    }
}

/// The request that `extension_modules` makes of its arguments: both
/// shapes are examined before the filter's name.
pub open spec fn spec_extension_modules(filter: Value, preferred_variants: Value) -> Result<
    CallModel,
    ErrorModel,
> {
    let op = Operation::ExtensionModules;
    match spec_required_str_arg(op, "filter"@, filter) {
        Err(e) => Err(e),
        Ok(name) => match spec_optional_dict_arg(op, "preferred_variants"@, preferred_variants) {
            Err(e) => Err(e),
            Ok(variants) => match spec_filter(name) {
                None => Err(invalid_filter_error(op, name)),
                Some(f) => Ok(
                    CallModel::ExtensionModules { filter: f, preferred_variants: variants },
                ),
            },
        },
    }
}

/// The request that `package_resources` makes of its argument.
pub open spec fn spec_package_resources(include_test: Value) -> Result<CallModel, ErrorModel> {
    let op = Operation::PackageResources;
    match spec_required_bool_arg(op, "include_test"@, include_test) {
        Err(e) => Err(e),
        Ok(b) => Ok(CallModel::PackageResources { include_test: b }),
    }
}

/// The request that `pip_install` makes of its arguments.
pub open spec fn spec_pip_install(
    env: EnvironmentContext,
    args: Value,
    extra_envs: Value,
) -> Result<CallModel, ErrorModel> {
    let op = Operation::PipInstall;
    match spec_required_list_arg(op, "args"@, args) {
        Err(e) => Err(e),
        Ok(items) => match spec_optional_dict_arg(op, "extra_envs"@, extra_envs) {
            Err(e) => Err(e),
            Ok(entries) => Ok(
                CallModel::PipInstall {
                    verbose: env.verbose,
                    args: items,
                    extra_envs: entries_or_none(entries),
                },
            ),
        },
    }
}

/// The request that `read_package_root` makes of its arguments.
pub open spec fn spec_read_package_root(path: Value, packages: Value) -> Result<
    CallModel,
    ErrorModel,
> {
    let op = Operation::ReadPackageRoot;
    match spec_required_str_arg(op, "path"@, path) {
        Err(e) => Err(e),
        Ok(text) => match spec_required_list_arg(op, "packages"@, packages) {
            Err(e) => Err(e),
            Ok(items) => Ok(CallModel::ReadPackageRoot { path: text, packages: items }),
        },
    }
}

/// The request that `read_virtualenv` makes of its argument.
pub open spec fn spec_read_virtualenv(path: Value) -> Result<CallModel, ErrorModel> {
    let op = Operation::ReadVirtualenv;
    match spec_required_str_arg(op, "path"@, path) {
        Err(e) => Err(e),
        Ok(text) => Ok(CallModel::ReadVirtualenv { path: text }),
    }
}

impl<D, C> PythonDistribution<D, C> {
    /// `extension_modules(filter="all", preferred_variants=None)`: the
    /// distribution's extension modules that pass the filter.
    pub fn extension_modules(&self, filter: &Value, preferred_variants: &Value) -> (r: Result<
        Step<Call>,
        ScriptError,
    >)
        ensures
            outcome_view(r) == plan(self@, spec_extension_modules(*filter, *preferred_variants)),
    {
        let op = Operation::ExtensionModules;
        let name = required_str_arg(op, "filter", filter)?;
        let preferred_variants = optional_dict_arg(op, "preferred_variants", preferred_variants)?;
        let filter = extension_module_filter(op, name.as_str())?;
        Ok(self.step(Call::ExtensionModules { filter, preferred_variants }))
    }

    /// `source_modules()`: the pure-source modules of the distribution's
    /// standard library.
    pub fn source_modules(&self) -> (r: Result<Step<Call>, ScriptError>)
        ensures
            outcome_view(r) == plan(self@, Ok(CallModel::SourceModules)),
    {
        Ok(self.step(Call::SourceModules))
    }

    /// `package_resources(include_test=False)`: the data files that the
    /// distribution bundles.
    pub fn package_resources(&self, include_test: &Value) -> (r: Result<Step<Call>, ScriptError>)
        ensures
            outcome_view(r) == plan(self@, spec_package_resources(*include_test)),
    {
        let op = Operation::PackageResources;
        let include_test = required_bool_arg(op, "include_test", include_test)?;
        Ok(self.step(Call::PackageResources { include_test }))
    }

    /// `pip_install(args, extra_envs=None)`: what the installer installs,
    /// run with these arguments and with these additions to its
    /// environment.
    pub fn pip_install(&self, env: &EnvironmentContext, args: &Value, extra_envs: &Value) -> (r:
        Result<Step<Call>, ScriptError>)
        ensures
            outcome_view(r) == plan(self@, spec_pip_install(*env, *args, *extra_envs)),
    {
        let op = Operation::PipInstall;
        let args = required_list_arg(op, "args", args)?;
        let extra_envs = match optional_dict_arg(op, "extra_envs", extra_envs)? {
            Some(entries) => entries,
            None => Vec::new(),
        };
        proof {
            assert(text_pairs(Seq::<(String, String)>::empty()) =~= Seq::empty());
        }
        Ok(self.step(Call::PipInstall { verbose: env.verbose, args, extra_envs }))
    }

    /// `read_package_root(path, packages)`: the resources under a
    /// directory that are in one of the packages.
    pub fn read_package_root(&self, path: &Value, packages: &Value) -> (r: Result<
        Step<Call>,
        ScriptError,
    >)
        ensures
            outcome_view(r) == plan(self@, spec_read_package_root(*path, *packages)),
    {
        let op = Operation::ReadPackageRoot;
        let path = required_str_arg(op, "path", path)?;
        let packages = required_list_arg(op, "packages", packages)?;
        Ok(self.step(Call::ReadPackageRoot { path, packages }))
    }

    /// `read_virtualenv(path)`: what is installed in a virtual
    /// environment.
    pub fn read_virtualenv(&self, path: &Value) -> (r: Result<Step<Call>, ScriptError>)
        ensures
            outcome_view(r) == plan(self@, spec_read_virtualenv(*path)),
    {
        let op = Operation::ReadVirtualenv;
        let path = required_str_arg(op, "path", path)?;
        Ok(self.step(Call::ReadVirtualenv { path }))
    }
}

/// Takes `path` against `directory` with `Path::join` of std: a relative
/// path is put under the directory and an absolute one stands for itself.
/// What is relative, and how the two are put together, is the platform's
/// matter: nothing is claimed of the result.
#[verifier::external_body]
fn against_directory(directory: &str, path: &str) -> (r: String) {
    std::path::Path::new(directory).join(path).to_string_lossy().into_owned()
}

/// The request that `setup_py_install` makes of its arguments, once the
/// package's path has been taken against the working directory.
pub open spec fn spec_setup_py_install(
    env: EnvironmentContext,
    resolved_path: Seq<char>,
    package_path: Value,
    extra_envs: Value,
    extra_global_arguments: Value,
) -> Result<CallModel, ErrorModel> {
    let op = Operation::SetupPyInstall;
    match spec_required_str_arg(op, "package_path"@, package_path) {
        Err(e) => Err(e),
        Ok(_) => match spec_optional_dict_arg(op, "extra_envs"@, extra_envs) {
            Err(e) => Err(e),
            Ok(entries) => match spec_optional_list_arg(
                op,
                "extra_global_arguments"@,
                extra_global_arguments,
            ) {
                Err(e) => Err(e),
                Ok(items) => Ok(
                    CallModel::SetupPyInstall {
                        package_path: resolved_path,
                        verbose: env.verbose,
                        extra_envs: entries_or_none(entries),
                        extra_global_arguments: items_or_none(items),
                    },
                ),
            },
        },
    }
}

/// What `setup_py_install` takes from the script, validated: the package's
/// path as the script wrote it, the additions to the environment and the
/// extra arguments.
fn setup_py_arguments(
    package_path: &Value,
    extra_envs: &Value,
    extra_global_arguments: &Value,
) -> (r: Result<(String, Vec<(String, String)>, Vec<String>), ScriptError>)
    ensures
        forall|env: EnvironmentContext, resolved: Seq<char>|
            match #[trigger] spec_setup_py_install(
                env,
                resolved,
                *package_path,
                *extra_envs,
                *extra_global_arguments,
            ) {
                Err(e) => r is Err && r->Err_0@ == e,
                Ok(call) => r is Ok && r->Ok_0.0@ == spec_required_str_arg(
                    Operation::SetupPyInstall,
                    "package_path"@,
                    *package_path,
                )->Ok_0 && call == (CallModel::SetupPyInstall {
                    package_path: resolved,
                    verbose: env.verbose,
                    extra_envs: text_pairs(r->Ok_0.1@),
                    extra_global_arguments: texts(r->Ok_0.2@),
                }),
            },
{
    let op = Operation::SetupPyInstall;
    let path = required_str_arg(op, "package_path", package_path)?;
    let extra_envs = match optional_dict_arg(op, "extra_envs", extra_envs)? {
        Some(entries) => entries,
        None => Vec::new(),
    };
    let extra_global_arguments = match optional_list_arg(
        op,
        "extra_global_arguments",
        extra_global_arguments,
    )? {
        Some(items) => items,
        None => Vec::new(),
    };
    proof {
        assert(text_pairs(Seq::<(String, String)>::empty()) =~= Seq::empty());
        assert(texts(Seq::<String>::empty()) =~= Seq::empty());
    }
    Ok((path, extra_envs, extra_global_arguments))
}

impl<D, C> PythonDistribution<D, C> {
    /// `setup_py_install(package_path, extra_envs=None,
    /// extra_global_arguments=None)`: what the `setup.py` of a package
    /// installs. The arguments are validated as for every operation. The
    /// path of the request is the script's path taken against the working
    /// directory; which text that is, the platform's rules for paths
    /// decide: all else of the request is stated.
    pub fn setup_py_install(
        &self,
        env: &EnvironmentContext,
        package_path: &Value,
        extra_envs: &Value,
        extra_global_arguments: &Value,
    ) -> (r: Result<Step<Call>, ScriptError>)
        ensures
            exists|resolved: Seq<char>|
                outcome_view(r) == plan(
                    self@,
                    #[trigger] spec_setup_py_install(
                        *env,
                        resolved,
                        *package_path,
                        *extra_envs,
                        *extra_global_arguments,
                    ),
                ),
    {
        match setup_py_arguments(package_path, extra_envs, extra_global_arguments) {
            Err(e) => {
                proof {
                    let none = Seq::<char>::empty();
                    assert(spec_setup_py_install(
                        *env,
                        none,
                        *package_path,
                        *extra_envs,
                        *extra_global_arguments,
                    ) is Err);
                }
                Err(e)
            },
            Ok((path, extra_envs_found, arguments_found)) => {
                let package_path_resolved = against_directory(env.cwd.as_str(), path.as_str());
                proof {
                    assert(spec_setup_py_install(
                        *env,
                        package_path_resolved@,
                        *package_path,
                        *extra_envs,
                        *extra_global_arguments,
                    ) is Ok);
                }
                Ok(
                    self.step(
                        Call::SetupPyInstall {
                            package_path: package_path_resolved,
                            verbose: env.verbose,
                            extra_envs: extra_envs_found,
                            extra_global_arguments: arguments_found,
                        },
                    ),
                )
            },
        }
    }
}

/// A filter's name that is not recognized is refused, and the message
/// holds the name. (The arguments' shapes are examined before: the law
/// speaks of calls that pass that check.)
pub proof fn lemma_unknown_filter_refused(filter: Value, preferred_variants: Value)
    requires
        filter is Str,
        spec_filter(filter->Str_0@) is None,
        spec_optional_dict_arg(
            Operation::ExtensionModules,
            "preferred_variants"@,
            preferred_variants,
        ) is Ok,
    ensures
        spec_extension_modules(filter, preferred_variants) is Err,
        contains_text(
            spec_extension_modules(filter, preferred_variants)->Err_0.message,
            filter->Str_0@,
        ),
{
    lemma_refused_name_is_in_message(Operation::ExtensionModules, filter->Str_0@);
}

/// Of one list of data files, the listing without tests is a part of the
/// listing with tests: the listing with tests hands on the whole list, the
/// one without is no longer, and each of its records is in the other. It
/// is shorter as soon as one record of the list belongs to a test package
/// of the standard library.
pub proof fn lemma_package_resources_without_tests(found: Seq<PythonResource>)
    ensures
        (CallModel::PackageResources { include_test: true }).selection(found) == found,
        (CallModel::PackageResources { include_test: false }).selection(found).len() <= (
        CallModel::PackageResources { include_test: true }).selection(found).len(),
        forall|i: int|
            0 <= i < (CallModel::PackageResources { include_test: false }).selection(found).len()
                ==> (CallModel::PackageResources { include_test: true }).selection(
                found,
            ).contains(
                #[trigger] (CallModel::PackageResources { include_test: false }).selection(
                    found,
                )[i],
            ),
        (exists|i: int| 0 <= i < found.len() && is_test_resource(#[trigger] found[i])) ==> (
        CallModel::PackageResources { include_test: false }).selection(found).len() < (
        CallModel::PackageResources { include_test: true }).selection(found).len(),
{
    lemma_listing_without_tests_is_part(found);
}

/// Every error of a listing operation names the operation: whatever the
/// arguments are, a request that is refused is refused under the label of
/// the operation that was called, and so is a call that failed.
pub proof fn lemma_errors_name_their_operation(
    env: EnvironmentContext,
    first: Value,
    second: Value,
    third: Value,
    resolved_path: Seq<char>,
    detail: Seq<char>,
    call: CallModel,
)
    ensures
        spec_extension_modules(first, second) is Err ==> spec_extension_modules(
            first,
            second,
        )->Err_0.label == Operation::ExtensionModules.label(),
        spec_package_resources(first) is Err ==> spec_package_resources(first)->Err_0.label
            == Operation::PackageResources.label(),
        spec_pip_install(env, first, second) is Err ==> spec_pip_install(
            env,
            first,
            second,
        )->Err_0.label == Operation::PipInstall.label(),
        spec_read_package_root(first, second) is Err ==> spec_read_package_root(
            first,
            second,
        )->Err_0.label == Operation::ReadPackageRoot.label(),
        spec_read_virtualenv(first) is Err ==> spec_read_virtualenv(first)->Err_0.label
            == Operation::ReadVirtualenv.label(),
        spec_setup_py_install(env, resolved_path, first, second, third) is Err
            ==> spec_setup_py_install(env, resolved_path, first, second, third)->Err_0.label
            == Operation::SetupPyInstall.label(),
        call.operation().failure(detail).label == call.operation().label(),
{
}

} // verus!
