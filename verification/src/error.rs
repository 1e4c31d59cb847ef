//! The error record that every failing operation hands to the script.

use vstd::prelude::*;
use vstd::string::*;
use crate::text::{contains_text, lemma_middle_occurs};

verus! {

/// The stable, machine-readable code of an error.
#[derive(Clone, Copy, Debug, PartialEq, Eq, Structural)]
pub enum ErrorCode {
    /// A script argument has the wrong shape.
    IncorrectParameterType,
    /// A value was refused, the distribution could not be obtained, or a
    /// call on the distribution failed.
    Build,
    /// Listing what the distribution bundles failed.
    Distribution,
    /// `pip install` failed.
    PipInstall,
    /// Scanning a package root failed.
    PackageRoot,
    /// Reading a virtual environment failed.
    Virtualenv,
    /// `setup.py install` failed.
    SetupPy,
}

/// Reads `INCORRECT_PARAMETER_TYPE_ERROR_CODE` of `starlark::values::error`,
/// the code that the script engine itself gives to an argument of the
/// wrong type: the constant is `CV02`.
#[verifier::external_body]
fn incorrect_parameter_type_code() -> (r: &'static str)
    ensures
        r@ == "CV02"@,
{
    starlark::values::error::INCORRECT_PARAMETER_TYPE_ERROR_CODE
}

impl ErrorCode {
    /// The code as the script sees it.
    pub open spec fn text(self) -> Seq<char> {
        match self {
            ErrorCode::IncorrectParameterType => "CV02"@,
            ErrorCode::Build => "PYOXIDIZER_BUILD"@,
            ErrorCode::Distribution => "PYTHON_DISTRIBUTION"@,
            ErrorCode::PipInstall => "PIP_INSTALL_ERROR"@,
            ErrorCode::PackageRoot => "PACKAGE_ROOT_ERROR"@,
            ErrorCode::Virtualenv => "VIRTUALENV_ERROR"@,
            ErrorCode::SetupPy => "SETUP_PY_ERROR"@,
        }
    }

    /// The code as the script sees it.
    pub fn as_str(&self) -> (r: &'static str)
        ensures
            r@ == self.text(),
    {
        match self {
            ErrorCode::IncorrectParameterType => incorrect_parameter_type_code(),
            ErrorCode::Build => "PYOXIDIZER_BUILD",
            ErrorCode::Distribution => "PYTHON_DISTRIBUTION",
            ErrorCode::PipInstall => "PIP_INSTALL_ERROR",
            ErrorCode::PackageRoot => "PACKAGE_ROOT_ERROR",
            ErrorCode::Virtualenv => "VIRTUALENV_ERROR",
            ErrorCode::SetupPy => "SETUP_PY_ERROR",
        }
    }
}

/// An error as contracts speak of it.
pub struct ErrorModel {
    pub code: ErrorCode,
    pub message: Seq<char>,
    pub label: Seq<char>,
}

/// A failure of an operation: a code, a message for the script's author and
/// a label that names what failed.
#[derive(Clone, Debug, PartialEq, Eq)]
pub struct ScriptError {
    pub code: ErrorCode,
    pub message: String,
    pub label: String,
}

impl View for ScriptError {
    type V = ErrorModel;

    open spec fn view(&self) -> ErrorModel {
        ErrorModel { code: self.code, message: self.message@, label: self.label@ }
    }
}

impl ScriptError {
    /// An error with the given code, message and label.
    pub fn new(code: ErrorCode, message: String, label: String) -> (r: ScriptError)
        ensures
            r@ == (ErrorModel { code, message: message@, label: label@ }),
    {
        ScriptError { code, message, label }
    }
}

/// The operations in which an error can come up.
#[derive(Clone, Copy, Debug, PartialEq, Eq, Structural)]
pub enum Operation {
    /// The constructor of a handle for a distribution of the registry.
    DefaultDistribution,
    /// The constructor of a handle for a distribution at a given place.
    ExplicitDistribution,
    /// Obtaining the distribution.
    ResolveDistribution,
    ExtensionModules,
    SourceModules,
    PackageResources,
    PipInstall,
    ReadPackageRoot,
    ReadVirtualenv,
    SetupPyInstall,
    ToPythonExecutable,
}

impl Operation {
    /// The name of the operation as a script writes it.
    pub open spec fn label(self) -> Seq<char> {
        match self {
            Operation::DefaultDistribution => "default_python_distribution()"@,
            Operation::ExplicitDistribution => "PythonDistribution()"@,
            Operation::ResolveDistribution => "resolve_distribution()"@,
            Operation::ExtensionModules => "extension_modules()"@,
            Operation::SourceModules => "source_modules()"@,
            Operation::PackageResources => "package_resources()"@,
            Operation::PipInstall => "pip_install()"@,
            Operation::ReadPackageRoot => "read_package_root()"@,
            Operation::ReadVirtualenv => "read_virtualenv()"@,
            Operation::SetupPyInstall => "setup_py_install()"@,
            Operation::ToPythonExecutable => "to_python_executable()"@,
        }
    }

    /// The code of the operation's failure.
    pub open spec fn code(self) -> ErrorCode {
        match self {
            Operation::DefaultDistribution => ErrorCode::Build,
            Operation::ExplicitDistribution => ErrorCode::Build,
            Operation::ResolveDistribution => ErrorCode::Build,
            Operation::ExtensionModules => ErrorCode::Build,
            Operation::SourceModules => ErrorCode::Distribution,
            Operation::PackageResources => ErrorCode::Distribution,
            Operation::PipInstall => ErrorCode::PipInstall,
            Operation::ReadPackageRoot => ErrorCode::PackageRoot,
            Operation::ReadVirtualenv => ErrorCode::Virtualenv,
            Operation::SetupPyInstall => ErrorCode::SetupPy,
            Operation::ToPythonExecutable => ErrorCode::Build,
        }
    }

    /// What the message of the operation's failure begins with, before what
    /// the collaborator reported.
    pub open spec fn message_prefix(self) -> Seq<char> {
        match self {
            Operation::PipInstall => "error running pip install: "@,
            Operation::ReadPackageRoot => "could not find resources: "@,
            Operation::ReadVirtualenv => "could not find resources: "@,
            _ => ""@,
        }
    }

    /// The error for a failure of the operation of which the collaborator
    /// reported `detail`.
    pub open spec fn failure(self, detail: Seq<char>) -> ErrorModel {
        ErrorModel {
            code: self.code(),
            message: self.message_prefix() + detail,
            label: self.label(),
        }
    }

    /// The name of the operation as a script writes it.
    pub fn label_str(self) -> (r: &'static str)
        ensures
            r@ == self.label(),
    {
        match self {
            Operation::DefaultDistribution => "default_python_distribution()",
            Operation::ExplicitDistribution => "PythonDistribution()",
            Operation::ResolveDistribution => "resolve_distribution()",
            Operation::ExtensionModules => "extension_modules()",
            Operation::SourceModules => "source_modules()",
            Operation::PackageResources => "package_resources()",
            Operation::PipInstall => "pip_install()",
            Operation::ReadPackageRoot => "read_package_root()",
            Operation::ReadVirtualenv => "read_virtualenv()",
            Operation::SetupPyInstall => "setup_py_install()",
            Operation::ToPythonExecutable => "to_python_executable()",
        }
    }

    /// An error of the operation: its label is the operation's name.
    pub fn error(self, code: ErrorCode, message: String) -> (r: ScriptError)
        ensures
            r@ == (ErrorModel { code, message: message@, label: self.label() }),
    {
        ScriptError::new(code, message, String::from_str(self.label_str()))
    }

    /// The error record for a failure of the operation of which the
    /// collaborator reported `detail`.
    pub fn fail(self, detail: &str) -> (r: ScriptError)
        ensures
            r@ == self.failure(detail@),
    {
        let (code, prefix) = match self {
            Operation::SourceModules => (ErrorCode::Distribution, ""),
            Operation::PackageResources => (ErrorCode::Distribution, ""),
            Operation::PipInstall => (ErrorCode::PipInstall, "error running pip install: "),
            Operation::ReadPackageRoot => (ErrorCode::PackageRoot, "could not find resources: "),
            Operation::ReadVirtualenv => (ErrorCode::Virtualenv, "could not find resources: "),
            Operation::SetupPyInstall => (ErrorCode::SetupPy, ""),
            _ => (ErrorCode::Build, ""),
        };
        let mut message = String::from_str(prefix);
        message.append(detail);
        self.error(code, message)
    }

    /// What the operation hands to the script, given how the collaborator
    /// ended: what it produced, or the operation's error around what it
    /// reported.
    pub fn outcome<T>(self, ended: Result<T, String>) -> (r: Result<T, ScriptError>)
        ensures
            ended is Ok ==> r is Ok && r->Ok_0 == ended->Ok_0,
            ended is Err ==> r is Err && r->Err_0@ == self.failure(ended->Err_0@),
    {
        match ended {
            Ok(t) => Ok(t),
            Err(e) => Err(self.fail(e.as_str())),
        }
    }
}

/// A result as contracts speak of it: the view of what it holds.
pub open spec fn outcome_view<T: View, E: View>(r: Result<T, E>) -> Result<T::V, E::V> {
    match r {
        Ok(t) => Ok(t@),
        Err(e) => Err(e@),
    }
}

/// A script can tell a step of packaging that failed from a distribution
/// that could not be had: the failures of the installer, of `setup.py`, of
/// a virtual environment and of a scan each have a code of their own, and
/// none of them is the code of a failed resolution.
pub proof fn lemma_packaging_failures_have_their_own_code(detail: Seq<char>, other: Seq<char>)
    ensures
        Operation::PipInstall.failure(detail).code != Operation::ResolveDistribution.failure(
            other,
        ).code,
        Operation::SetupPyInstall.failure(detail).code != Operation::ResolveDistribution.failure(
            other,
        ).code,
        Operation::ReadVirtualenv.failure(detail).code != Operation::ResolveDistribution.failure(
            other,
        ).code,
        Operation::ReadPackageRoot.failure(detail).code != Operation::ResolveDistribution.failure(
            other,
        ).code,
        Operation::PipInstall.code() != Operation::SetupPyInstall.code(),
        Operation::PipInstall.code() != Operation::ReadVirtualenv.code(),
        Operation::PipInstall.code() != Operation::ReadPackageRoot.code(),
        Operation::SetupPyInstall.code() != Operation::ReadVirtualenv.code(),
        Operation::SetupPyInstall.code() != Operation::ReadPackageRoot.code(),
        Operation::ReadVirtualenv.code() != Operation::ReadPackageRoot.code(),
{
}

/// The message of an operation's failure holds what the collaborator
/// reported.
pub proof fn lemma_failure_reports_detail(operation: Operation, detail: Seq<char>)
    ensures
        contains_text(operation.failure(detail).message, detail),
{
    let nothing = Seq::<char>::empty();
    lemma_middle_occurs(operation.message_prefix(), detail, nothing);
    assert(operation.message_prefix() + detail + nothing =~= operation.message_prefix() + detail);
}

} // verus!
