use python_distribution::construct::EnvironmentContext;
use python_distribution::distribution::PythonDistribution;
use python_distribution::error::{ErrorCode, Operation, ScriptError};
use python_distribution::executable::{ExecutableArguments, ExecutableRequest};
use python_distribution::location::PythonDistributionLocation;
use python_distribution::pipeline::Step;
use python_distribution::policy::{DistributionFlavor, ExtensionModuleFilter, ResourcesPolicy};
use python_distribution::value::Value;

type Handle = PythonDistribution<String, u32>;

fn env() -> EnvironmentContext {
    EnvironmentContext {
        cwd: "/work".to_string(),
        build_host_triple: "x86_64-unknown-linux-gnu".to_string(),
        build_target_triple: "aarch64-unknown-linux-gnu".to_string(),
        python_distributions_path: "/work/dists".to_string(),
        verbose: false,
    }
}

fn handle() -> Handle {
    Handle::from_location(
        DistributionFlavor::Standalone,
        PythonDistributionLocation::Url { url: "u".to_string(), sha256: "s".to_string() },
        "/work/dists",
    )
}

fn s(text: &str) -> Value {
    Value::Str(text.to_string())
}

/// The arguments with the defaults that a script gets.
fn defaults(name: &str) -> ExecutableArguments {
    ExecutableArguments {
        name: s(name),
        resources_policy: s("in-memory-only"),
        config: Value::NoValue,
        extension_module_filter: s("all"),
        preferred_extension_module_variants: Value::NoValue,
        include_sources: Value::Bool(true),
        include_resources: Value::Bool(false),
        include_test: Value::Bool(false),
    }
}

fn request(step: Result<Step<ExecutableRequest>, ScriptError>) -> ExecutableRequest {
    match step.unwrap() {
        Step::Resolve(_, request) => request,
        Step::Invoke(request) => request,
    }
}

#[test]
fn request_with_defaults() {
    let dist = handle();
    let step = dist.to_python_executable(&env(), &defaults("myapp"));
    assert!(matches!(step, Ok(Step::Resolve(_, _))));
    assert_eq!(
        request(step),
        ExecutableRequest {
            host_triple: "x86_64-unknown-linux-gnu".to_string(),
            target_triple: "aarch64-unknown-linux-gnu".to_string(),
            name: "myapp".to_string(),
            resources_policy: ResourcesPolicy::InMemoryOnly,
            config_given: false,
            extension_module_filter: ExtensionModuleFilter::All,
            preferred_extension_module_variants: None,
            include_sources: true,
            include_resources: false,
            include_test: false,
        }
    );
}

#[test]
fn request_with_everything_given() {
    let mut dist = handle();
    dist.ensure_distribution_resolved(Ok("snapshot".to_string())).unwrap();
    let arguments = ExecutableArguments {
        name: s("tool"),
        resources_policy: s("prefer-in-memory-fallback-filesystem-relative:lib"),
        config: Value::Object("PythonInterpreterConfig".to_string()),
        extension_module_filter: s("no-libraries"),
        preferred_extension_module_variants: Value::Dict(vec![(s("readline"), s("libedit"))]),
        include_sources: Value::Bool(false),
        include_resources: Value::Bool(true),
        include_test: Value::Bool(true),
    };
    let step = dist.to_python_executable(&env(), &arguments);
    assert!(matches!(step, Ok(Step::Invoke(_))));
    assert_eq!(
        request(step),
        ExecutableRequest {
            host_triple: "x86_64-unknown-linux-gnu".to_string(),
            target_triple: "aarch64-unknown-linux-gnu".to_string(),
            name: "tool".to_string(),
            resources_policy: ResourcesPolicy::PreferInMemoryFallbackFilesystemRelative(
                "lib".to_string()
            ),
            config_given: true,
            extension_module_filter: ExtensionModuleFilter::NoLibraries,
            preferred_extension_module_variants: Some(vec![(
                "readline".to_string(),
                "libedit".to_string()
            )]),
            include_sources: false,
            include_resources: true,
            include_test: true,
        }
    );
}

#[test]
fn policy_and_filter_are_refused_before_anything_is_resolved() {
    let dist = handle();
    let mut arguments = defaults("myapp");
    arguments.resources_policy = s("on-disk");
    arguments.extension_module_filter = s("some");
    let err = dist.to_python_executable(&env(), &arguments).unwrap_err();
    assert_eq!(err.code, ErrorCode::Build);
    assert_eq!(err.message, "invalid value for Python Resources Policy: on-disk");
    assert_eq!(err.label, "to_python_executable()");

    arguments.resources_policy = s("filesystem-relative-only:lib");
    let err = dist.to_python_executable(&env(), &arguments).unwrap_err();
    assert_eq!(err.code, ErrorCode::IncorrectParameterType);
    assert_eq!(err.message, "some is not a valid extension module filter");
    assert!(err.message.contains("some"));
    assert_eq!(err.label, "to_python_executable()");
    assert!(!dist.is_resolved());
}

#[test]
fn shapes_are_examined_in_the_order_of_the_arguments() {
    let dist = handle();
    let bad = || ExecutableArguments {
        name: Value::Int(1),
        resources_policy: Value::Int(2),
        config: Value::Int(3),
        extension_module_filter: Value::Int(4),
        preferred_extension_module_variants: Value::Int(5),
        include_sources: Value::Int(6),
        include_resources: Value::Int(7),
        include_test: Value::Int(8),
    };
    let mut arguments = bad();
    let mut messages = vec![];
    let good = defaults("x");
    let mut next = |arguments: &ExecutableArguments| {
        dist.to_python_executable(&env(), arguments).unwrap_err().message
    };
    messages.push(next(&arguments));
    arguments.name = s("x");
    messages.push(next(&arguments));
    arguments.resources_policy = s("bogus");
    messages.push(next(&arguments));
    arguments.config = good.config;
    messages.push(next(&arguments));
    arguments.extension_module_filter = s("bogus");
    messages.push(next(&arguments));
    arguments.preferred_extension_module_variants = Value::NoValue;
    messages.push(next(&arguments));
    arguments.include_sources = Value::Bool(true);
    messages.push(next(&arguments));
    arguments.include_resources = Value::Bool(true);
    messages.push(next(&arguments));
    arguments.include_test = Value::Bool(true);
    messages.push(next(&arguments));
    assert_eq!(
        messages,
        vec![
            "function expects a string for name; got type int",
            "function expects a string for resources_policy; got type int",
            "function expects a PythonInterpreterConfig for config; got type int",
            "function expects a string for extension_module_filter; got type int",
            "function expects an optional dict for preferred_extension_module_variants; got type int",
            "function expects an required bool for include_sources; got type int",
            "function expects an required bool for include_resources; got type int",
            "function expects an required bool for include_test; got type int",
            "invalid value for Python Resources Policy: bogus",
        ]
    );
}

#[test]
fn a_builder_that_could_not_be_made() {
    let built: Result<u8, ScriptError> =
        Operation::ToPythonExecutable.outcome(Err("no libpython for target".to_string()));
    let err = built.unwrap_err();
    assert_eq!(err.code, ErrorCode::Build);
    assert_eq!(err.message, "no libpython for target");
    assert_eq!(err.label, "to_python_executable()");
    let built: Result<u8, ScriptError> = Operation::ToPythonExecutable.outcome(Ok(9));
    assert_eq!(built, Ok(9));
}
