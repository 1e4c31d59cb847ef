use python_distribution::construct::EnvironmentContext;
use python_distribution::distribution::{PythonDistribution, ResolveRequest};
use python_distribution::error::{ErrorCode, Operation, ScriptError};
use python_distribution::location::{
    DistributionRegistry, PythonDistributionLocation, PythonDistributionRecord,
};
use python_distribution::operations::Call;
use python_distribution::pipeline::Step;
use python_distribution::policy::{DistributionFlavor, ExtensionModuleFilter};
use python_distribution::resource::{
    PythonExtensionModule, PythonPackageResource, PythonResource, PythonSourceModule,
};
use python_distribution::value::Value;

type Handle = PythonDistribution<String, u32>;
type Found = Result<Vec<PythonResource>, String>;

const HOST: &str = "x86_64-unknown-linux-gnu";

fn env() -> EnvironmentContext {
    EnvironmentContext {
        cwd: "/work".to_string(),
        build_host_triple: HOST.to_string(),
        build_target_triple: HOST.to_string(),
        python_distributions_path: "/work/dists".to_string(),
        verbose: true,
    }
}

fn registry() -> DistributionRegistry {
    DistributionRegistry {
        records: vec![PythonDistributionRecord {
            target_triple: HOST.to_string(),
            flavor: DistributionFlavor::Standalone,
            location: PythonDistributionLocation::Url {
                url: "https://example.com/cpython.tar.zst".to_string(),
                sha256: "abc".to_string(),
            },
        }],
    }
}

fn default_python_distribution() -> Handle {
    Handle::default_python_distribution(
        &env(),
        &registry(),
        &Value::Str("standalone".to_string()),
        &Value::NoValue,
    )
    .unwrap()
}

fn s(text: &str) -> Value {
    Value::Str(text.to_string())
}

fn list(items: &[&str]) -> Value {
    Value::List(items.iter().map(|i| s(i)).collect())
}

fn dict(entries: &[(&str, &str)]) -> Value {
    Value::Dict(entries.iter().map(|(k, v)| (s(k), s(v))).collect())
}

fn module(name: &str, is_package: bool, source: &str) -> PythonResource {
    PythonResource::SourceModule(PythonSourceModule {
        name: name.to_string(),
        source: source.as_bytes().to_vec(),
        is_package,
    })
}

fn data(leaf_package: &str, relative_name: &str) -> PythonResource {
    PythonResource::PackageResource(PythonPackageResource {
        leaf_package: leaf_package.to_string(),
        relative_name: relative_name.to_string(),
        data: vec![1, 2, 3],
    })
}

fn extension(name: &str) -> PythonResource {
    PythonResource::ExtensionModule(PythonExtensionModule {
        name: name.to_string(),
        is_package: false,
        variant: None,
    })
}

/// Runs one operation to its end: resolves where that is asked for, then
/// calls the collaborator, and counts both.
struct Host {
    resolutions: usize,
    calls: usize,
    resolves_to: Result<String, String>,
}

impl Host {
    fn new() -> Host {
        Host { resolutions: 0, calls: 0, resolves_to: Ok("snapshot".to_string()) }
    }

    fn run(
        &mut self,
        dist: &mut Handle,
        step: Result<Step<Call>, ScriptError>,
        found: Found,
    ) -> Result<Vec<PythonResource>, ScriptError> {
        let call = match step? {
            Step::Resolve(request, call) => {
                self.resolutions += 1;
                assert_eq!(request.dest_dir, "/work/dists");
                dist.after_resolution(call, self.resolves_to.clone())?
            }
            Step::Invoke(call) => call,
        };
        self.calls += 1;
        call.complete(found)
    }
}

fn stdlib_data() -> Vec<PythonResource> {
    vec![
        data("ensurepip._bundled", "pip.whl"),
        data("test", "cfgparser.1"),
        data("lib2to3", "Grammar.txt"),
        data("test.support", "x.pem"),
        data("unittest.test.testmock", "y.txt"),
        data("testing", "not-a-test-package.txt"),
        data("idlelib.idle_test", "README.txt"),
        data("pydoc_data", "_pydoc.css"),
    ]
}

#[test]
fn test_source_modules() {
    let mut dist = default_python_distribution();
    let step = dist.source_modules();
    let mods = Host::new().run(&mut dist, step, Ok(vec![module("os", false, "# os")]));
    assert_eq!(mods.unwrap(), vec![module("os", false, "# os")]);
}

#[test]
fn test_package_resources() {
    let mut host = Host::new();

    let mut dist = default_python_distribution();
    let step = dist.package_resources(&Value::Bool(false));
    let data_default = host.run(&mut dist, step, Ok(stdlib_data())).unwrap();

    let mut dist = default_python_distribution();
    let step = dist.package_resources(&Value::Bool(true));
    let data_tests = host.run(&mut dist, step, Ok(stdlib_data())).unwrap();

    let default_length = data_default.len();
    let data_length = data_tests.len();

    assert!(default_length < data_length);

    assert_eq!(data_tests, stdlib_data());
    assert_eq!(
        data_default,
        vec![
            data("ensurepip._bundled", "pip.whl"),
            data("lib2to3", "Grammar.txt"),
            data("testing", "not-a-test-package.txt"),
            data("pydoc_data", "_pydoc.css"),
        ]
    );
    for record in &data_default {
        assert!(data_tests.contains(record));
    }
}

#[test]
fn test_pip_install_simple() {
    let mut dist = default_python_distribution();
    let step = dist.pip_install(&env(), &list(&["pyflakes==2.1.1"]), &Value::NoValue);
    match &step {
        Ok(Step::Resolve(_, Call::PipInstall { verbose, args, extra_envs })) => {
            assert!(*verbose);
            assert_eq!(args, &vec!["pyflakes==2.1.1".to_string()]);
            assert!(extra_envs.is_empty());
        }
        other => panic!("unexpected step {:?}", other),
    }
    let installed = vec![
        module("pyflakes", true, "__version__ = '2.1.1'"),
        module("pyflakes.api", false, ""),
        data("pyflakes", "LICENSE"),
    ];
    let resources = Host::new().run(&mut dist, step, Ok(installed)).unwrap();
    assert!(!resources.is_empty());

    let mut it = resources.into_iter();

    let v = it.next().unwrap();
    match v {
        PythonResource::SourceModule(x) => {
            assert_eq!(x.name, "pyflakes");
            assert!(x.is_package);
        }
        other => panic!("unexpected record {:?}", other),
    }
}

#[test]
fn test_read_package_root_simple() {
    let mut dist = default_python_distribution();
    let step = dist.read_package_root(&s("/tmp/pyoxidizer-test"), &list(&["foo", "bar"]));
    let discovered = vec![
        module("bar", true, "# bar"),
        module("baz", false, "# baz"),
        module("extra", true, "# extra"),
        module("foo", false, "# foo"),
    ];
    let resources = Host::new().run(&mut dist, step, Ok(discovered)).unwrap();

    assert_eq!(resources.len(), 2);

    let mut it = resources.into_iter();

    let v = it.next().unwrap();
    match v {
        PythonResource::SourceModule(x) => {
            assert_eq!(x.name, "bar");
            assert!(x.is_package);
            assert_eq!(x.source, b"# bar");
        }
        other => panic!("unexpected record {:?}", other),
    }

    let v = it.next().unwrap();
    match v {
        PythonResource::SourceModule(x) => {
            assert_eq!(x.name, "foo");
            assert!(!x.is_package);
            assert_eq!(x.source, b"# foo");
        }
        other => panic!("unexpected record {:?}", other),
    }
}

#[test]
fn read_package_root_keeps_what_lies_under_a_package_in_discovery_order() {
    let mut dist = default_python_distribution();
    let step = dist.read_package_root(&s("root"), &list(&["foo", "bar"]));
    let discovered = vec![
        module("foo.sub.leaf", false, ""),
        module("foobar", false, ""),
        data("bar.data", "f.txt"),
        extension("bar"),
        module("fo", false, ""),
        data("baz", "bar"),
        module("bar.", false, ""),
        module("foo", true, ""),
    ];
    let resources = Host::new().run(&mut dist, step, Ok(discovered)).unwrap();
    assert_eq!(
        resources,
        vec![
            module("foo.sub.leaf", false, ""),
            data("bar.data", "f.txt"),
            extension("bar"),
            module("bar.", false, ""),
            module("foo", true, ""),
        ]
    );
}

#[test]
fn read_package_root_without_packages_keeps_nothing() {
    let mut dist = default_python_distribution();
    let step = dist.read_package_root(&s("root"), &list(&[]));
    let resources = Host::new().run(&mut dist, step, Ok(vec![module("a", false, "")])).unwrap();
    assert!(resources.is_empty());
}

#[test]
fn extension_modules_request() {
    let dist = default_python_distribution();
    let step = dist
        .extension_modules(&s("no-gpl"), &dict(&[("readline", "libedit"), ("_ssl", "openssl")]))
        .unwrap();
    match step {
        Step::Resolve(request, Call::ExtensionModules { filter, preferred_variants }) => {
            assert_eq!(request.flavor, DistributionFlavor::Standalone);
            assert_eq!(filter, ExtensionModuleFilter::NoGpl);
            assert_eq!(
                preferred_variants,
                Some(vec![
                    ("readline".to_string(), "libedit".to_string()),
                    ("_ssl".to_string(), "openssl".to_string()),
                ])
            );
        }
        other => panic!("unexpected step {:?}", other),
    }
    match dist.extension_modules(&s("all"), &Value::NoValue).unwrap() {
        Step::Resolve(_, Call::ExtensionModules { filter, preferred_variants }) => {
            assert_eq!(filter, ExtensionModuleFilter::All);
            assert_eq!(preferred_variants, None);
        }
        other => panic!("unexpected step {:?}", other),
    }
}

#[test]
fn extension_modules_refuses_an_unknown_filter() {
    let dist = default_python_distribution();
    let err = dist.extension_modules(&s("everything"), &Value::NoValue).unwrap_err();
    assert_eq!(err.code, ErrorCode::IncorrectParameterType);
    assert_eq!(err.message, "everything is not a valid extension module filter");
    assert!(err.message.contains("everything"));
    assert_eq!(err.label, "extension_modules()");

    // Shapes come first.
    let err = dist.extension_modules(&s("everything"), &Value::Int(1)).unwrap_err();
    assert_eq!(
        err.message,
        "function expects an optional dict for preferred_variants; got type int"
    );
    let err = dist.extension_modules(&Value::Int(1), &Value::NoValue).unwrap_err();
    assert_eq!(err.message, "function expects a string for filter; got type int");
}

#[test]
fn extension_modules_hands_on_the_whole_list() {
    let mut dist = default_python_distribution();
    let step = dist.extension_modules(&s("minimal"), &Value::NoValue);
    let found = vec![extension("_zlib"), extension("_abc"), extension("_zlib")];
    let modules = Host::new().run(&mut dist, step, Ok(found)).unwrap();
    assert_eq!(modules, vec![extension("_zlib"), extension("_abc"), extension("_zlib")]);
}

#[test]
fn pip_install_with_environment() {
    let dist = default_python_distribution();
    let mut quiet = env();
    quiet.verbose = false;
    let step = dist
        .pip_install(&quiet, &list(&["-r", "requirements.txt"]), &dict(&[("CC", "clang")]))
        .unwrap();
    match step {
        Step::Resolve(_, Call::PipInstall { verbose, args, extra_envs }) => {
            assert!(!verbose);
            assert_eq!(args, vec!["-r".to_string(), "requirements.txt".to_string()]);
            assert_eq!(extra_envs, vec![("CC".to_string(), "clang".to_string())]);
        }
        other => panic!("unexpected step {:?}", other),
    }
}

#[test]
fn pip_install_validation() {
    let dist = default_python_distribution();
    let err = dist.pip_install(&env(), &s("pyflakes"), &Value::NoValue).unwrap_err();
    assert_eq!(err.message, "function expects a list for args; got type string");
    assert_eq!(err.label, "pip_install()");
    let err = dist
        .pip_install(&env(), &Value::List(vec![s("a"), Value::Int(1), Value::Bool(true)]), &Value::NoValue)
        .unwrap_err();
    assert_eq!(err.message, "list args expects values of type string; got int");
    assert_eq!(err.label, "pip_install()");
    let err = dist
        .pip_install(&env(), &list(&[]), &Value::Dict(vec![(s("a"), s("b")), (Value::Int(1), Value::Bool(true))]))
        .unwrap_err();
    assert_eq!(err.message, "dict extra_envs expects keys of type string; got int");
    let err = dist
        .pip_install(&env(), &list(&[]), &Value::Dict(vec![(s("a"), Value::NoValue)]))
        .unwrap_err();
    assert_eq!(err.message, "dict extra_envs expects values of type string; got NoneType");
}

#[test]
fn read_virtualenv_request_and_failure() {
    let mut dist = default_python_distribution();
    let step = dist.read_virtualenv(&s("/venvs/app"));
    match &step {
        Ok(Step::Resolve(_, Call::ReadVirtualenv { path })) => assert_eq!(path, "/venvs/app"),
        other => panic!("unexpected step {:?}", other),
    }
    let err = Host::new()
        .run(&mut dist, step, Err("no such directory".to_string()))
        .unwrap_err();
    assert_eq!(err.code, ErrorCode::Virtualenv);
    assert_eq!(err.code.as_str(), "VIRTUALENV_ERROR");
    assert_eq!(err.message, "could not find resources: no such directory");
    assert_eq!(err.label, "read_virtualenv()");

    let err = dist.read_virtualenv(&Value::Bool(true)).unwrap_err();
    assert_eq!(err.message, "function expects a string for path; got type bool");
}

#[test]
fn setup_py_install_request() {
    let dist = default_python_distribution();
    let step = dist
        .setup_py_install(&env(), &s("pkg/src"), &Value::NoValue, &Value::NoValue)
        .unwrap();
    match step {
        Step::Resolve(_, Call::SetupPyInstall { package_path, verbose, extra_envs, extra_global_arguments }) => {
            assert_eq!(package_path, "/work/pkg/src");
            assert!(verbose);
            assert!(extra_envs.is_empty());
            assert!(extra_global_arguments.is_empty());
        }
        other => panic!("unexpected step {:?}", other),
    }
    let step = dist
        .setup_py_install(&env(), &s("/abs/pkg"), &dict(&[("A", "1")]), &list(&["--quiet"]))
        .unwrap();
    match step {
        Step::Resolve(_, Call::SetupPyInstall { package_path, extra_envs, extra_global_arguments, .. }) => {
            assert_eq!(package_path, "/abs/pkg");
            assert_eq!(extra_envs, vec![("A".to_string(), "1".to_string())]);
            assert_eq!(extra_global_arguments, vec!["--quiet".to_string()]);
        }
        other => panic!("unexpected step {:?}", other),
    }
}

#[test]
fn setup_py_install_validation() {
    let dist = default_python_distribution();
    let err = dist
        .setup_py_install(&env(), &Value::NoValue, &Value::NoValue, &Value::NoValue)
        .unwrap_err();
    assert_eq!(err.message, "function expects a string for package_path; got type NoneType");
    let err = dist.setup_py_install(&env(), &s("p"), &list(&[]), &Value::NoValue).unwrap_err();
    assert_eq!(err.message, "function expects an optional dict for extra_envs; got type list");
    let err = dist.setup_py_install(&env(), &s("p"), &Value::NoValue, &s("x")).unwrap_err();
    assert_eq!(
        err.message,
        "function expects an optional list for extra_global_arguments; got type string"
    );
    let err = dist
        .setup_py_install(&env(), &s("p"), &Value::NoValue, &Value::List(vec![Value::Bool(true)]))
        .unwrap_err();
    assert_eq!(
        err.message,
        "list extra_global_arguments expects values of type string; got bool"
    );
}

#[test]
fn package_resources_validation() {
    let dist = default_python_distribution();
    let err = dist.package_resources(&s("yes")).unwrap_err();
    assert_eq!(err.code, ErrorCode::IncorrectParameterType);
    assert_eq!(
        err.message,
        "function expects an required bool for include_test; got type string"
    );
    assert_eq!(err.label, "package_resources()");
}

#[test]
fn each_failure_has_its_code_message_and_label() {
    let cases = [
        (Operation::DefaultDistribution, "PYOXIDIZER_BUILD", "boom", "default_python_distribution()"),
        (Operation::ExplicitDistribution, "PYOXIDIZER_BUILD", "boom", "PythonDistribution()"),
        (Operation::ResolveDistribution, "PYOXIDIZER_BUILD", "boom", "resolve_distribution()"),
        (Operation::ExtensionModules, "PYOXIDIZER_BUILD", "boom", "extension_modules()"),
        (Operation::SourceModules, "PYTHON_DISTRIBUTION", "boom", "source_modules()"),
        (Operation::PackageResources, "PYTHON_DISTRIBUTION", "boom", "package_resources()"),
        (Operation::PipInstall, "PIP_INSTALL_ERROR", "error running pip install: boom", "pip_install()"),
        (Operation::ReadPackageRoot, "PACKAGE_ROOT_ERROR", "could not find resources: boom", "read_package_root()"),
        (Operation::ReadVirtualenv, "VIRTUALENV_ERROR", "could not find resources: boom", "read_virtualenv()"),
        (Operation::SetupPyInstall, "SETUP_PY_ERROR", "boom", "setup_py_install()"),
        (Operation::ToPythonExecutable, "PYOXIDIZER_BUILD", "boom", "to_python_executable()"),
    ];
    for (operation, code, message, label) in cases {
        let err = operation.fail("boom");
        assert_eq!(operation.label_str(), label);
        assert_eq!(err.code.as_str(), code);
        assert_eq!(err.message, message);
        assert_eq!(err.label, label);
        let out: Result<u8, ScriptError> = operation.outcome(Err("boom".to_string()));
        assert_eq!(out.unwrap_err(), err);
        let out: Result<u8, ScriptError> = operation.outcome(Ok(7));
        assert_eq!(out.unwrap(), 7);
    }
}

#[test]
fn a_failed_call_hands_on_no_records() {
    let calls = vec![
        (Call::SourceModules, ErrorCode::Distribution),
        (Call::PackageResources { include_test: true }, ErrorCode::Distribution),
        (Call::ReadPackageRoot { path: "p".to_string(), packages: vec![] }, ErrorCode::PackageRoot),
        (
            Call::PipInstall { verbose: false, args: vec![], extra_envs: vec![] },
            ErrorCode::PipInstall,
        ),
    ];
    for (call, code) in calls {
        let err = call.complete(Err("tool output: exit 1".to_string())).unwrap_err();
        assert_eq!(err.code, code);
        assert!(err.message.ends_with("tool output: exit 1"));
        assert_eq!(call.operation().fail("x").label, err.label);
    }
}
