use python_distribution::error::{ErrorCode, Operation};
use python_distribution::marshal::{
    optional_dict_arg, optional_list_arg, optional_str_arg, optional_type_arg, required_bool_arg,
    required_list_arg, required_str_arg, required_type_arg,
};
use python_distribution::value::Value;

const OP: Operation = Operation::PipInstall;

fn s(text: &str) -> Value {
    Value::Str(text.to_string())
}

fn one_of_each() -> Vec<(Value, &'static str)> {
    vec![
        (Value::NoValue, "NoneType"),
        (Value::Bool(true), "bool"),
        (Value::Int(-4), "int"),
        (s("text"), "string"),
        (Value::List(vec![s("a")]), "list"),
        (Value::Dict(vec![(s("k"), s("v"))]), "dict"),
        (Value::Object("PythonInterpreterConfig".to_string()), "PythonInterpreterConfig"),
    ]
}

#[test]
fn type_names() {
    for (value, name) in one_of_each() {
        assert_eq!(value.get_type(), name);
        assert_eq!(value.is_none(), name == "NoneType");
    }
}

#[test]
fn required_string() {
    assert_eq!(required_str_arg(OP, "name", &s("exe")), Ok("exe".to_string()));
    assert_eq!(required_str_arg(OP, "name", &s("")), Ok("".to_string()));
    for (value, got) in one_of_each() {
        if got == "string" {
            continue;
        }
        let err = required_str_arg(OP, "name", &value).unwrap_err();
        assert_eq!(err.code, ErrorCode::IncorrectParameterType);
        assert_eq!(err.message, format!("function expects a string for name; got type {}", got));
        assert_eq!(err.label, "pip_install()");
    }
}

#[test]
fn optional_string() {
    assert_eq!(optional_str_arg(OP, "url", &Value::NoValue), Ok(None));
    assert_eq!(optional_str_arg(OP, "url", &s("u")), Ok(Some("u".to_string())));
    assert_eq!(optional_str_arg(OP, "url", &s("None")), Ok(Some("None".to_string())));
    for (value, got) in one_of_each() {
        if got == "string" || got == "NoneType" {
            continue;
        }
        let err = optional_str_arg(OP, "url", &value).unwrap_err();
        assert_eq!(err.code, ErrorCode::IncorrectParameterType);
        assert_eq!(
            err.message,
            format!("function expects an optional string for url; got type {}", got)
        );
        assert_eq!(err.label, "pip_install()");
    }
}

#[test]
fn required_bool() {
    assert_eq!(required_bool_arg(OP, "include_test", &Value::Bool(true)), Ok(true));
    assert_eq!(required_bool_arg(OP, "include_test", &Value::Bool(false)), Ok(false));
    for (value, got) in one_of_each() {
        if got == "bool" {
            continue;
        }
        let err = required_bool_arg(OP, "include_test", &value).unwrap_err();
        assert_eq!(
            err.message,
            format!("function expects an required bool for include_test; got type {}", got)
        );
        assert_eq!(err.label, "pip_install()");
    }
    // A number is no boolean, whatever it would count as.
    assert!(required_bool_arg(OP, "include_test", &Value::Int(1)).is_err());
}

#[test]
fn required_list() {
    assert_eq!(required_list_arg(OP, "args", &Value::List(vec![])), Ok(vec![]));
    assert_eq!(
        required_list_arg(OP, "args", &Value::List(vec![s("b"), s("a"), s("b")])),
        Ok(vec!["b".to_string(), "a".to_string(), "b".to_string()])
    );
    for (value, got) in one_of_each() {
        if got == "list" {
            continue;
        }
        let err = required_list_arg(OP, "args", &value).unwrap_err();
        assert_eq!(err.message, format!("function expects a list for args; got type {}", got));
        assert_eq!(err.label, "pip_install()");
    }
    let err = required_list_arg(OP, "args",
        &Value::List(vec![s("a"), Value::List(vec![]), Value::Int(1)]),
    )
    .unwrap_err();
    assert_eq!(err.code, ErrorCode::IncorrectParameterType);
    assert_eq!(err.message, "list args expects values of type string; got list");
    assert_eq!(err.label, "pip_install()");
}

#[test]
fn optional_list() {
    assert_eq!(optional_list_arg(OP, "extra", &Value::NoValue), Ok(None));
    assert_eq!(optional_list_arg(OP, "extra", &Value::List(vec![])), Ok(Some(vec![])));
    assert_eq!(
        optional_list_arg(OP, "extra", &Value::List(vec![s("-v")])),
        Ok(Some(vec!["-v".to_string()]))
    );
    let err = optional_list_arg(OP, "extra", &Value::Int(0)).unwrap_err();
    assert_eq!(err.message, "function expects an optional list for extra; got type int");
    assert_eq!(err.label, "pip_install()");
    let err = optional_list_arg(OP, "extra", &Value::List(vec![Value::NoValue])).unwrap_err();
    assert_eq!(err.message, "list extra expects values of type string; got NoneType");
}

#[test]
fn optional_dict() {
    assert_eq!(optional_dict_arg(OP, "envs", &Value::NoValue), Ok(None));
    assert_eq!(optional_dict_arg(OP, "envs", &Value::Dict(vec![])), Ok(Some(vec![])));
    assert_eq!(
        optional_dict_arg(OP, "envs", &Value::Dict(vec![(s("Z"), s("1")), (s("A"), s("2"))])),
        Ok(Some(vec![
            ("Z".to_string(), "1".to_string()),
            ("A".to_string(), "2".to_string()),
        ]))
    );
    for (value, got) in one_of_each() {
        if got == "dict" || got == "NoneType" {
            continue;
        }
        let err = optional_dict_arg(OP, "envs", &value).unwrap_err();
        assert_eq!(
            err.message,
            format!("function expects an optional dict for envs; got type {}", got)
        );
        assert_eq!(err.label, "pip_install()");
    }
    // The first entry that is wrong is reported, its key before its value.
    let err = optional_dict_arg(OP, "envs",
        &Value::Dict(vec![
            (s("ok"), s("ok")),
            (Value::Int(1), Value::Bool(true)),
            (Value::Bool(true), s("x")),
        ]),
    )
    .unwrap_err();
    assert_eq!(err.message, "dict envs expects keys of type string; got int");
    assert_eq!(err.label, "pip_install()");
    let err = optional_dict_arg(OP, "envs",
        &Value::Dict(vec![(s("ok"), Value::Dict(vec![])), (Value::Int(1), s("x"))]),
    )
    .unwrap_err();
    assert_eq!(err.message, "dict envs expects values of type string; got dict");
}

#[test]
fn capability_types() {
    let config = Value::Object("PythonInterpreterConfig".to_string());
    assert_eq!(required_type_arg(OP, "config", "PythonInterpreterConfig", &config), Ok(()));
    assert_eq!(optional_type_arg(OP, "config", "PythonInterpreterConfig", &config), Ok(true));
    assert_eq!(optional_type_arg(OP, "config", "PythonInterpreterConfig", &Value::NoValue), Ok(false));
    assert_eq!(required_type_arg(OP, "x", "string", &s("a")), Ok(()));
    for value in [Value::Object("PythonExecutable".to_string()), Value::Int(1)] {
        let got = value.get_type().to_string();
        let err = optional_type_arg(OP, "config", "PythonInterpreterConfig", &value).unwrap_err();
        assert_eq!(err.code, ErrorCode::IncorrectParameterType);
        assert_eq!(
            err.message,
            format!("function expects a PythonInterpreterConfig for config; got type {}", got)
        );
        assert_eq!(err.label, "pip_install()");
    }
    let err = required_type_arg(OP, "config", "PythonInterpreterConfig", &Value::NoValue).unwrap_err();
    assert_eq!(
        err.message,
        "function expects a PythonInterpreterConfig for config; got type NoneType"
    );
}

#[test]
fn the_label_names_the_operation() {
    let cases = [
        (Operation::DefaultDistribution, "default_python_distribution()"),
        (Operation::ExplicitDistribution, "PythonDistribution()"),
        (Operation::ExtensionModules, "extension_modules()"),
        (Operation::PackageResources, "package_resources()"),
        (Operation::ReadPackageRoot, "read_package_root()"),
        (Operation::ReadVirtualenv, "read_virtualenv()"),
        (Operation::SetupPyInstall, "setup_py_install()"),
        (Operation::ToPythonExecutable, "to_python_executable()"),
    ];
    for (operation, label) in cases {
        assert_eq!(required_str_arg(operation, "p", &Value::Int(1)).unwrap_err().label, label);
        assert_eq!(optional_str_arg(operation, "p", &Value::Int(1)).unwrap_err().label, label);
        assert_eq!(required_bool_arg(operation, "p", &Value::Int(1)).unwrap_err().label, label);
        assert_eq!(required_list_arg(operation, "p", &Value::Int(1)).unwrap_err().label, label);
        assert_eq!(
            required_list_arg(operation, "p", &Value::List(vec![Value::Int(1)])).unwrap_err().label,
            label
        );
        assert_eq!(optional_list_arg(operation, "p", &Value::Int(1)).unwrap_err().label, label);
        assert_eq!(optional_dict_arg(operation, "p", &Value::Int(1)).unwrap_err().label, label);
        assert_eq!(
            optional_dict_arg(operation, "p", &Value::Dict(vec![(Value::Int(1), Value::Int(2))]))
                .unwrap_err()
                .label,
            label
        );
        assert_eq!(optional_type_arg(operation, "p", "T", &Value::Int(1)).unwrap_err().label, label);
    }
}
