//! The argument marshaller: from the values a script passes to typed
//! values, or to an error that names the operation, the parameter and both
//! shapes.

use vstd::prelude::*;
use vstd::string::*;
use crate::error::{ErrorCode, ErrorModel, Operation, ScriptError};
use crate::text::same_text;
use crate::value::Value;

verus! {

/// The texts that a sequence of strings holds.
pub open spec fn texts(v: Seq<String>) -> Seq<Seq<char>> {
    Seq::new(v.len(), |i: int| v[i]@)
}

/// The pairs of texts that a sequence of pairs of strings holds.
pub open spec fn text_pairs(v: Seq<(String, String)>) -> Seq<(Seq<char>, Seq<char>)> {
    Seq::new(v.len(), |i: int| (v[i].0@, v[i].1@))
}

/// The text of a string value.
pub open spec fn str_text(v: Value) -> Seq<char> {
    match v {
        Value::Str(s) => s@,
        _ => Seq::empty(),
    }
}

/// The texts of a list of string values.
pub open spec fn item_texts(items: Seq<Value>) -> Seq<Seq<char>> {
    Seq::new(items.len(), |i: int| str_text(items[i]))
}

/// The pairs of texts of a dictionary from strings to strings.
pub open spec fn entry_texts(entries: Seq<(Value, Value)>) -> Seq<(Seq<char>, Seq<char>)> {
    Seq::new(entries.len(), |i: int| (str_text(entries[i].0), str_text(entries[i].1)))
}

/// The error of an operation for a value of type `got` where `shape` was
/// expected for the parameter `name`.
pub open spec fn shape_error(
    operation: Operation,
    shape: Seq<char>,
    name: Seq<char>,
    got: Seq<char>,
) -> ErrorModel {
    ErrorModel {
        code: ErrorCode::IncorrectParameterType,
        message: "function expects "@ + shape + " for "@ + name + "; got type "@ + got,
        label: operation.label(),
    }
}

/// The error of an operation for a member of type `got` in the collection
/// `name`, whose members of the given role ("values" or "keys") must be
/// strings.
pub open spec fn member_error(
    operation: Operation,
    collection: Seq<char>,
    role: Seq<char>,
    name: Seq<char>,
    got: Seq<char>,
) -> ErrorModel {
    ErrorModel {
        code: ErrorCode::IncorrectParameterType,
        message: collection + " "@ + name + " expects "@ + role + " of type string; got "@ + got,
        label: operation.label(),
    }
}

fn make_shape_error(operation: Operation, shape: &str, name: &str, got: &str) -> (r: ScriptError)
    ensures
        r@ == shape_error(operation, shape@, name@, got@),
{
    let mut message = String::from_str("function expects ");
    message.append(shape);
    message.append(" for ");
    message.append(name);
    message.append("; got type ");
    message.append(got);
    operation.error(ErrorCode::IncorrectParameterType, message)
}

fn make_member_error(
    operation: Operation,
    collection: &str,
    role: &str,
    name: &str,
    got: &str,
) -> (r: ScriptError)
    ensures
        r@ == member_error(operation, collection@, role@, name@, got@),
{
    let mut message = String::from_str(collection);
    message.append(" ");
    message.append(name);
    message.append(" expects ");
    message.append(role);
    message.append(" of type string; got ");
    message.append(got);
    operation.error(ErrorCode::IncorrectParameterType, message)
}

/// What `required_str_arg` gives.
pub open spec fn spec_required_str_arg(
    operation: Operation,
    name: Seq<char>,
    value: Value,
) -> Result<
    Seq<char>,
    ErrorModel,
> {
    if value is Str {
        Ok(str_text(value))
    } else {
        Err(shape_error(operation, "a string"@, name, value.spec_get_type()))
    }
}

/// A required string: the text of a string value, and for any other value
/// the error that names the parameter and the value's type.
pub fn required_str_arg(
    operation: Operation,
    name: &str,
    value: &Value,
) -> (r: Result<String, ScriptError>)
    ensures
        match spec_required_str_arg(operation, name@, *value) {
            Ok(text) => r is Ok && r->Ok_0@ == text,
            Err(e) => r is Err && r->Err_0@ == e,
        },
{
    match value {
        Value::Str(s) => Ok(s.clone()),
        _ => Err(make_shape_error(operation, "a string", name, value.get_type())),
    }
}

/// What `optional_str_arg` gives.
pub open spec fn spec_optional_str_arg(
    operation: Operation,
    name: Seq<char>,
    value: Value,
) -> Result<
    Option<Seq<char>>,
    ErrorModel,
> {
    if value is NoValue {
        Ok(None)
    } else if value is Str {
        Ok(Some(str_text(value)))
    } else {
        Err(shape_error(operation, "an optional string"@, name, value.spec_get_type()))
    }
}

/// An optional string: absent for the script's "no value", the text of a
/// string value, and an error for any other value.
pub fn optional_str_arg(
    operation: Operation,
    name: &str,
    value: &Value,
) -> (r: Result<Option<String>, ScriptError>)
    ensures
        match spec_optional_str_arg(operation, name@, *value) {
            Ok(None) => r is Ok && r->Ok_0 is None,
            Ok(Some(text)) => r is Ok && r->Ok_0 is Some && r->Ok_0->Some_0@ == text,
            Err(e) => r is Err && r->Err_0@ == e,
        },
{
    match value {
        Value::NoValue => Ok(None),
        Value::Str(s) => Ok(Some(s.clone())),
        _ => Err(make_shape_error(operation, "an optional string", name, value.get_type())),
    }
}

/// What `required_bool_arg` gives.
pub open spec fn spec_required_bool_arg(
    operation: Operation,
    name: Seq<char>,
    value: Value,
) -> Result<
    bool,
    ErrorModel,
> {
    match value {
        Value::Bool(b) => Ok(b),
        _ => Err(shape_error(operation, "an required bool"@, name, value.spec_get_type())),
    }
}

/// A required boolean.
pub fn required_bool_arg(
    operation: Operation,
    name: &str,
    value: &Value,
) -> (r: Result<bool, ScriptError>)
    ensures
        match spec_required_bool_arg(operation, name@, *value) {
            Ok(b) => r is Ok && r->Ok_0 == b,
            Err(e) => r is Err && r->Err_0@ == e,
        },
{
    match value {
        Value::Bool(b) => Ok(*b),
        _ => Err(make_shape_error(operation, "an required bool", name, value.get_type())),
    }
}

/// What `required_type_arg` gives: nothing for a value of the wanted type,
/// else the error.
pub open spec fn spec_required_type_arg(
    operation: Operation,
    name: Seq<char>,
    wanted: Seq<char>,
    value: Value,
) -> Result<
    (),
    ErrorModel,
> {
    if value.spec_get_type() == wanted {
        Ok(())
    } else {
        Err(shape_error(operation, "a "@ + wanted, name, value.spec_get_type()))
    }
}

/// A value of the named capability type.
pub fn required_type_arg(
    operation: Operation,
    name: &str,
    wanted: &str,
    value: &Value,
) -> (r: Result<(), ScriptError>)
    ensures
        match spec_required_type_arg(operation, name@, wanted@, *value) {
            Ok(_) => r is Ok,
            Err(e) => r is Err && r->Err_0@ == e,
        },
{
    let got = value.get_type();
    if same_text(got, wanted) {
        Ok(())
    } else {
        let mut shape = String::from_str("a ");
        shape.append(wanted);
        Err(make_shape_error(operation, shape.as_str(), name, got))
    }
}

/// What `optional_type_arg` gives: whether a value of the wanted type is
/// there.
pub open spec fn spec_optional_type_arg(
    operation: Operation,
    name: Seq<char>,
    wanted: Seq<char>,
    value: Value,
) -> Result<
    bool,
    ErrorModel,
> {
    if value is NoValue {
        Ok(false)
    } else {
        match spec_required_type_arg(operation, name, wanted, value) {
            Ok(_) => Ok(true),
            Err(e) => Err(e),
        }
    }
}

/// An optional value of the named capability type: `false` for the script's
/// "no value", `true` for a value of that type, an error for any other.
pub fn optional_type_arg(
    operation: Operation,
    name: &str,
    wanted: &str,
    value: &Value,
) -> (r: Result<bool, ScriptError>)
    ensures
        match spec_optional_type_arg(operation, name@, wanted@, *value) {
            Ok(present) => r is Ok && r->Ok_0 == present,
            Err(e) => r is Err && r->Err_0@ == e,
        },
{
    match value {
        Value::NoValue => Ok(false),
        _ => match required_type_arg(operation, name, wanted, value) {
            Ok(()) => Ok(true),
            Err(e) => Err(e),
        },
    }
}

/// `at` is the first place in `items` that holds no string.
pub open spec fn first_non_string(items: Seq<Value>, at: int) -> bool {
    &&& 0 <= at < items.len()
    &&& !(items[at] is Str)
    &&& forall|j: int| 0 <= j < at ==> items[j] is Str
}

/// Every item is a string.
pub open spec fn all_strings(items: Seq<Value>) -> bool {
    forall|j: int| 0 <= j < items.len() ==> items[j] is Str
}

/// The texts of a list's items, or the error for its first item that is no
/// string.
pub open spec fn spec_string_items(
    operation: Operation,
    name: Seq<char>,
    items: Seq<Value>,
) -> Result<
    Seq<Seq<char>>,
    ErrorModel,
> {
    if all_strings(items) {
        Ok(item_texts(items))
    } else {
        Err(
            member_error(operation, "list"@,
                "values"@,
                name,
                items[choose|at: int| first_non_string(items, at)].spec_get_type(),
            ),
        )
    }
}

fn string_items(
    operation: Operation,
    name: &str,
    items: &Vec<Value>,
) -> (r: Result<Vec<String>, ScriptError>)
    ensures
        match spec_string_items(operation, name@, items@) {
            Ok(found) => r is Ok && texts(r->Ok_0@) == found,
            Err(e) => r is Err && r->Err_0@ == e,
        },
{
    let mut out: Vec<String> = Vec::new();
    let mut i: usize = 0;
    while i < items.len()
        invariant
            i <= items.len(),
            out.len() == i,
            forall|j: int| 0 <= j < i ==> items[j] is Str,
            forall|j: int| 0 <= j < i ==> out[j]@ == str_text(items[j]),
        decreases items.len() - i,
    {
        match &items[i] {
            Value::Str(s) => {
                out.push(s.clone());
            },
            other => {
                proof {
                    assert(first_non_string(items@, i as int));
                    let at = choose|at: int| first_non_string(items@, at);
                    assert(at == i);
                }
                return Err(make_member_error(operation, "list", "values", name, other.get_type()));
            },
        }
        i += 1;
    }
    assert(texts(out@) =~= item_texts(items@));
    Ok(out)
}

/// What `required_list_arg` gives.
pub open spec fn spec_required_list_arg(
    operation: Operation,
    name: Seq<char>,
    value: Value,
) -> Result<
    Seq<Seq<char>>,
    ErrorModel,
> {
    match value {
        Value::List(items) => spec_string_items(operation, name, items@),
        _ => Err(shape_error(operation, "a list"@, name, value.spec_get_type())),
    }
}

/// A required list of strings: the items' texts in the list's order. Any
/// other value is an error, and so is a list with an item that is no
/// string; the error then names the type of the first such item.
pub fn required_list_arg(
    operation: Operation,
    name: &str,
    value: &Value,
) -> (r: Result<Vec<String>, ScriptError>)
    ensures
        match spec_required_list_arg(operation, name@, *value) {
            Ok(found) => r is Ok && texts(r->Ok_0@) == found,
            Err(e) => r is Err && r->Err_0@ == e,
        },
{
    match value {
        Value::List(items) => string_items(operation, name, items),
        _ => Err(make_shape_error(operation, "a list", name, value.get_type())),
    }
}

/// What `optional_list_arg` gives.
pub open spec fn spec_optional_list_arg(
    operation: Operation,
    name: Seq<char>,
    value: Value,
) -> Result<
    Option<Seq<Seq<char>>>,
    ErrorModel,
> {
    match value {
        Value::NoValue => Ok(None),
        Value::List(items) => match spec_string_items(operation, name, items@) {
            Ok(found) => Ok(Some(found)),
            Err(e) => Err(e),
        },
        _ => Err(shape_error(operation, "an optional list"@, name, value.spec_get_type())),
    }
}

/// An optional list of strings: absent for the script's "no value",
/// otherwise as a required list.
pub fn optional_list_arg(
    operation: Operation,
    name: &str,
    value: &Value,
) -> (r: Result<Option<Vec<String>>, ScriptError>)
    ensures
        match spec_optional_list_arg(operation, name@, *value) {
            Ok(None) => r is Ok && r->Ok_0 is None,
            Ok(Some(found)) => r is Ok && r->Ok_0 is Some && texts(r->Ok_0->Some_0@) == found,
            Err(e) => r is Err && r->Err_0@ == e,
        },
{
    match value {
        Value::NoValue => Ok(None),
        Value::List(items) => match string_items(operation, name, items) {
            Ok(v) => Ok(Some(v)),
            Err(e) => Err(e),
        },
        _ => Err(make_shape_error(operation, "an optional list", name, value.get_type())),
    }
}

/// Both the key and the value of an entry are strings.
pub open spec fn string_entry(entry: (Value, Value)) -> bool {
    entry.0 is Str && entry.1 is Str
}

/// Every entry leads from a string to a string.
pub open spec fn all_string_entries(entries: Seq<(Value, Value)>) -> bool {
    forall|j: int| 0 <= j < entries.len() ==> string_entry(entries[j])
}

/// `at` is the first entry whose key or value is no string.
pub open spec fn first_bad_entry(entries: Seq<(Value, Value)>, at: int) -> bool {
    &&& 0 <= at < entries.len()
    &&& !string_entry(entries[at])
    &&& forall|j: int| 0 <= j < at ==> string_entry(entries[j])
}

/// The error for an entry that does not lead from a string to a string: it
/// speaks of the key where that is no string, else of the value.
pub open spec fn entry_error(
    operation: Operation,
    name: Seq<char>,
    entry: (Value, Value),
) -> ErrorModel {
    if !(entry.0 is Str) {
        member_error(operation, "dict"@, "keys"@, name, entry.0.spec_get_type())
    } else {
        member_error(operation, "dict"@, "values"@, name, entry.1.spec_get_type())
    }
}

/// The entries of a dictionary as pairs of texts, or the error for its
/// first entry that does not lead from a string to a string.
pub open spec fn spec_string_entries(
    operation: Operation,
    name: Seq<char>,
    entries: Seq<(Value, Value)>,
) -> Result<
    Seq<(Seq<char>, Seq<char>)>,
    ErrorModel,
> {
    if all_string_entries(entries) {
        Ok(entry_texts(entries))
    } else {
        Err(entry_error(operation, name, entries[choose|at: int| first_bad_entry(entries, at)]))
    }
}

fn string_entries(operation: Operation, name: &str, entries: &Vec<(Value, Value)>) -> (r: Result<
    Vec<(String, String)>,
    ScriptError,
>)
    ensures
        match spec_string_entries(operation, name@, entries@) {
            Ok(found) => r is Ok && text_pairs(r->Ok_0@) == found,
            Err(e) => r is Err && r->Err_0@ == e,
        },
{
    let mut out: Vec<(String, String)> = Vec::new();
    let mut i: usize = 0;
    while i < entries.len()
        invariant
            i <= entries.len(),
            out.len() == i,
            forall|j: int| 0 <= j < i ==> string_entry(entries[j]),
            forall|j: int|
                0 <= j < i ==> out[j].0@ == str_text(entries[j].0) && out[j].1@ == str_text(
                    entries[j].1,
                ),
        decreases entries.len() - i,
    {
        let entry = &entries[i];
        match &entry.0 {
            Value::Str(k) => match &entry.1 {
                Value::Str(v) => {
                    out.push((k.clone(), v.clone()));
                },
                other => {
                    proof {
                        assert(first_bad_entry(entries@, i as int));
                        let at = choose|at: int| first_bad_entry(entries@, at);
                        assert(at == i);
                    }
                    return Err(
                        make_member_error(operation, "dict", "values", name, other.get_type()),
                    );
                },
            },
            other => {
                proof {
                    assert(first_bad_entry(entries@, i as int));
                    let at = choose|at: int| first_bad_entry(entries@, at);
                    assert(at == i);
                }
                return Err(make_member_error(operation, "dict", "keys", name, other.get_type()));
            },
        }
        i += 1;
    }
    assert(text_pairs(out@) =~= entry_texts(entries@));
    Ok(out)
}

/// What `optional_dict_arg` gives.
pub open spec fn spec_optional_dict_arg(
    operation: Operation,
    name: Seq<char>,
    value: Value,
) -> Result<
    Option<Seq<(Seq<char>, Seq<char>)>>,
    ErrorModel,
> {
    match value {
        Value::NoValue => Ok(None),
        Value::Dict(entries) => match spec_string_entries(operation, name, entries@) {
            Ok(found) => Ok(Some(found)),
            Err(e) => Err(e),
        },
        _ => Err(shape_error(operation, "an optional dict"@, name, value.spec_get_type())),
    }
}

/// An optional dictionary from strings to strings: absent for the script's
/// "no value"; for a dictionary its entries as pairs of texts, in the
/// dictionary's order. Any other value is an error, and so is a
/// dictionary with an entry whose key or value is no string; the error
/// then speaks of the first such entry.
pub fn optional_dict_arg(operation: Operation, name: &str, value: &Value) -> (r: Result<
    Option<Vec<(String, String)>>,
    ScriptError,
>)
    ensures
        match spec_optional_dict_arg(operation, name@, *value) {
            Ok(None) => r is Ok && r->Ok_0 is None,
            Ok(Some(found)) => r is Ok && r->Ok_0 is Some && text_pairs(r->Ok_0->Some_0@)
                == found,
            Err(e) => r is Err && r->Err_0@ == e,
        },
{
    match value {
        Value::NoValue => Ok(None),
        Value::Dict(entries) => match string_entries(operation, name, entries) {
            Ok(v) => Ok(Some(v)),
            Err(e) => Err(e),
        },
        _ => Err(make_shape_error(operation, "an optional dict", name, value.get_type())),
    }
}

} // verus!
