use dynquery::binder::{bind_params, bind_value, BindValue};
use dynquery::errors::QueryError;
use dynquery::json::JsonValue;

fn obj(pairs: Vec<(&str, JsonValue)>) -> JsonValue {
    JsonValue::Object(pairs.into_iter().map(|(k, v)| (k.to_string(), v)).collect())
}

#[test]
fn array_binds_as_text_vector_dropping_non_strings() {
    let params = obj(vec![(
        "arr",
        JsonValue::Array(vec![
            JsonValue::Str("a".to_string()),
            JsonValue::Str("b".to_string()),
            JsonValue::Int(2),
        ]),
    )]);
    let bound = bind_value(&params, "arr").unwrap();
    assert_eq!(
        bound,
        BindValue::TextArray(vec!["a".to_string(), "b".to_string()])
    );
}

#[test]
fn scalar_values_bind_by_type() {
    let params = obj(vec![
        ("s", JsonValue::Str("hello".to_string())),
        ("i", JsonValue::Int(-7)),
        ("f", JsonValue::Float(1.5f64.to_bits())),
        ("b", JsonValue::Bool(true)),
        ("n", JsonValue::Null),
    ]);
    assert_eq!(
        bind_value(&params, "s").unwrap(),
        BindValue::Text("hello".to_string())
    );
    assert_eq!(bind_value(&params, "i").unwrap(), BindValue::Int(-7));
    assert_eq!(
        bind_value(&params, "f").unwrap(),
        BindValue::Float(1.5f64.to_bits())
    );
    assert_eq!(bind_value(&params, "b").unwrap(), BindValue::Bool(true));
    assert_eq!(bind_value(&params, "n").unwrap(), BindValue::NullText);
}

#[test]
fn missing_parameter_fails_binding() {
    let params = obj(vec![]);
    let err = bind_value(&params, "q").unwrap_err();
    assert_eq!(
        err,
        QueryError::InvalidInput("Missing parameter: q".to_string())
    );
}

#[test]
fn object_parameter_is_unsupported() {
    let params = obj(vec![("o", obj(vec![]))]);
    let err = bind_value(&params, "o").unwrap_err();
    assert_eq!(
        err,
        QueryError::InvalidInput("Unsupported parameter type for: o".to_string())
    );
}

#[test]
fn bind_params_rebinds_repeated_names_in_order() {
    let params = obj(vec![
        ("x", JsonValue::Int(1)),
        ("y", JsonValue::Str("v".to_string())),
    ]);
    let names = vec!["x".to_string(), "y".to_string(), "x".to_string()];
    let bound = bind_params(&params, &names).unwrap();
    assert_eq!(
        bound,
        vec![
            BindValue::Int(1),
            BindValue::Text("v".to_string()),
            BindValue::Int(1)
        ]
    );
}
