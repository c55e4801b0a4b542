use dynquery::errors::QueryError;
use dynquery::executor::DataSourceInfo;
use dynquery::json::JsonValue;
use dynquery::binder::BindValue;
use dynquery::query::{
    ComparableCardStrategy, ExampleStrategy, FetchKind, QueryContext, QueryService,
    StrategyKind,
};

fn obj(pairs: Vec<(&str, JsonValue)>) -> JsonValue {
    JsonValue::Object(pairs.into_iter().map(|(k, v)| (k.to_string(), v)).collect())
}

#[test]
fn unregistered_view_is_not_found_never_success() {
    let service = QueryService::new();
    let err = service.lookup_strategy("x").unwrap_err();
    assert_eq!(
        err,
        QueryError::StrategyNotFound("View 'x' not found".to_string())
    );
}

#[test]
fn registered_view_resolves() {
    let service = QueryService::new();
    assert_eq!(
        service.lookup_strategy("comparable_card").unwrap(),
        StrategyKind::ComparableCard
    );
}

#[test]
fn connections_resolve_per_data_source() {
    let ds = DataSourceInfo {
        id: "ds1".to_string(),
        name: "main".to_string(),
        db_type: "postgresql".to_string(),
        connection_config: obj(vec![
            ("host", JsonValue::Str("h".to_string())),
            ("database", JsonValue::Str("d".to_string())),
            ("username", JsonValue::Str("u".to_string())),
            ("password", JsonValue::Str("p".to_string())),
        ]),
        tenant_id: "1".to_string(),
    };
    let pools = QueryService::resolve_connections(&vec![ds]).unwrap();
    assert_eq!(pools.len(), 1);
    assert_eq!(pools[0].0, "main");
    assert_eq!(pools[0].1, "postgres://u:p@h:5432/d");
}

#[test]
fn incomplete_connection_config_fails_resolution() {
    let ds = DataSourceInfo {
        id: "ds1".to_string(),
        name: "main".to_string(),
        db_type: "postgresql".to_string(),
        connection_config: obj(vec![("host", JsonValue::Str("h".to_string()))]),
        tenant_id: "1".to_string(),
    };
    let err = QueryService::resolve_connections(&vec![ds]).unwrap_err();
    assert_eq!(
        err,
        QueryError::InvalidInput("Missing database in connection config".to_string())
    );
}

#[test]
fn data_source_selection_is_lexicographic() {
    let names = vec!["beta".to_string(), "alpha".to_string(), "gamma".to_string()];
    assert_eq!(ComparableCardStrategy::select_data_source(&names).unwrap(), 1);
    let ties = vec!["b".to_string(), "a".to_string(), "a".to_string()];
    assert_eq!(ComparableCardStrategy::select_data_source(&ties).unwrap(), 1);
    let err = ComparableCardStrategy::select_data_source(&vec![]).unwrap_err();
    assert_eq!(
        err,
        QueryError::DatabaseError("No data sources available".to_string())
    );
}

#[test]
fn runtime_type_names_map_to_fetch_kinds() {
    assert_eq!(ComparableCardStrategy::fetch_kind_of("TEXT"), FetchKind::Text);
    assert_eq!(ComparableCardStrategy::fetch_kind_of("VARCHAR"), FetchKind::Text);
    assert_eq!(ComparableCardStrategy::fetch_kind_of("INT8"), FetchKind::Int);
    assert_eq!(ComparableCardStrategy::fetch_kind_of("BIGINT"), FetchKind::Int);
    assert_eq!(ComparableCardStrategy::fetch_kind_of("FLOAT4"), FetchKind::Float4);
    assert_eq!(ComparableCardStrategy::fetch_kind_of("FLOAT8"), FetchKind::Float8);
    assert_eq!(ComparableCardStrategy::fetch_kind_of("BOOLEAN"), FetchKind::Bool);
    assert_eq!(ComparableCardStrategy::fetch_kind_of("JSONB"), FetchKind::Other);
}

#[test]
fn normalized_result_has_columns_and_rows() {
    let _ = ComparableCardStrategy::new();
    let row = obj(vec![("a", JsonValue::Int(1))]);
    let result =
        ComparableCardStrategy::assemble_result(vec!["a".to_string()], vec![row]);
    assert_eq!(
        result,
        obj(vec![
            (
                "columns",
                JsonValue::Array(vec![JsonValue::Str("a".to_string())])
            ),
            (
                "rows",
                JsonValue::Array(vec![obj(vec![("a", JsonValue::Int(1))])])
            ),
        ])
    );
}

#[test]
fn strategy_prepares_source_statement_and_binds() {
    let ctx = QueryContext {
        data_source_names: vec!["beta".to_string(), "alpha".to_string()],
        tenant_id: "1".to_string(),
        params: obj(vec![
            ("start", JsonValue::Str("0101".to_string())),
            ("end", JsonValue::Str("1231".to_string())),
        ]),
        query_spec: obj(vec![(
            "sql",
            JsonValue::Str(
                "SELECT x FROM t WHERE d BETWEEN {start} AND {end} [cat:AND c = {cat}]"
                    .to_string(),
            ),
        )]),
    };
    let plan = ComparableCardStrategy::prepare(&ctx).unwrap();
    assert_eq!(plan.data_source_index, 1);
    assert_eq!(plan.built.sql, "SELECT x FROM t WHERE d BETWEEN $1 AND $2 ");
    assert_eq!(plan.built.param_names, vec!["start", "end"]);
    assert_eq!(
        plan.binds,
        vec![
            BindValue::Text("0101".to_string()),
            BindValue::Text("1231".to_string())
        ]
    );
}

#[test]
fn strategy_prepare_needs_a_data_source() {
    let ctx = QueryContext {
        data_source_names: vec![],
        tenant_id: "1".to_string(),
        params: obj(vec![]),
        query_spec: obj(vec![("sql", JsonValue::Str("SELECT 1".to_string()))]),
    };
    let err = ComparableCardStrategy::prepare(&ctx).unwrap_err();
    assert_eq!(
        err,
        dynquery::errors::QueryError::DatabaseError("No data sources available".to_string())
    );
}

#[test]
fn strategy_prepare_propagates_compile_errors() {
    let ctx = QueryContext {
        data_source_names: vec!["a".to_string()],
        tenant_id: "1".to_string(),
        params: obj(vec![]),
        query_spec: obj(vec![]),
    };
    assert_eq!(
        ComparableCardStrategy::prepare(&ctx).unwrap_err(),
        QueryError::InvalidInput("Missing 'sql' in spec".to_string())
    );

    let ctx = QueryContext {
        data_source_names: vec!["a".to_string()],
        tenant_id: "1".to_string(),
        params: obj(vec![]),
        query_spec: obj(vec![("sql", JsonValue::Str("{missing}".to_string()))]),
    };
    assert_eq!(
        ComparableCardStrategy::prepare(&ctx).unwrap_err(),
        QueryError::InvalidInput("Missing parameter: missing".to_string())
    );
}

#[test]
fn strategy_prepare_propagates_bind_errors() {
    let ctx = QueryContext {
        data_source_names: vec!["a".to_string()],
        tenant_id: "1".to_string(),
        params: obj(vec![("o", obj(vec![]))]),
        query_spec: obj(vec![("sql", JsonValue::Str("{o}".to_string()))]),
    };
    assert_eq!(
        ComparableCardStrategy::prepare(&ctx).unwrap_err(),
        QueryError::InvalidInput("Unsupported parameter type for: o".to_string())
    );
}

#[test]
fn context_bind_param_states_its_failures() {
    let ctx = QueryContext {
        data_source_names: vec![],
        tenant_id: "1".to_string(),
        params: obj(vec![("o", obj(vec![])), ("s", JsonValue::Str("v".to_string()))]),
        query_spec: obj(vec![]),
    };
    assert_eq!(
        ctx.bind_param("s").unwrap(),
        BindValue::Text("v".to_string())
    );
    assert_eq!(
        ctx.bind_param("s").unwrap(),
        ctx.bind_param("s").unwrap()
    );
    assert_eq!(
        ctx.bind_param("q").unwrap_err(),
        QueryError::InvalidInput("Missing parameter: q".to_string())
    );
    assert_eq!(
        ctx.bind_param("o").unwrap_err(),
        QueryError::InvalidInput("Unsupported parameter type for: o".to_string())
    );
}

#[test]
fn example_strategy_echoes_the_request() {
    let strategy = ExampleStrategy::new();
    let ctx = QueryContext {
        data_source_names: vec![],
        tenant_id: "42".to_string(),
        params: obj(vec![("param1", JsonValue::Str("v".to_string()))]),
        query_spec: obj(vec![("field", JsonValue::Str("f".to_string()))]),
    };
    let result = strategy.respond(&ctx).unwrap();
    assert_eq!(
        result,
        obj(vec![
            ("view", JsonValue::Str("example".to_string())),
            ("tenant_id", JsonValue::Str("42".to_string())),
            ("params", obj(vec![("param1", JsonValue::Str("v".to_string()))])),
            ("spec", obj(vec![("field", JsonValue::Str("f".to_string()))])),
            (
                "result",
                obj(vec![(
                    "message",
                    JsonValue::Str("Example strategy executed successfully".to_string())
                )])
            ),
        ])
    );
}

#[test]
fn example_strategy_defaults_the_spec_field_and_requires_param1() {
    let strategy = ExampleStrategy::new();
    let ctx = QueryContext {
        data_source_names: vec![],
        tenant_id: "42".to_string(),
        params: obj(vec![("param1", JsonValue::Str("v".to_string()))]),
        query_spec: obj(vec![]),
    };
    let result = strategy.respond(&ctx).unwrap();
    match result {
        JsonValue::Object(entries) => {
            assert_eq!(
                entries[3],
                (
                    "spec".to_string(),
                    obj(vec![("field", JsonValue::Str("default_value".to_string()))])
                )
            );
        }
        other => panic!("unexpected result: {:?}", other),
    }

    let ctx = QueryContext {
        data_source_names: vec![],
        tenant_id: "42".to_string(),
        params: obj(vec![]),
        query_spec: obj(vec![]),
    };
    let err = strategy.respond(&ctx).unwrap_err();
    assert_eq!(
        err,
        QueryError::InvalidInput("Missing 'param1' parameter".to_string())
    );
}
