use dynquery::connect::DbKind;
use dynquery::errors::ExecutorError;
use dynquery::executor::{
    parse_task_type, DataSourceInfo, ExcelExecutor, ExecutorContext, SheetStrings,
    SqlExecutor, StorageInfo, TaskMetadata, TaskType,
};
use dynquery::json::JsonValue;

fn obj(pairs: Vec<(&str, JsonValue)>) -> JsonValue {
    JsonValue::Object(pairs.into_iter().map(|(k, v)| (k.to_string(), v)).collect())
}

fn task(config: JsonValue) -> TaskMetadata {
    TaskMetadata {
        task_id: "task-1".to_string(),
        dependencies: vec![],
        next_actions: vec![],
        config,
    }
}

fn pg_source(id: &str) -> DataSourceInfo {
    DataSourceInfo {
        id: id.to_string(),
        name: format!("source {}", id),
        db_type: "postgresql".to_string(),
        connection_config: obj(vec![
            ("host", JsonValue::Str("h".to_string())),
            ("database", JsonValue::Str("d".to_string())),
            ("username", JsonValue::Str("u".to_string())),
            ("password", JsonValue::Str("p".to_string())),
        ]),
        tenant_id: "1".to_string(),
    }
}

fn storage(id: &str, with_secret: bool) -> StorageInfo {
    let mut auth = vec![("access_key", JsonValue::Str("AK".to_string()))];
    if with_secret {
        auth.push(("secret_key", JsonValue::Str("SK".to_string())));
    }
    StorageInfo {
        id: id.to_string(),
        name: "store".to_string(),
        storage_type: "s3".to_string(),
        upload_endpoint: "http://store/up".to_string(),
        download_endpoint: "http://store/files".to_string(),
        auth_config: obj(auth),
        tenant_id: "1".to_string(),
    }
}

#[test]
fn task_types_parse_by_lowercase_name() {
    assert_eq!(parse_task_type("sql").unwrap(), TaskType::Sql);
    assert_eq!(parse_task_type("excel").unwrap(), TaskType::Excel);
    assert_eq!(
        parse_task_type("shell").unwrap_err(),
        ExecutorError::UnsupportedTaskType
    );
}

#[test]
fn sql_task_plans_statement_and_connection() {
    let context = ExecutorContext {
        data_sources: vec![pg_source("ds1"), pg_source("ds2")],
        storages: vec![],
    };
    let metadata = task(obj(vec![
        ("sql", JsonValue::Str("DELETE FROM t".to_string())),
        ("data_source_id", JsonValue::Str("ds2".to_string())),
    ]));
    let plan = SqlExecutor::plan(&metadata, &context).unwrap();
    assert_eq!(plan.sql, "DELETE FROM t");
    assert_eq!(plan.backend, DbKind::Postgres);
    assert_eq!(plan.connection_string, "postgresql://u:p@h:5432/d");
}

#[test]
fn sql_task_reports_each_missing_config_field() {
    let context = ExecutorContext {
        data_sources: vec![pg_source("ds1")],
        storages: vec![],
    };
    let err = SqlExecutor::plan(&task(obj(vec![])), &context).unwrap_err();
    assert_eq!(
        err,
        ExecutorError::ExecutionFailed("Missing 'sql' in config".to_string())
    );
    let err = SqlExecutor::plan(
        &task(obj(vec![
            ("sql", JsonValue::Str("SELECT 1".to_string())),
            ("data_source_id", JsonValue::Str("nope".to_string())),
        ])),
        &context,
    )
    .unwrap_err();
    assert_eq!(
        err,
        ExecutorError::ExecutionFailed("Data source nope not found".to_string())
    );
}

#[test]
fn sql_task_rejects_unsupported_dialect_and_incomplete_config() {
    let mut oracle = pg_source("ds1");
    oracle.db_type = "oracle".to_string();
    let context = ExecutorContext {
        data_sources: vec![oracle],
        storages: vec![],
    };
    let metadata = task(obj(vec![
        ("sql", JsonValue::Str("SELECT 1".to_string())),
        ("data_source_id", JsonValue::Str("ds1".to_string())),
    ]));
    assert_eq!(
        SqlExecutor::plan(&metadata, &context).unwrap_err(),
        ExecutorError::ExecutionFailed("Unsupported database type: oracle".to_string())
    );

    let mut incomplete = pg_source("ds1");
    incomplete.connection_config = obj(vec![("port", JsonValue::Int(5432))]);
    let context = ExecutorContext {
        data_sources: vec![incomplete],
        storages: vec![],
    };
    assert_eq!(
        SqlExecutor::plan(&metadata, &context).unwrap_err(),
        ExecutorError::ExecutionFailed("Missing 'host' in connection config".to_string())
    );
}

#[test]
fn excel_fetch_reports_missing_storage() {
    let context = ExecutorContext {
        data_sources: vec![pg_source("ds1")],
        storages: vec![],
    };
    let metadata = task(obj(vec![
        ("file_path", JsonValue::Str("f.xlsx".to_string())),
        ("data_source_id", JsonValue::Str("ds1".to_string())),
        ("storage_id", JsonValue::Str("st9".to_string())),
    ]));
    assert_eq!(
        ExcelExecutor::plan_fetch(&metadata, &context).unwrap_err(),
        ExecutorError::ExecutionFailed("Storage st9 not found".to_string())
    );
}

#[test]
fn import_side_binds_the_connection() {
    let (kind, conn) = ExcelExecutor::plan_import(&pg_source("ds1")).unwrap();
    assert_eq!(kind, DbKind::Postgres);
    assert_eq!(conn, "postgresql://u:p@h:5432/d");
}

#[test]
fn sql_task_success_report() {
    let r = SqlExecutor::report(3);
    assert!(r.success);
    assert_eq!(r.message, "SQL executed successfully. Rows affected: 3");
    assert_eq!(
        r.data.unwrap(),
        obj(vec![("rows_affected", JsonValue::Int(3))])
    );
}

#[test]
fn excel_fetch_plan_builds_url_and_bearer_header() {
    let context = ExecutorContext {
        data_sources: vec![pg_source("ds1")],
        storages: vec![storage("st1", true)],
    };
    let metadata = task(obj(vec![
        ("file_path", JsonValue::Str("f.xlsx".to_string())),
        ("data_source_id", JsonValue::Str("ds1".to_string())),
        ("storage_id", JsonValue::Str("st1".to_string())),
    ]));
    let plan = ExcelExecutor::plan_fetch(&metadata, &context).unwrap();
    assert_eq!(plan.download_url, "http://store/files/f.xlsx");
    assert_eq!(plan.data_source_index, 0);
    let (name, value) = plan.auth_header.unwrap();
    assert_eq!(name, "Authorization");
    assert_eq!(value, "Bearer AK");
}

#[test]
fn excel_fetch_plan_omits_header_without_secret_key() {
    let context = ExecutorContext {
        data_sources: vec![pg_source("ds1")],
        storages: vec![storage("st1", false)],
    };
    let metadata = task(obj(vec![
        ("file_path", JsonValue::Str("f.xlsx".to_string())),
        ("data_source_id", JsonValue::Str("ds1".to_string())),
        ("storage_id", JsonValue::Str("st1".to_string())),
    ]));
    let plan = ExcelExecutor::plan_fetch(&metadata, &context).unwrap();
    assert!(plan.auth_header.is_none());
}

#[test]
fn create_table_statement_sanitizes_names() {
    let sheet = SheetStrings {
        name: "My Sheet".to_string(),
        headers: vec!["Col A".to_string(), "b".to_string()],
        rows: vec![],
    };
    let sql = ExcelExecutor::create_table_sql(&sheet);
    assert_eq!(
        sql,
        "CREATE TABLE IF NOT EXISTS `my_sheet` (id INT AUTO_INCREMENT PRIMARY KEY, `col_a` TEXT, `b` TEXT)"
    );
}

#[test]
fn insert_statements_escape_quotes() {
    let sheet = SheetStrings {
        name: "My Sheet".to_string(),
        headers: vec!["Col A".to_string(), "b".to_string()],
        rows: vec![
            vec!["1".to_string(), "x'y".to_string()],
            vec!["2".to_string(), "z".to_string()],
        ],
    };
    let stmts = ExcelExecutor::insert_statements(&sheet);
    assert_eq!(stmts.len(), 1);
    assert_eq!(
        stmts[0],
        "INSERT INTO `my_sheet` (`col_a`, `b`) VALUES ('1', 'x''y'), ('2', 'z')"
    );
}

#[test]
fn insert_statements_batch_by_hundred() {
    let rows: Vec<Vec<String>> = (0..101).map(|i| vec![format!("{}", i)]).collect();
    let sheet = SheetStrings {
        name: "s".to_string(),
        headers: vec!["n".to_string()],
        rows,
    };
    let stmts = ExcelExecutor::insert_statements(&sheet);
    assert_eq!(stmts.len(), 2);
    assert_eq!(stmts[1], "INSERT INTO `s` (`n`) VALUES ('100')");
    assert!(stmts[0].starts_with("INSERT INTO `s` (`n`) VALUES ('0'), "));
    assert!(stmts[0].ends_with("('99')"));
}

#[test]
fn insert_statements_empty_sheet_yields_none() {
    let sheet = SheetStrings {
        name: "s".to_string(),
        headers: vec!["n".to_string()],
        rows: vec![],
    };
    assert!(ExcelExecutor::insert_statements(&sheet).is_empty());
}

#[test]
fn next_actions_are_only_logged() {
    let actions = vec![dynquery::executor::NextAction {
        action_type: "start".to_string(),
        target_task_id: "t9".to_string(),
        condition: None,
    }];
    let lines = dynquery::executor::trigger_next_actions(&actions);
    assert_eq!(lines, vec!["Triggering next action: start for task t9"]);
}

#[test]
fn excel_success_report() {
    let r = ExcelExecutor::report(7);
    assert!(r.success);
    assert_eq!(r.message, "Excel file imported successfully. Total rows: 7");
    assert_eq!(
        r.data.unwrap(),
        obj(vec![("rows_imported", JsonValue::Int(7))])
    );
}
