//! Task execution: the dispatcher and the two executors.
//!
//! A task is either a raw SQL statement against one registered data
//! source or a spreadsheet import. The decisions — which executor, which
//! data source, which statements — are planned here; the boundary opens
//! the connections, downloads the file and runs the statements. The raw
//! statement runs as-is, caller-trusted, with no parameter binding: a
//! documented injection-risk surface, deliberately not hardened here.

use vstd::prelude::*;

use crate::connect::{
    exec_conn_missing, exec_conn_msg, mysql_connection_string, postgresql_connection_string,
    spec_conn_for, spec_db_kind, DbKind,
};
use crate::errors::ExecutorError;
use crate::json::{lookup_str, JsonValue};
use crate::spec_digits;
use crate::u64_to_string;

verus! {

/// A registered external data source, as the executors read it.
#[derive(Debug)]
pub struct DataSourceInfo {
    pub id: String,
    pub name: String,
    pub db_type: String,
    pub connection_config: JsonValue,
    pub tenant_id: String,
}

/// A registered object storage, as the spreadsheet import reads it.
#[derive(Debug)]
pub struct StorageInfo {
    pub id: String,
    pub name: String,
    pub storage_type: String,
    pub upload_endpoint: String,
    pub download_endpoint: String,
    pub auth_config: JsonValue,
    pub tenant_id: String,
}

/// Everything a task may touch: all registered data sources and storages.
#[derive(Debug)]
pub struct ExecutorContext {
    pub data_sources: Vec<DataSourceInfo>,
    pub storages: Vec<StorageInfo>,
}

/// A follow-up action declared on a task; declared but never triggered.
#[derive(Debug)]
pub struct NextAction {
    pub action_type: String,
    pub target_task_id: String,
    pub condition: Option<String>,
}

/// The metadata a task request carries.
#[derive(Debug)]
pub struct TaskMetadata {
    pub task_id: String,
    pub dependencies: Vec<String>,
    pub next_actions: Vec<NextAction>,
    pub config: JsonValue,
}

/// The two task kinds the dispatcher knows.
#[derive(Clone, Copy, PartialEq, Eq, Structural, Debug)]
pub enum TaskType {
    Sql,
    Excel,
}

/// The outcome reported for a task.
#[derive(Debug)]
pub struct ExecutionResult {
    pub success: bool,
    pub message: String,
    pub data: Option<JsonValue>,
}

/// Recognize a task type by its lowercase wire name; anything else is
/// the unsupported-task-type error.
pub fn parse_task_type(s: &str) -> (r: Result<TaskType, ExecutorError>)
    ensures
        match r {
            Ok(t) => (s@ == "sql"@ && t == TaskType::Sql) || (s@ == "excel"@ && t
                == TaskType::Excel),
            Err(e) => s@ != "sql"@ && s@ != "excel"@ && e == ExecutorError::UnsupportedTaskType,
        },
{
    if crate::text::str_eq(s, "sql") {
        Ok(TaskType::Sql)
    } else if crate::text::str_eq(s, "excel") {
        Ok(TaskType::Excel)
    } else {
        Err(ExecutorError::UnsupportedTaskType)
    }
}

/// Find the position of the first registered data source with the given
/// id.
pub fn find_data_source_index(sources: &Vec<DataSourceInfo>, id: &str) -> (r: Option<usize>)
    ensures
        match r {
            Some(i) => i < sources@.len() && sources@[i as int].id@ == id@ && forall|j: int|
                0 <= j < i ==> sources@[j].id@ != id@,
            None => forall|j: int| 0 <= j < sources@.len() ==> sources@[j].id@ != id@,
        },
{
    let n = sources.len();
    let mut i: usize = 0;
    while i < n
        invariant
            i <= n,
            n == sources@.len(),
            forall|j: int| 0 <= j < i ==> sources@[j].id@ != id@,
        decreases n - i,
    {
        if crate::text::str_eq(sources[i].id.as_str(), id) {
            return Some(i);
        }
        i += 1;
    }
    None
}

/// Find the position of the first registered storage with the given id.
pub fn find_storage_index(storages: &Vec<StorageInfo>, id: &str) -> (r: Option<usize>)
    ensures
        match r {
            Some(i) => i < storages@.len() && storages@[i as int].id@ == id@ && forall|j: int|
                0 <= j < i ==> storages@[j].id@ != id@,
            None => forall|j: int| 0 <= j < storages@.len() ==> storages@[j].id@ != id@,
        },
{
    let n = storages.len();
    let mut i: usize = 0;
    while i < n
        invariant
            i <= n,
            n == storages@.len(),
            forall|j: int| 0 <= j < i ==> storages@[j].id@ != id@,
        decreases n - i,
    {
        if crate::text::str_eq(storages[i].id.as_str(), id) {
            return Some(i);
        }
        i += 1;
    }
    None
}

/// The raw-SQL executor.
pub struct SqlExecutor;

/// What the boundary must run for a raw SQL task: the dialect, where to
/// connect, and the statement as the caller wrote it.
#[derive(Debug)]
pub struct SqlTaskPlan {
    pub backend: DbKind,
    pub connection_string: String,
    pub sql: String,
}

impl SqlExecutor {
    /// Plan a raw SQL task from its metadata against the registered data
    /// sources: the statement and data source id are read from the
    /// task's config, the first data source with that id is resolved,
    /// and the connection string is built for its dialect. Fails exactly
    /// when a config field is missing, no data source has the id, its
    /// dialect is unsupported, or its configuration is incomplete, each
    /// with its own message.
    pub fn plan(metadata: &TaskMetadata, context: &ExecutorContext) -> (r: Result<
        SqlTaskPlan,
        ExecutorError,
    >)
        ensures
            match r {
                Ok(plan) => {
                    &&& lookup_str(metadata.config, "sql"@) == Option::Some(plan.sql@)
                    &&& lookup_str(metadata.config, "data_source_id"@) is Some
                    &&& exists|i: int|
                        {
                            &&& 0 <= i < context.data_sources@.len()
                            &&& (#[trigger] context.data_sources@[i]).id@ == lookup_str(
                                metadata.config,
                                "data_source_id"@,
                            )->Some_0
                            &&& (forall|j: int|
                                0 <= j < i ==> (#[trigger] context.data_sources@[j]).id@
                                    != lookup_str(
                                    metadata.config,
                                    "data_source_id"@,
                                )->Some_0)
                            &&& spec_db_kind(context.data_sources@[i].db_type@)
                                == Option::Some(plan.backend)
                            &&& spec_conn_for(
                                plan.backend,
                                context.data_sources@[i].connection_config,
                            ) == Option::Some(plan.connection_string@)
                        }
                },
                Err(e) => e matches ExecutorError::ExecutionFailed(m) && {
                    ||| (lookup_str(metadata.config, "sql"@) is None && m@
                        == "Missing 'sql' in config"@)
                    ||| (lookup_str(metadata.config, "sql"@) is Some && lookup_str(
                        metadata.config,
                        "data_source_id"@,
                    ) is None && m@ == "Missing 'data_source_id' in config"@)
                    ||| (lookup_str(metadata.config, "sql"@) is Some && (lookup_str(
                        metadata.config,
                        "data_source_id"@,
                    ) matches Some(id) && (forall|j: int|
                        0 <= j < context.data_sources@.len()
                            ==> (#[trigger] context.data_sources@[j]).id@ != id) && m@
                        == "Data source "@ + id + " not found"@))
                    ||| (lookup_str(metadata.config, "sql"@) is Some && (lookup_str(
                        metadata.config,
                        "data_source_id"@,
                    ) matches Some(id) && exists|i: int|
                        {
                            &&& 0 <= i < context.data_sources@.len()
                            &&& (#[trigger] context.data_sources@[i]).id@ == id
                            &&& (forall|j: int|
                                0 <= j < i ==> (#[trigger] context.data_sources@[j]).id@
                                    != id)
                            &&& spec_db_kind(context.data_sources@[i].db_type@) is None
                            &&& m@ == "Unsupported database type: "@
                                + context.data_sources@[i].db_type@
                        }))
                    ||| (lookup_str(metadata.config, "sql"@) is Some && (lookup_str(
                        metadata.config,
                        "data_source_id"@,
                    ) matches Some(id) && exists|i: int|
                        {
                            &&& 0 <= i < context.data_sources@.len()
                            &&& (#[trigger] context.data_sources@[i]).id@ == id
                            &&& (forall|j: int|
                                0 <= j < i ==> (#[trigger] context.data_sources@[j]).id@
                                    != id)
                            &&& spec_db_kind(context.data_sources@[i].db_type@) is Some
                            &&& exec_conn_missing(context.data_sources@[i].connection_config)
                            &&& m@ == exec_conn_msg(
                                context.data_sources@[i].connection_config,
                            )
                        }))
                },
            },
    {
        let config = &metadata.config;
        let sql = match config.get_str("sql") {
            Some(s) => s,
            None => {
                return Err(ExecutorError::ExecutionFailed(String::from_str(
                    "Missing 'sql' in config",
                )));
            },
        };
        let ds_id = match config.get_str("data_source_id") {
            Some(s) => s,
            None => {
                return Err(ExecutorError::ExecutionFailed(String::from_str(
                    "Missing 'data_source_id' in config",
                )));
            },
        };
        let idx = match find_data_source_index(&context.data_sources, ds_id) {
            Some(i) => i,
            None => {
                let msg = String::from_str("Data source ").concat(ds_id).concat(
                    " not found",
                );
                return Err(ExecutorError::ExecutionFailed(msg));
            },
        };
        let ds = &context.data_sources[idx];
        let backend = match crate::connect::db_kind_of(ds.db_type.as_str()) {
            Some(k) => k,
            None => {
                let msg = String::from_str("Unsupported database type: ").concat(
                    ds.db_type.as_str(),
                );
                proof {
                    assert(context.data_sources@[idx as int].id@ == ds_id@);
                }
                return Err(ExecutorError::ExecutionFailed(msg));
            },
        };
        let connection_string = match backend {
            DbKind::MySql => match mysql_connection_string(&ds.connection_config) {
                Ok(c) => c,
                Err(e) => {
                    proof {
                        assert(context.data_sources@[idx as int].id@ == ds_id@);
                    }
                    return Err(e);
                },
            },
            DbKind::Postgres => match postgresql_connection_string(&ds.connection_config) {
                Ok(c) => c,
                Err(e) => {
                    proof {
                        assert(context.data_sources@[idx as int].id@ == ds_id@);
                    }
                    return Err(e);
                },
            },
        };
        proof {
            assert(context.data_sources@[idx as int].id@ == ds_id@);
        }
        Ok(SqlTaskPlan { backend, connection_string, sql: String::from_str(sql) })
    }

    /// The result reported for a successful raw SQL task.
    pub fn report(rows_affected: u64) -> (r: ExecutionResult)
        requires
            rows_affected <= i64::MAX,
        ensures
            r.success,
            r.message@ == "SQL executed successfully. Rows affected: "@ + spec_digits(
                rows_affected as nat,
            ),
            r.data matches Option::Some(d) && (d matches JsonValue::Object(es) && es@.len()
                == 1 && es@[0].0@ == "rows_affected"@ && es@[0].1 == JsonValue::Int(
                rows_affected as i64,
            )),
    {
        let message = String::from_str("SQL executed successfully. Rows affected: ").concat(
            u64_to_string(rows_affected).as_str(),
        );
        let mut entries: Vec<(String, JsonValue)> = Vec::new();
        entries.push(
            (String::from_str("rows_affected"), JsonValue::Int(rows_affected as i64)),
        );
        ExecutionResult { success: true, message, data: Some(JsonValue::Object(entries)) }
    }
}

} // verus!

verus! {

/// The spreadsheet-import executor.
pub struct ExcelExecutor;

/// One sheet as the import executor reads it: the first row as headers,
/// the remaining rows as display strings.
#[derive(Debug)]
pub struct SheetStrings {
    pub name: String,
    pub headers: Vec<String>,
    pub rows: Vec<Vec<String>>,
}

/// What the boundary must download for a spreadsheet task: the file's
/// URL under the storage's download endpoint, the optional bearer-style
/// header, and which registered data source receives the import.
#[derive(Debug)]
pub struct FetchPlan {
    pub file_path: String,
    pub download_url: String,
    pub auth_header: Option<(String, String)>,
    pub data_source_index: usize,
}

/// The bearer-style header for a storage's auth configuration: present
/// exactly when both an access key and a secret key are configured, and
/// built from the access key.
pub open spec fn spec_auth_header(auth: JsonValue) -> Option<(Seq<char>, Seq<char>)> {
    if lookup_str(auth, "access_key"@) is Some && lookup_str(auth, "secret_key"@) is Some {
        Option::Some(
            ("Authorization"@, "Bearer "@ + lookup_str(auth, "access_key"@)->Some_0),
        )
    } else {
        Option::None
    }
}

impl ExcelExecutor {
    /// Plan the download of a spreadsheet task: the file path, data
    /// source and storage are read from the task's config, the first
    /// matching data source and storage are resolved, and the URL and
    /// auth header are built from the storage. Fails exactly when a
    /// config field is missing or an id matches nothing, each with its
    /// own message.
    pub fn plan_fetch(metadata: &TaskMetadata, context: &ExecutorContext) -> (r: Result<
        FetchPlan,
        ExecutorError,
    >)
        ensures
            match r {
                Ok(plan) => {
                    &&& lookup_str(metadata.config, "file_path"@) == Option::Some(
                        plan.file_path@,
                    )
                    &&& lookup_str(metadata.config, "data_source_id"@) is Some
                    &&& lookup_str(metadata.config, "storage_id"@) is Some
                    &&& plan.data_source_index < context.data_sources@.len()
                    &&& context.data_sources@[plan.data_source_index as int].id@
                        == lookup_str(metadata.config, "data_source_id"@)->Some_0
                    &&& (forall|j: int|
                        0 <= j < plan.data_source_index
                            ==> (#[trigger] context.data_sources@[j]).id@ != lookup_str(
                            metadata.config,
                            "data_source_id"@,
                        )->Some_0)
                    &&& exists|i: int|
                        {
                            &&& 0 <= i < context.storages@.len()
                            &&& (#[trigger] context.storages@[i]).id@ == lookup_str(
                                metadata.config,
                                "storage_id"@,
                            )->Some_0
                            &&& (forall|j: int|
                                0 <= j < i ==> (#[trigger] context.storages@[j]).id@
                                    != lookup_str(metadata.config, "storage_id"@)->Some_0)
                            &&& plan.download_url@ == context.storages@[i].download_endpoint@
                                + "/"@ + plan.file_path@
                            &&& (match (plan.auth_header, spec_auth_header(
                                context.storages@[i].auth_config,
                            )) {
                                (Option::Some(h), Option::Some(sh)) => h.0@ == sh.0 && h.1@
                                    == sh.1,
                                (Option::None, Option::None) => true,
                                _ => false,
                            })
                        }
                },
                Err(e) => e matches ExecutorError::ExecutionFailed(m) && {
                    ||| (lookup_str(metadata.config, "file_path"@) is None && m@
                        == "Missing 'file_path' in config"@)
                    ||| (lookup_str(metadata.config, "file_path"@) is Some && lookup_str(
                        metadata.config,
                        "data_source_id"@,
                    ) is None && m@ == "Missing 'data_source_id' in config"@)
                    ||| (lookup_str(metadata.config, "file_path"@) is Some && lookup_str(
                        metadata.config,
                        "data_source_id"@,
                    ) is Some && lookup_str(metadata.config, "storage_id"@) is None && m@
                        == "Missing 'storage_id' in config"@)
                    ||| (lookup_str(metadata.config, "file_path"@) is Some && lookup_str(
                        metadata.config,
                        "storage_id"@,
                    ) is Some && (lookup_str(metadata.config, "data_source_id"@) matches
                    Some(id) && (forall|j: int|
                        0 <= j < context.data_sources@.len()
                            ==> (#[trigger] context.data_sources@[j]).id@ != id) && m@
                        == "Data source "@ + id + " not found"@))
                    ||| (lookup_str(metadata.config, "file_path"@) is Some && lookup_str(
                        metadata.config,
                        "data_source_id"@,
                    ) is Some && (lookup_str(metadata.config, "storage_id"@) matches Some(
                        sid,
                    ) && (forall|j: int|
                        0 <= j < context.storages@.len()
                            ==> (#[trigger] context.storages@[j]).id@ != sid) && m@
                        == "Storage "@ + sid + " not found"@))
                },
            },
    {
        let config = &metadata.config;
        let file_path = match config.get_str("file_path") {
            Some(s) => s,
            None => {
                return Err(ExecutorError::ExecutionFailed(String::from_str(
                    "Missing 'file_path' in config",
                )));
            },
        };
        let ds_id = match config.get_str("data_source_id") {
            Some(s) => s,
            None => {
                return Err(ExecutorError::ExecutionFailed(String::from_str(
                    "Missing 'data_source_id' in config",
                )));
            },
        };
        let storage_id = match config.get_str("storage_id") {
            Some(s) => s,
            None => {
                return Err(ExecutorError::ExecutionFailed(String::from_str(
                    "Missing 'storage_id' in config",
                )));
            },
        };

        let ds_index = match find_data_source_index(&context.data_sources, ds_id) {
            Some(i) => i,
            None => {
                let msg = String::from_str("Data source ").concat(ds_id).concat(
                    " not found",
                );
                return Err(ExecutorError::ExecutionFailed(msg));
            },
        };

        let st_index = match find_storage_index(&context.storages, storage_id) {
            Some(i) => i,
            None => {
                let msg = String::from_str("Storage ").concat(storage_id).concat(
                    " not found",
                );
                return Err(ExecutorError::ExecutionFailed(msg));
            },
        };
        let storage = &context.storages[st_index];

        let download_url = String::from_str(storage.download_endpoint.as_str()).concat(
            "/",
        ).concat(file_path);

        let auth_header = match storage.auth_config.get_str("access_key") {
            Some(access_key) => match storage.auth_config.get_str("secret_key") {
                Some(_) => Some(
                    (
                        String::from_str("Authorization"),
                        String::from_str("Bearer ").concat(access_key),
                    ),
                ),
                None => None,
            },
            None => None,
        };

        proof {
            assert(context.storages@[st_index as int].id@ == storage_id@);
        }
        Ok(FetchPlan {
            file_path: String::from_str(file_path),
            download_url,
            auth_header,
            data_source_index: ds_index,
        })
    }

    /// Plan the import side of a spreadsheet task: the data source's
    /// dialect and its connection string. Fails exactly when the dialect
    /// is unsupported or the configuration is incomplete, each with its
    /// own message.
    pub fn plan_import(ds: &DataSourceInfo) -> (r: Result<(DbKind, String), ExecutorError>)
        ensures
            match r {
                Ok((kind, conn)) => {
                    &&& spec_db_kind(ds.db_type@) == Option::Some(kind)
                    &&& spec_conn_for(kind, ds.connection_config) == Option::Some(conn@)
                },
                Err(e) => e matches ExecutorError::ExecutionFailed(m) && {
                    ||| (spec_db_kind(ds.db_type@) is None && m@
                        == "Unsupported database type: "@ + ds.db_type@)
                    ||| (spec_db_kind(ds.db_type@) is Some && exec_conn_missing(
                        ds.connection_config,
                    ) && m@ == exec_conn_msg(ds.connection_config))
                },
            },
    {
        match crate::connect::db_kind_of(ds.db_type.as_str()) {
            Some(DbKind::MySql) => match mysql_connection_string(&ds.connection_config) {
                Ok(c) => Ok((DbKind::MySql, c)),
                Err(e) => Err(e),
            },
            Some(DbKind::Postgres) => match postgresql_connection_string(
                &ds.connection_config,
            ) {
                Ok(c) => Ok((DbKind::Postgres, c)),
                Err(e) => Err(e),
            },
            None => {
                let msg = String::from_str("Unsupported database type: ").concat(
                    ds.db_type.as_str(),
                );
                Err(ExecutorError::ExecutionFailed(msg))
            },
        }
    }

    /// The result reported for a successful import.
    pub fn report(rows_imported: u64) -> (r: ExecutionResult)
        requires
            rows_imported <= i64::MAX,
        ensures
            r.success,
            r.message@ == "Excel file imported successfully. Total rows: "@ + spec_digits(
                rows_imported as nat,
            ),
            r.data matches Option::Some(d) && (d matches JsonValue::Object(es) && es@.len()
                == 1 && es@[0].0@ == "rows_imported"@ && es@[0].1 == JsonValue::Int(
                rows_imported as i64,
            )),
    {
        let message = String::from_str(
            "Excel file imported successfully. Total rows: ",
        ).concat(u64_to_string(rows_imported).as_str());
        let mut entries: Vec<(String, JsonValue)> = Vec::new();
        entries.push(
            (String::from_str("rows_imported"), JsonValue::Int(rows_imported as i64)),
        );
        ExecutionResult { success: true, message, data: Some(JsonValue::Object(entries)) }
    }
}

} // verus!

verus! {

/// The sanitized, backquoted column names of a sheet's headers.
pub open spec fn spec_col_names(headers: Seq<Seq<char>>) -> Seq<Seq<char>> {
    headers.map_values(|h: Seq<char>| seq!['`'] + crate::text::spec_sanitize(h) + seq!['`'])
}

/// The create statement for one sheet: a sanitized table name, an
/// auto-increment primary key, and one free-form text column per header.
pub open spec fn spec_create_sql(name: Seq<char>, headers: Seq<Seq<char>>) -> Seq<char> {
    "CREATE TABLE IF NOT EXISTS `"@ + crate::text::spec_sanitize(name)
        + "` (id INT AUTO_INCREMENT PRIMARY KEY, "@ + crate::text::spec_join(
        headers.map_values(
            |h: Seq<char>| seq!['`'] + crate::text::spec_sanitize(h) + "` TEXT"@,
        ),
        ", "@,
    ) + ")"@
}

/// One row's value tuple: each cell quoted with single quotes doubled.
pub open spec fn spec_row_tuple(row: Seq<Seq<char>>) -> Seq<char> {
    "("@ + crate::text::spec_join(
        row.map_values(
            |v: Seq<char>| seq!['\''] + crate::text::escape_quotes(v) + seq!['\''],
        ),
        ", "@,
    ) + ")"@
}

/// The insert statements for a sheet's rows from `start` on, one
/// statement per batch of up to 100 rows.
pub open spec fn spec_insert_stmts_from(
    name: Seq<char>,
    headers: Seq<Seq<char>>,
    rows: Seq<Seq<Seq<char>>>,
    start: int,
) -> Seq<Seq<char>>
    decreases rows.len() - start,
{
    if start < 0 || start >= rows.len() {
        Seq::empty()
    } else {
        let end = if start + 100 <= rows.len() {
            start + 100
        } else {
            rows.len() as int
        };
        seq![
            "INSERT INTO `"@ + crate::text::spec_sanitize(name) + "` ("@
                + crate::text::spec_join(spec_col_names(headers), ", "@) + ") VALUES "@
                + crate::text::spec_join(
                rows.subrange(start, end).map_values(|r: Seq<Seq<char>>| spec_row_tuple(r)),
                ", "@,
            ),
        ] + spec_insert_stmts_from(name, headers, rows, end)
    }
}

/// The insert statements for a whole sheet, in batch order.
pub open spec fn spec_insert_stmts(
    name: Seq<char>,
    headers: Seq<Seq<char>>,
    rows: Seq<Seq<Seq<char>>>,
) -> Seq<Seq<char>> {
    spec_insert_stmts_from(name, headers, rows, 0)
}

impl ExcelExecutor {
    /// Render a sheet's create statement.
    pub fn create_table_sql(sheet: &SheetStrings) -> (r: String)
        ensures
            r@ == spec_create_sql(
                sheet.name@,
                sheet.headers@.map_values(|s: String| s@),
            ),
    {
        let mut cols: Vec<String> = Vec::new();
        let n = sheet.headers.len();
        let mut i: usize = 0;
        let ghost g = |h: Seq<char>| seq!['`'] + crate::text::spec_sanitize(h) + "` TEXT"@;
        proof {
            let f = |s: String| s@;
            assert(cols@.map_values(f) =~= sheet.headers@.take(0).map_values(f).map_values(
                g,
            ));
        }
        while i < n
            invariant
                i <= n,
                n == sheet.headers@.len(),
                g == (|h: Seq<char>| seq!['`'] + crate::text::spec_sanitize(h) + "` TEXT"@),
                cols@.map_values(|s: String| s@) == sheet.headers@.take(i as int).map_values(
                    |s: String| s@,
                ).map_values(g),
            decreases n - i,
        {
            let ghost prev = cols@;
            proof {
                reveal_strlit("`");
                assert("`"@ =~= seq!['`']);
            }
            let sanitized = crate::text::sanitize(sheet.headers[i].as_str());
            let col = String::from_str("`").concat(sanitized.as_str()).concat("` TEXT");
            cols.push(col);
            proof {
                let f = |s: String| s@;
                assert(cols@.map_values(f) =~= prev.map_values(f).push(
                    g(sheet.headers@[i as int]@),
                ));
                assert(sheet.headers@.take(i as int + 1).map_values(f).map_values(g)
                    =~= sheet.headers@.take(i as int).map_values(f).map_values(g).push(
                    g(sheet.headers@[i as int]@),
                ));
            }
            i += 1;
        }
        proof {
            assert(sheet.headers@.take(n as int) =~= sheet.headers@);
        }
        let table = crate::text::sanitize(sheet.name.as_str());
        String::from_str("CREATE TABLE IF NOT EXISTS `").concat(table.as_str()).concat(
            "` (id INT AUTO_INCREMENT PRIMARY KEY, ",
        ).concat(crate::text::join_with(&cols, ", ").as_str()).concat(")")
    }

    /// Render a sheet's insert statements, one per batch of up to 100
    /// rows; a sheet without data rows yields none.
    pub fn insert_statements(sheet: &SheetStrings) -> (r: Vec<String>)
        ensures
            r@.map_values(|s: String| s@) == spec_insert_stmts(
                sheet.name@,
                sheet.headers@.map_values(|s: String| s@),
                sheet.rows@.map_values(|row: Vec<String>| row@.map_values(|s: String| s@)),
            ),
    {
        let ghost hs = sheet.headers@.map_values(|s: String| s@);
        let ghost rs = sheet.rows@.map_values(
            |row: Vec<String>| row@.map_values(|s: String| s@),
        );

        let mut cols: Vec<String> = Vec::new();
        let n = sheet.headers.len();
        let mut i: usize = 0;
        let ghost g = |h: Seq<char>| seq!['`'] + crate::text::spec_sanitize(h) + seq!['`'];
        proof {
            let f = |s: String| s@;
            assert(cols@.map_values(f) =~= spec_col_names(hs.take(0)));
            assert(hs.take(0) =~= sheet.headers@.take(0).map_values(f));
        }
        while i < n
            invariant
                i <= n,
                n == sheet.headers@.len(),
                hs == sheet.headers@.map_values(|s: String| s@),
                cols@.map_values(|s: String| s@) == spec_col_names(hs.take(i as int)),
            decreases n - i,
        {
            let ghost prev = cols@;
            proof {
                reveal_strlit("`");
                assert("`"@ =~= seq!['`']);
            }
            let sanitized = crate::text::sanitize(sheet.headers[i].as_str());
            let col = String::from_str("`").concat(sanitized.as_str()).concat("`");
            cols.push(col);
            proof {
                let f = |s: String| s@;
                assert(hs[i as int] == sheet.headers@[i as int]@);
                assert(cols@.map_values(f) =~= prev.map_values(f).push(
                    seq!['`'] + crate::text::spec_sanitize(hs[i as int]) + seq!['`'],
                ));
                assert(spec_col_names(hs.take(i as int + 1)) =~= spec_col_names(
                    hs.take(i as int),
                ).push(seq!['`'] + crate::text::spec_sanitize(hs[i as int]) + seq!['`']));
            }
            i += 1;
        }
        proof {
            assert(hs.take(n as int) =~= hs);
        }
        let col_list = crate::text::join_with(&cols, ", ");
        let table = crate::text::sanitize(sheet.name.as_str());

        let nrows = sheet.rows.len();
        let mut stmts: Vec<String> = Vec::new();
        let mut start: usize = 0;
        while start < nrows
            invariant
                start <= nrows,
                nrows == sheet.rows@.len(),
                hs == sheet.headers@.map_values(|s: String| s@),
                rs == sheet.rows@.map_values(
                    |row: Vec<String>| row@.map_values(|s: String| s@),
                ),
                rs.len() == nrows,
                col_list@ == crate::text::spec_join(spec_col_names(hs), ", "@),
                table@ == crate::text::spec_sanitize(sheet.name@),
                stmts@.map_values(|s: String| s@) + spec_insert_stmts_from(
                    sheet.name@,
                    hs,
                    rs,
                    start as int,
                ) == spec_insert_stmts(sheet.name@, hs, rs),
            decreases nrows - start,
        {
            let ghost prev_stmts = stmts@;
            let end = if nrows - start > 100 {
                start + 100
            } else {
                nrows
            };
            let mut tuples: Vec<String> = Vec::new();
            let mut r: usize = start;
            proof {
                let f = |s: String| s@;
                assert(tuples@.map_values(f) =~= rs.subrange(
                    start as int,
                    start as int,
                ).map_values(|q: Seq<Seq<char>>| spec_row_tuple(q)));
            }
            while r < end
                invariant
                    start <= r <= end <= nrows,
                    nrows == sheet.rows@.len(),
                    rs == sheet.rows@.map_values(
                        |row: Vec<String>| row@.map_values(|s: String| s@),
                    ),
                    rs.len() == nrows,
                    tuples@.map_values(|s: String| s@) == rs.subrange(
                        start as int,
                        r as int,
                    ).map_values(|q: Seq<Seq<char>>| spec_row_tuple(q)),
                decreases end - r,
            {
                let row = &sheet.rows[r];
                let mut quoted: Vec<String> = Vec::new();
                let ncells = row.len();
                let mut c: usize = 0;
                let ghost q = |v: Seq<char>| seq!['\''] + crate::text::escape_quotes(v)
                    + seq!['\''];
                proof {
                    let f = |s: String| s@;
                    assert(quoted@.map_values(f) =~= row@.take(0).map_values(f).map_values(
                        q,
                    ));
                }
                while c < ncells
                    invariant
                        c <= ncells,
                        ncells == row@.len(),
                        q == (|v: Seq<char>| seq!['\''] + crate::text::escape_quotes(v)
                            + seq!['\'']),
                        quoted@.map_values(|s: String| s@) == row@.take(c as int).map_values(
                            |s: String| s@,
                        ).map_values(q),
                    decreases ncells - c,
                {
                    let ghost prevq = quoted@;
                    proof {
                        reveal_strlit("'");
                        assert("'"@ =~= seq!['\'']);
                    }
                    let escaped = crate::text::escape_quotes_exec(row[c].as_str());
                    let cell = String::from_str("'").concat(escaped.as_str()).concat("'");
                    quoted.push(cell);
                    proof {
                        let f = |s: String| s@;
                        assert(quoted@.map_values(f) =~= prevq.map_values(f).push(
                            q(row@[c as int]@),
                        ));
                        assert(row@.take(c as int + 1).map_values(f).map_values(q)
                            =~= row@.take(c as int).map_values(f).map_values(q).push(
                            q(row@[c as int]@),
                        ));
                    }
                    c += 1;
                }
                let tuple = String::from_str("(").concat(
                    crate::text::join_with(&quoted, ", ").as_str(),
                ).concat(")");
                let ghost prev_tuples = tuples@;
                tuples.push(tuple);
                proof {
                    let f = |s: String| s@;
                    let rt = |w: Seq<Seq<char>>| spec_row_tuple(w);
                    assert(row@.take(ncells as int) =~= row@);
                    assert(rs[r as int] == row@.map_values(f));
                    assert(tuples@.map_values(f) =~= prev_tuples.map_values(f).push(
                        spec_row_tuple(rs[r as int]),
                    ));
                    assert(rs.subrange(start as int, r as int + 1).map_values(rt)
                        =~= rs.subrange(start as int, r as int).map_values(rt).push(
                        rt(rs[r as int]),
                    ));
                }
                r += 1;
            }
            let stmt = String::from_str("INSERT INTO `").concat(table.as_str()).concat(
                "` (",
            ).concat(col_list.as_str()).concat(") VALUES ").concat(
                crate::text::join_with(&tuples, ", ").as_str(),
            );
            stmts.push(stmt);
            proof {
                let f = |s: String| s@;
                assert(stmts@.map_values(f) =~= prev_stmts.map_values(f).push(stmt@));
                assert(stmts@.map_values(f) + spec_insert_stmts_from(
                    sheet.name@,
                    hs,
                    rs,
                    end as int,
                ) =~= prev_stmts.map_values(f) + spec_insert_stmts_from(
                    sheet.name@,
                    hs,
                    rs,
                    start as int,
                ));
            }
            start = end;
        }
        proof {
            let f = |s: String| s@;
            assert(stmts@.map_values(f) + spec_insert_stmts_from(
                sheet.name@,
                hs,
                rs,
                nrows as int,
            ) =~= stmts@.map_values(f));
        }
        stmts
    }
}

} // verus!

verus! {

/// One row of cells rendered as display strings.
fn row_strings(row: &Vec<crate::sheet::CellValue>) -> (r: Vec<String>)
    ensures
        r@.map_values(|s: String| s@) == row@.map_values(
            |c: crate::sheet::CellValue| crate::sheet::spec_cell_text(c),
        ),
{
    let mut out: Vec<String> = Vec::new();
    let n = row.len();
    let mut i: usize = 0;
    let ghost g = |c: crate::sheet::CellValue| crate::sheet::spec_cell_text(c);
    proof {
        let f = |s: String| s@;
        assert(out@.map_values(f) =~= row@.take(0).map_values(g));
    }
    while i < n
        invariant
            i <= n,
            n == row@.len(),
            g == (|c: crate::sheet::CellValue| crate::sheet::spec_cell_text(c)),
            out@.map_values(|s: String| s@) == row@.take(i as int).map_values(g),
        decreases n - i,
    {
        let ghost prev = out@;
        out.push(crate::sheet::cell_text(&row[i]));
        proof {
            let f = |s: String| s@;
            assert(out@.map_values(f) =~= prev.map_values(f).push(g(row@[i as int])));
            assert(row@.take(i as int + 1).map_values(g) =~= row@.take(i as int).map_values(
                g,
            ).push(g(row@[i as int])));
        }
        i += 1;
    }
    proof {
        assert(row@.take(n as int) =~= row@);
    }
    out
}

/// Read a parsed sheet as the import executor does: the first row as the
/// headers, every following row as data, all cells as display strings.
pub fn sheet_to_strings(sheet: &crate::sheet::Sheet) -> (r: SheetStrings)
    ensures
        r.name@ == sheet.name@,
        sheet.rows@.len() == 0 ==> r.headers@.len() == 0 && r.rows@.len() == 0,
        sheet.rows@.len() > 0 ==> {
            &&& r.headers@.map_values(|s: String| s@) == sheet.rows@[0]@.map_values(
                |c: crate::sheet::CellValue| crate::sheet::spec_cell_text(c),
            )
            &&& r.rows@.len() == sheet.rows@.len() - 1
            &&& forall|i: int|
                0 <= i < r.rows@.len() ==> (#[trigger] r.rows@[i])@.map_values(
                    |s: String| s@,
                ) == sheet.rows@[i + 1]@.map_values(
                    |c: crate::sheet::CellValue| crate::sheet::spec_cell_text(c),
                )
        },
{
    let name = String::from_str(sheet.name.as_str());
    if sheet.rows.len() == 0 {
        return SheetStrings { name, headers: Vec::new(), rows: Vec::new() };
    }
    let headers = row_strings(&sheet.rows[0]);
    let mut rows: Vec<Vec<String>> = Vec::new();
    let n = sheet.rows.len();
    let mut i: usize = 1;
    while i < n
        invariant
            1 <= i <= n,
            n == sheet.rows@.len(),
            rows@.len() == i - 1,
            forall|j: int|
                0 <= j < i - 1 ==> (#[trigger] rows@[j])@.map_values(|s: String| s@)
                    == sheet.rows@[j + 1]@.map_values(
                    |c: crate::sheet::CellValue| crate::sheet::spec_cell_text(c),
                ),
        decreases n - i,
    {
        let ghost prev = rows@;
        rows.push(row_strings(&sheet.rows[i]));
        proof {
            assert forall|j: int|
                0 <= j < i implies (#[trigger] rows@[j])@.map_values(|s: String| s@)
                == sheet.rows@[j + 1]@.map_values(
                |c: crate::sheet::CellValue| crate::sheet::spec_cell_text(c),
            ) by {
                if j < i - 1 {
                    assert(rows@[j] == prev[j]);
                } else {
                    assert(rows@[j] == rows@.last());
                }
            }
        }
        i += 1;
    }
    SheetStrings { name, headers, rows }
}

} // verus!

verus! {

/// The task engine's follow-up handling: each declared next action is
/// only logged, never triggered — a deliberate stub. The returned lines
/// are what the boundary logs, in order.
pub fn trigger_next_actions(actions: &Vec<NextAction>) -> (r: Vec<String>)
    ensures
        r@.len() == actions@.len(),
        forall|i: int|
            0 <= i < actions@.len() ==> (#[trigger] r@[i])@ == "Triggering next action: "@
                + actions@[i].action_type@ + " for task "@ + actions@[i].target_task_id@,
{
    let mut out: Vec<String> = Vec::new();
    let n = actions.len();
    let mut i: usize = 0;
    while i < n
        invariant
            i <= n,
            n == actions@.len(),
            out@.len() == i,
            forall|j: int|
                0 <= j < i ==> (#[trigger] out@[j])@ == "Triggering next action: "@
                    + actions@[j].action_type@ + " for task "@ + actions@[j].target_task_id@,
        decreases n - i,
    {
        let action = &actions[i];
        let line = String::from_str("Triggering next action: ").concat(
            action.action_type.as_str(),
        ).concat(" for task ").concat(action.target_task_id.as_str());
        out.push(line);
        i += 1;
    }
    out
}

} // verus!
