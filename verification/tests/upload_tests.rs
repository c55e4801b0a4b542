use dynquery::errors::ServiceError;
use dynquery::json::JsonValue;
use dynquery::sheet::{convert_cell_value, parse_workbook, CellValue};
use dynquery::executor::{sheet_to_strings, ExcelExecutor};
use dynquery::upload::{plan_upload, plan_upload_from_rows, ColumnDef};

fn obj(pairs: Vec<(&str, JsonValue)>) -> JsonValue {
    JsonValue::Object(pairs.into_iter().map(|(k, v)| (k.to_string(), v)).collect())
}

fn column(name: &str, data_type: &str, partitioner: bool) -> ColumnDef {
    ColumnDef {
        id: format!("col-{}", name),
        data_table_id: "t1".to_string(),
        column_index: 0,
        name: name.to_string(),
        desc: None,
        data_type: data_type.to_string(),
        nullable: true,
        default_value: None,
        partitioner,
    }
}

fn pg_config() -> JsonValue {
    obj(vec![
        ("host", JsonValue::Str("h".to_string())),
        ("database", JsonValue::Str("d".to_string())),
        ("username", JsonValue::Str("u".to_string())),
        ("password", JsonValue::Str("p".to_string())),
    ])
}

fn scenario_columns() -> Vec<ColumnDef> {
    vec![column("region", "string", true), column("amount", "int", false)]
}

fn scenario_rows() -> Vec<Vec<CellValue>> {
    vec![
        vec![CellValue::Text("amount".to_string())],
        vec![CellValue::Number { repr: "42".to_string(), int_repr: "42".to_string() }],
    ]
}

/// A one-sheet workbook: sheet "Sheet1", header cell `amount`, one data
/// row holding the number 42.
fn workbook_bytes() -> Vec<u8> {
    vec![80, 75, 3, 4, 20, 0, 0, 0, 8, 0, 234, 67, 75, 93, 197, 47, 29, 125, 0, 1, 0, 0, 46, 2, 0, 0, 19, 0, 0, 0, 91, 67, 111, 110, 116, 101, 110, 116, 95, 84, 121, 112, 101, 115, 93, 46, 120, 109, 108, 173, 145, 205, 78, 195, 48, 16, 132, 239, 60, 133, 229, 107, 21, 59, 229, 128, 16, 74, 210, 67, 129, 35, 112, 40, 15, 176, 56, 155, 196, 138, 255, 228, 117, 75, 250, 246, 56, 105, 225, 128, 10, 92, 56, 173, 236, 153, 217, 111, 100, 87, 155, 201, 26, 118, 192, 72, 218, 187, 154, 175, 69, 201, 25, 58, 229, 91, 237, 250, 154, 191, 238, 30, 139, 91, 206, 40, 129, 107, 193, 120, 135, 53, 63, 34, 241, 77, 115, 85, 237, 142, 1, 137, 229, 176, 163, 154, 15, 41, 133, 59, 41, 73, 13, 104, 129, 132, 15, 232, 178, 210, 249, 104, 33, 229, 99, 236, 101, 0, 53, 66, 143, 242, 186, 44, 111, 164, 242, 46, 161, 75, 69, 154, 119, 240, 166, 186, 199, 14, 246, 38, 177, 135, 41, 95, 159, 138, 68, 52, 196, 217, 246, 100, 156, 89, 53, 135, 16, 140, 86, 144, 178, 46, 15, 174, 253, 70, 41, 206, 4, 145, 147, 139, 135, 6, 29, 104, 149, 13, 92, 94, 36, 204, 202, 207, 128, 115, 238, 57, 191, 76, 212, 45, 178, 23, 136, 233, 9, 108, 118, 201, 201, 200, 119, 31, 199, 55, 239, 71, 241, 251, 146, 11, 45, 125, 215, 105, 133, 173, 87, 123, 155, 35, 130, 66, 68, 104, 105, 64, 76, 214, 136, 101, 10, 11, 218, 173, 254, 230, 47, 102, 146, 203, 88, 255, 115, 145, 175, 253, 159, 61, 228, 242, 221, 205, 7, 80, 75, 3, 4, 20, 0, 0, 0, 8, 0, 234, 67, 75, 93, 6, 89, 199, 130, 177, 0, 0, 0, 40, 1, 0, 0, 11, 0, 0, 0, 95, 114, 101, 108, 115, 47, 46, 114, 101, 108, 115, 141, 207, 177, 14, 130, 48, 16, 6, 224, 221, 167, 104, 110, 151, 130, 131, 49, 134, 194, 98, 76, 88, 13, 62, 64, 109, 143, 66, 128, 94, 211, 86, 133, 183, 183, 163, 26, 7, 199, 203, 253, 247, 253, 185, 178, 94, 230, 137, 61, 208, 135, 129, 172, 128, 34, 203, 129, 161, 85, 164, 7, 107, 4, 92, 219, 243, 246, 0, 44, 68, 105, 181, 156, 200, 162, 128, 21, 3, 212, 213, 166, 188, 224, 36, 99, 186, 9, 253, 224, 2, 75, 136, 13, 2, 250, 24, 221, 145, 243, 160, 122, 156, 101, 200, 200, 161, 77, 155, 142, 252, 44, 99, 26, 189, 225, 78, 170, 81, 26, 228, 187, 60, 223, 115, 255, 110, 64, 245, 97, 178, 70, 11, 240, 141, 46, 128, 181, 171, 195, 127, 108, 234, 186, 65, 225, 137, 212, 125, 70, 27, 127, 84, 124, 37, 146, 44, 189, 193, 40, 96, 153, 248, 147, 252, 120, 35, 26, 179, 132, 2, 175, 74, 254, 241, 96, 245, 2, 80, 75, 3, 4, 20, 0, 0, 0, 8, 0, 234, 67, 75, 93, 119, 64, 254, 196, 188, 0, 0, 0, 28, 1, 0, 0, 15, 0, 0, 0, 120, 108, 47, 119, 111, 114, 107, 98, 111, 111, 107, 46, 120, 109, 108, 141, 79, 203, 142, 194, 48, 12, 188, 243, 21, 145, 239, 75, 218, 61, 32, 84, 181, 229, 130, 144, 56, 47, 124, 64, 104, 92, 26, 209, 216, 149, 157, 229, 241, 247, 132, 215, 157, 211, 140, 53, 154, 241, 76, 189, 186, 198, 209, 156, 81, 52, 48, 53, 80, 206, 11, 48, 72, 29, 251, 64, 199, 6, 246, 187, 205, 207, 18, 140, 38, 71, 222, 141, 76, 216, 192, 13, 21, 86, 237, 172, 190, 176, 156, 14, 204, 39, 147, 253, 164, 13, 12, 41, 77, 149, 181, 218, 13, 24, 157, 206, 121, 66, 202, 74, 207, 18, 93, 202, 167, 28, 173, 78, 130, 206, 235, 128, 152, 226, 104, 127, 139, 98, 97, 163, 11, 4, 175, 132, 74, 190, 201, 224, 190, 15, 29, 174, 185, 251, 143, 72, 233, 21, 34, 56, 186, 148, 219, 235, 16, 38, 133, 182, 126, 126, 208, 55, 26, 114, 49, 183, 254, 123, 240, 50, 47, 121, 224, 214, 231, 161, 96, 164, 10, 153, 200, 214, 151, 96, 219, 218, 126, 108, 246, 179, 172, 189, 3, 80, 75, 3, 4, 20, 0, 0, 0, 8, 0, 234, 67, 75, 93, 154, 111, 60, 124, 181, 0, 0, 0, 41, 1, 0, 0, 26, 0, 0, 0, 120, 108, 47, 95, 114, 101, 108, 115, 47, 119, 111, 114, 107, 98, 111, 111, 107, 46, 120, 109, 108, 46, 114, 101, 108, 115, 141, 207, 205, 10, 194, 48, 12, 7, 240, 187, 79, 81, 114, 119, 217, 60, 136, 200, 186, 93, 68, 216, 85, 230, 3, 148, 46, 251, 96, 91, 91, 154, 250, 177, 183, 183, 120, 16, 7, 30, 60, 133, 228, 79, 126, 33, 121, 249, 156, 39, 113, 39, 207, 131, 53, 18, 178, 36, 5, 65, 70, 219, 102, 48, 157, 132, 107, 125, 222, 30, 64, 112, 80, 166, 81, 147, 53, 36, 97, 33, 134, 178, 216, 228, 23, 154, 84, 136, 59, 220, 15, 142, 69, 68, 12, 75, 232, 67, 112, 71, 68, 214, 61, 205, 138, 19, 235, 200, 196, 164, 181, 126, 86, 33, 182, 190, 67, 167, 244, 168, 58, 194, 93, 154, 238, 209, 127, 27, 80, 172, 76, 81, 53, 18, 124, 213, 100, 32, 234, 197, 209, 63, 182, 109, 219, 65, 211, 201, 234, 219, 76, 38, 252, 56, 129, 15, 235, 71, 238, 137, 66, 68, 149, 239, 40, 72, 248, 140, 24, 223, 37, 75, 162, 10, 88, 228, 184, 250, 176, 120, 1, 80, 75, 3, 4, 20, 0, 0, 0, 8, 0, 234, 67, 75, 93, 156, 226, 251, 13, 191, 0, 0, 0, 19, 1, 0, 0, 24, 0, 0, 0, 120, 108, 47, 119, 111, 114, 107, 115, 104, 101, 101, 116, 115, 47, 115, 104, 101, 101, 116, 49, 46, 120, 109, 108, 77, 143, 65, 78, 196, 48, 12, 69, 247, 156, 34, 242, 158, 113, 167, 66, 8, 161, 36, 35, 36, 196, 5, 128, 3, 88, 173, 153, 70, 52, 78, 21, 155, 14, 220, 158, 116, 22, 213, 44, 44, 125, 63, 219, 223, 182, 63, 253, 230, 217, 173, 92, 53, 21, 9, 112, 60, 116, 224, 88, 134, 50, 38, 57, 7, 248, 252, 120, 187, 127, 2, 167, 70, 50, 210, 92, 132, 3, 252, 177, 194, 41, 222, 249, 75, 169, 223, 58, 49, 155, 107, 6, 162, 1, 38, 179, 229, 25, 81, 135, 137, 51, 233, 161, 44, 44, 173, 242, 85, 106, 38, 107, 105, 61, 163, 46, 149, 105, 188, 14, 229, 25, 251, 174, 123, 196, 76, 73, 32, 250, 43, 123, 37, 163, 232, 107, 185, 184, 218, 14, 105, 116, 216, 196, 203, 17, 156, 5, 72, 50, 39, 225, 119, 171, 141, 39, 141, 222, 34, 229, 242, 35, 230, 209, 162, 199, 141, 224, 208, 162, 77, 239, 22, 253, 110, 177, 169, 53, 62, 244, 30, 215, 219, 62, 188, 89, 139, 251, 63, 241, 31, 80, 75, 1, 2, 20, 3, 20, 0, 0, 0, 8, 0, 234, 67, 75, 93, 197, 47, 29, 125, 0, 1, 0, 0, 46, 2, 0, 0, 19, 0, 0, 0, 0, 0, 0, 0, 0, 0, 0, 0, 128, 1, 0, 0, 0, 0, 91, 67, 111, 110, 116, 101, 110, 116, 95, 84, 121, 112, 101, 115, 93, 46, 120, 109, 108, 80, 75, 1, 2, 20, 3, 20, 0, 0, 0, 8, 0, 234, 67, 75, 93, 6, 89, 199, 130, 177, 0, 0, 0, 40, 1, 0, 0, 11, 0, 0, 0, 0, 0, 0, 0, 0, 0, 0, 0, 128, 1, 49, 1, 0, 0, 95, 114, 101, 108, 115, 47, 46, 114, 101, 108, 115, 80, 75, 1, 2, 20, 3, 20, 0, 0, 0, 8, 0, 234, 67, 75, 93, 119, 64, 254, 196, 188, 0, 0, 0, 28, 1, 0, 0, 15, 0, 0, 0, 0, 0, 0, 0, 0, 0, 0, 0, 128, 1, 11, 2, 0, 0, 120, 108, 47, 119, 111, 114, 107, 98, 111, 111, 107, 46, 120, 109, 108, 80, 75, 1, 2, 20, 3, 20, 0, 0, 0, 8, 0, 234, 67, 75, 93, 154, 111, 60, 124, 181, 0, 0, 0, 41, 1, 0, 0, 26, 0, 0, 0, 0, 0, 0, 0, 0, 0, 0, 0, 128, 1, 244, 2, 0, 0, 120, 108, 47, 95, 114, 101, 108, 115, 47, 119, 111, 114, 107, 98, 111, 111, 107, 46, 120, 109, 108, 46, 114, 101, 108, 115, 80, 75, 1, 2, 20, 3, 20, 0, 0, 0, 8, 0, 234, 67, 75, 93, 156, 226, 251, 13, 191, 0, 0, 0, 19, 1, 0, 0, 24, 0, 0, 0, 0, 0, 0, 0, 0, 0, 0, 0, 128, 1, 225, 3, 0, 0, 120, 108, 47, 119, 111, 114, 107, 115, 104, 101, 101, 116, 115, 47, 115, 104, 101, 101, 116, 49, 46, 120, 109, 108, 80, 75, 5, 6, 0, 0, 0, 0, 5, 0, 5, 0, 69, 1, 0, 0, 214, 4, 0, 0, 0, 0]
}

#[test]
fn partition_form_fields_are_recognized_by_prefix() {
    assert_eq!(
        dynquery::upload::partition_field("partition_region"),
        Some("region".to_string())
    );
    assert_eq!(dynquery::upload::partition_field("partition_"), Some("".to_string()));
    assert_eq!(dynquery::upload::partition_field("file"), None);
    assert_eq!(dynquery::upload::partition_field("partitio_x"), None);
}

#[test]
fn partitioned_upload_plans_delete_then_insert() {
    let plan = plan_upload_from_rows(
        "t",
        &scenario_columns(),
        &vec![("region".to_string(), "east".to_string())],
        &scenario_rows(),
        "postgresql",
        &pg_config(),
    )
    .unwrap();
    assert_eq!(plan.delete_sql, "DELETE FROM t WHERE region = 'east'");
    assert_eq!(plan.inserts.len(), 1);
    assert_eq!(
        plan.inserts[0].sql,
        "INSERT INTO t (amount, region) VALUES (42, 'east')"
    );
    assert_eq!(plan.inserts[0].cols, vec!["amount", "region"]);
    assert_eq!(plan.inserts[0].vals, vec!["42", "'east'"]);
    assert_eq!(plan.connection_string, "postgres://u:p@h:5432/d");
}

#[test]
fn replanning_the_same_upload_is_identical() {
    let a = plan_upload_from_rows(
        "t",
        &scenario_columns(),
        &vec![("region".to_string(), "east".to_string())],
        &scenario_rows(),
        "postgresql",
        &pg_config(),
    )
    .unwrap();
    let b = plan_upload_from_rows(
        "t",
        &scenario_columns(),
        &vec![("region".to_string(), "east".to_string())],
        &scenario_rows(),
        "postgresql",
        &pg_config(),
    )
    .unwrap();
    assert_eq!(a.delete_sql, b.delete_sql);
    assert_eq!(a.inserts.len(), b.inserts.len());
    for (x, y) in a.inserts.iter().zip(b.inserts.iter()) {
        assert_eq!(x.sql, y.sql);
    }
    assert!(a.inserts[0].sql.contains("'east'"));
}

#[test]
fn missing_partition_value_is_rejected() {
    let err = plan_upload_from_rows(
        "t",
        &scenario_columns(),
        &vec![],
        &scenario_rows(),
        "postgresql",
        &pg_config(),
    )
    .unwrap_err();
    assert_eq!(
        err,
        ServiceError::InvalidInput("Missing partition value for column: region".to_string())
    );
}

#[test]
fn data_column_must_appear_in_header() {
    let rows = vec![
        vec![CellValue::Text("other".to_string())],
        vec![CellValue::Int(1)],
    ];
    let err = plan_upload_from_rows(
        "t",
        &scenario_columns(),
        &vec![("region".to_string(), "east".to_string())],
        &rows,
        "postgresql",
        &pg_config(),
    )
    .unwrap_err();
    assert_eq!(
        err,
        ServiceError::InvalidInput("Column 'amount' not found in Excel file".to_string())
    );
}

#[test]
fn table_without_columns_is_rejected() {
    let err = plan_upload_from_rows(
        "t",
        &vec![],
        &vec![],
        &scenario_rows(),
        "postgresql",
        &pg_config(),
    )
    .unwrap_err();
    assert_eq!(
        err,
        ServiceError::InvalidInput("Data table has no columns defined".to_string())
    );
}

#[test]
fn sheet_without_rows_is_rejected() {
    let err = plan_upload_from_rows(
        "t",
        &scenario_columns(),
        &vec![("region".to_string(), "east".to_string())],
        &vec![],
        "postgresql",
        &pg_config(),
    )
    .unwrap_err();
    assert_eq!(err, ServiceError::InvalidInput("Excel file is empty".to_string()));
}

#[test]
fn non_postgres_target_is_rejected() {
    let err = plan_upload_from_rows(
        "t",
        &scenario_columns(),
        &vec![("region".to_string(), "east".to_string())],
        &scenario_rows(),
        "mysql",
        &pg_config(),
    )
    .unwrap_err();
    assert_eq!(
        err,
        ServiceError::InvalidInput("Unsupported database type: mysql".to_string())
    );
}

#[test]
fn error_cells_convert_to_their_literal_form() {
    let rows = vec![
        vec![CellValue::Text("amount".to_string())],
        vec![CellValue::CellError("#DIV/0!".to_string())],
    ];
    let plan = plan_upload_from_rows(
        "t",
        &scenario_columns(),
        &vec![("region".to_string(), "east".to_string())],
        &rows,
        "postgresql",
        &pg_config(),
    )
    .unwrap();
    assert_eq!(
        plan.inserts[0].sql,
        "INSERT INTO t (amount, region) VALUES ('#DIV/0!', 'east')"
    );
}

#[test]
fn incomplete_upload_connection_config_names_the_field() {
    let config = obj(vec![("host", JsonValue::Str("h".to_string()))]);
    let err = plan_upload_from_rows(
        "t",
        &scenario_columns(),
        &vec![("region".to_string(), "east".to_string())],
        &scenario_rows(),
        "postgresql",
        &config,
    )
    .unwrap_err();
    assert_eq!(
        err,
        ServiceError::InvalidInput("Missing database in connection config".to_string())
    );
}

#[test]
fn empty_and_text_cells_convert_to_literals() {
    let rows = vec![
        vec![
            CellValue::Text("amount".to_string()),
            CellValue::Text("note".to_string()),
        ],
        vec![CellValue::Empty, CellValue::Text("it's".to_string())],
    ];
    let columns = vec![
        column("region", "string", true),
        column("amount", "int", false),
        column("note", "text", false),
    ];
    let plan = plan_upload_from_rows(
        "t",
        &columns,
        &vec![("region".to_string(), "east".to_string())],
        &rows,
        "PostgreSQL",
        &pg_config(),
    )
    .unwrap();
    assert_eq!(
        plan.inserts[0].sql,
        "INSERT INTO t (amount, note, region) VALUES (NULL, 'it''s', 'east')"
    );
}

#[test]
fn cell_conversion_follows_declared_type() {
    assert_eq!(convert_cell_value(&CellValue::Empty, "text"), "NULL");
    assert_eq!(
        convert_cell_value(&CellValue::Text("a'b".to_string()), "text"),
        "'a''b'"
    );
    let num = CellValue::Number { repr: "42.5".to_string(), int_repr: "42".to_string() };
    assert_eq!(convert_cell_value(&num, "BIGINT"), "42");
    assert_eq!(convert_cell_value(&num, "numeric"), "42.5");
    assert_eq!(convert_cell_value(&CellValue::Int(-3), "int"), "-3");
    assert_eq!(convert_cell_value(&CellValue::Bool(true), "bool"), "true");
    assert_eq!(
        convert_cell_value(&CellValue::DateTimeIso("2024-01-01".to_string()), "date"),
        "'2024-01-01'"
    );
    assert_eq!(
        convert_cell_value(
            &CellValue::CellError("#REF!".to_string()),
            "text",
        ),
        "'#REF!'"
    );
}

#[test]
fn workbook_bytes_plan_end_to_end() {
    let plan = plan_upload(
        "t",
        &scenario_columns(),
        &vec![("region".to_string(), "east".to_string())],
        workbook_bytes(),
        "PostgreSQL",
        &pg_config(),
    )
    .unwrap();
    assert_eq!(plan.delete_sql, "DELETE FROM t WHERE region = 'east'");
    assert_eq!(plan.inserts.len(), 1);
    assert_eq!(
        plan.inserts[0].sql,
        "INSERT INTO t (amount, region) VALUES (42, 'east')"
    );
}

#[test]
fn workbook_parses_into_sheets_and_statements() {
    let sheets = parse_workbook(workbook_bytes()).unwrap();
    assert_eq!(sheets.len(), 1);
    assert_eq!(sheets[0].name, "Sheet1");
    let strings = sheet_to_strings(&sheets[0]);
    assert_eq!(strings.headers, vec!["amount"]);
    assert_eq!(strings.rows, vec![vec!["42".to_string()]]);
    assert_eq!(
        ExcelExecutor::create_table_sql(&strings),
        "CREATE TABLE IF NOT EXISTS `sheet1` (id INT AUTO_INCREMENT PRIMARY KEY, `amount` TEXT)"
    );
    assert_eq!(
        ExcelExecutor::insert_statements(&strings),
        vec!["INSERT INTO `sheet1` (`amount`) VALUES ('42')"]
    );
}

#[test]
fn bad_bytes_fail_with_open_error() {
    let err = plan_upload(
        "t",
        &scenario_columns(),
        &vec![("region".to_string(), "east".to_string())],
        vec![1, 2, 3],
        "PostgreSQL",
        &pg_config(),
    )
    .unwrap_err();
    match err {
        ServiceError::InvalidInput(m) => {
            assert!(m.starts_with("Failed to open Excel file: "));
        }
        other => panic!("unexpected error: {:?}", other),
    }
}
