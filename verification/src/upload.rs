//! The partition-aware tabular import planner.
//!
//! An upload against a table with a declared column schema is validated
//! and turned into statements: every partition column must have a supplied
//! value, every non-partition column must appear in the sheet's header
//! row, and the resulting plan deletes the rows matching the conjunction
//! of the partition equalities — all rows where no partition column is
//! declared — and then inserts one row per data row, each insert carrying
//! the partition values as additional literals. Values are interpolated
//! as literals, not bound: the upload path trusts its caller, a
//! documented injection-risk surface, deliberately not hardened here.
//!
//! The whole plan is produced before anything runs, so a defective cell
//! or configuration refuses the upload before the delete — a
//! strengthening over failing midway. The boundary must still run the
//! delete before the inserts: the delete-then-insert order is what makes
//! re-importing a partition idempotent.

use vstd::prelude::*;

use crate::connect::{
    postgres_connection_string, query_conn_missing, query_conn_msg, spec_db_kind,
    spec_postgres_conn, DbKind,
};
use crate::errors::ServiceError;
use crate::json::JsonValue;
use crate::sheet::{rows_view, spec_cell_literal, spec_cell_text, CellValue};
use crate::text::{join_with, spec_join, spec_trim, str_eq, trim};

verus! {

/// A declared column of a data table.
#[derive(Debug)]
pub struct ColumnDef {
    pub id: String,
    pub data_table_id: String,
    pub column_index: i32,
    pub name: String,
    pub desc: Option<String>,
    pub data_type: String,
    pub nullable: bool,
    pub default_value: Option<String>,
    pub partitioner: bool,
}

/// One planned insert: the column names, the value literals in the same
/// order, and the rendered statement.
#[derive(Debug)]
pub struct InsertRow {
    pub cols: Vec<String>,
    pub vals: Vec<String>,
    pub sql: String,
}

/// The full plan for one upload: where to connect, what to delete, and
/// the row inserts in sheet order. The number of rows reported as
/// inserted is the number of planned inserts.
#[derive(Debug)]
pub struct UploadPlan {
    pub connection_string: String,
    pub delete_sql: String,
    pub inserts: Vec<InsertRow>,
}

/// The header names of the first sheet row, each trimmed.
pub open spec fn spec_headers(row0: Seq<CellValue>) -> Seq<Seq<char>> {
    row0.map_values(|c: CellValue| spec_trim(spec_cell_text(c)))
}

/// The position of the last header with the given name, as a map built
/// front to back keeps the last insertion for a repeated name.
pub open spec fn header_index(headers: Seq<Seq<char>>, name: Seq<char>) -> Option<int>
    decreases headers.len(),
{
    if headers.len() == 0 {
        Option::None
    } else if headers.last() == name {
        Option::Some(headers.len() - 1)
    } else {
        header_index(headers.drop_last(), name)
    }
}

/// The supplied partition value for a column name; the last entry wins,
/// as a map built front to back would keep it.
pub open spec fn pv_lookup(pvs: Seq<(String, String)>, name: Seq<char>) -> Option<Seq<char>>
    decreases pvs.len(),
{
    if pvs.len() == 0 {
        Option::None
    } else if pvs.last().0@ == name {
        Option::Some(pvs.last().1@)
    } else {
        pv_lookup(pvs.drop_last(), name)
    }
}

/// The names of the columns with the given partitioner flag, in column
/// order.
pub open spec fn names_where(cols: Seq<ColumnDef>, partitioner: bool) -> Seq<Seq<char>>
    decreases cols.len(),
{
    if cols.len() == 0 {
        Seq::empty()
    } else {
        names_where(cols.drop_last(), partitioner) + (if cols.last().partitioner
            == partitioner {
            seq![cols.last().name@]
        } else {
            Seq::<Seq<char>>::empty()
        })
    }
}

/// The column list of every planned insert: the non-partition columns,
/// then the partition columns, each in declared order.
pub open spec fn spec_insert_cols(cols: Seq<ColumnDef>) -> Seq<Seq<char>> {
    names_where(cols, false) + names_where(cols, true)
}

/// The equality conditions of the delete, one per partition column with a
/// supplied value: `name = 'value'`.
pub open spec fn spec_delete_conds(cols: Seq<ColumnDef>, pvs: Seq<(String, String)>) -> Seq<
    Seq<char>,
>
    decreases cols.len(),
{
    if cols.len() == 0 {
        Seq::empty()
    } else {
        spec_delete_conds(cols.drop_last(), pvs) + (if cols.last().partitioner && pv_lookup(
            pvs,
            cols.last().name@,
        ) is Some {
            seq![
                cols.last().name@ + " = '"@ + pv_lookup(pvs, cols.last().name@)->Some_0
                    + "'"@,
            ]
        } else {
            Seq::<Seq<char>>::empty()
        })
    }
}

/// The delete statement: all rows of the table when no condition is
/// declared, else the rows matching every condition.
pub open spec fn spec_delete_sql(table: Seq<char>, conds: Seq<Seq<char>>) -> Seq<char> {
    if conds.len() == 0 {
        "DELETE FROM "@ + table
    } else {
        "DELETE FROM "@ + table + " WHERE "@ + spec_join(conds, " AND "@)
    }
}

/// The literal a non-partition column contributes for a sheet row:
/// `NULL` when the header or the cell is absent, else the cell's literal
/// under the column's declared type.
pub open spec fn col_literal(
    col: ColumnDef,
    headers: Seq<Seq<char>>,
    row: Seq<CellValue>,
) -> Seq<char> {
    match header_index(headers, col.name@) {
        Option::Some(idx) => if 0 <= idx < row.len() {
            spec_cell_literal(row[idx], col.data_type@)
        } else {
            "NULL"@
        },
        Option::None => "NULL"@,
    }
}

/// The literals of the non-partition columns for one sheet row, in
/// column order.
pub open spec fn spec_data_vals(
    cols: Seq<ColumnDef>,
    headers: Seq<Seq<char>>,
    row: Seq<CellValue>,
) -> Seq<Seq<char>>
    decreases cols.len(),
{
    if cols.len() == 0 {
        Seq::empty()
    } else {
        spec_data_vals(cols.drop_last(), headers, row) + (if cols.last().partitioner {
            Seq::<Seq<char>>::empty()
        } else {
            seq![col_literal(cols.last(), headers, row)]
        })
    }
}

/// The quoted partition values appended to every insert, in column order.
pub open spec fn spec_part_vals(cols: Seq<ColumnDef>, pvs: Seq<(String, String)>) -> Seq<
    Seq<char>,
>
    decreases cols.len(),
{
    if cols.len() == 0 {
        Seq::empty()
    } else {
        spec_part_vals(cols.drop_last(), pvs) + (if cols.last().partitioner && pv_lookup(
            pvs,
            cols.last().name@,
        ) is Some {
            seq![seq!['\''] + pv_lookup(pvs, cols.last().name@)->Some_0 + seq!['\'']]
        } else {
            Seq::<Seq<char>>::empty()
        })
    }
}

/// One rendered insert statement.
pub open spec fn spec_insert_sql(
    table: Seq<char>,
    cols: Seq<Seq<char>>,
    vals: Seq<Seq<char>>,
) -> Seq<char> {
    "INSERT INTO "@ + table + " ("@ + spec_join(cols, ", "@) + ") VALUES ("@ + spec_join(
        vals,
        ", "@,
    ) + ")"@
}

/// What a well-formed planned insert is for one sheet row: the column
/// list, the value literals — the row's converted cells, then the quoted
/// partition values — and the rendered statement.
pub open spec fn insert_ok(
    ins: InsertRow,
    table: Seq<char>,
    cols: Seq<ColumnDef>,
    headers: Seq<Seq<char>>,
    row: Seq<CellValue>,
    pvs: Seq<(String, String)>,
) -> bool {
    let dv = spec_data_vals(cols, headers, row);
    &&& ins.cols@.map_values(|s: String| s@) == spec_insert_cols(cols)
    &&& ins.vals@.map_values(|s: String| s@) == dv + spec_part_vals(cols, pvs)
    &&& ins.sql@ == spec_insert_sql(
        table,
        spec_insert_cols(cols),
        dv + spec_part_vals(cols, pvs),
    )
}

/// The column a form field of the upload endpoint names, when the field
/// is of the form `partition_<column>`.
pub fn partition_field(name: &str) -> (r: Option<String>)
    ensures
        match r {
            Some(col) => name@.len() >= 10 && name@.take(10) == "partition_"@ && col@
                == name@.skip(10),
            None => !(name@.len() >= 10 && name@.take(10) == "partition_"@),
        },
{
    let len = name.unicode_len();
    if len < 10 {
        return None;
    }
    proof {
        assert(name@.take(10) =~= name@.subrange(0, 10));
        assert(name@.skip(10) =~= name@.subrange(10, name@.len() as int));
    }
    let prefix = name.substring_char(0, 10);
    if str_eq(prefix, "partition_") {
        let rest = name.substring_char(10, len);
        Some(String::from_str(rest))
    } else {
        None
    }
}

/// Trimmed header names of the first row.
pub fn headers_exec(row0: &Vec<CellValue>) -> (r: Vec<String>)
    ensures
        r@.map_values(|s: String| s@) == spec_headers(row0@),
{
    let mut out: Vec<String> = Vec::new();
    let n = row0.len();
    let mut i: usize = 0;
    proof {
        assert(out@.map_values(|s: String| s@) =~= spec_headers(row0@.take(0)));
    }
    while i < n
        invariant
            i <= n,
            n == row0@.len(),
            out@.map_values(|s: String| s@) == spec_headers(row0@.take(i as int)),
        decreases n - i,
    {
        let ghost prev = out@;
        let text = crate::sheet::cell_text(&row0[i]);
        let trimmed = trim(text.as_str());
        out.push(trimmed);
        proof {
            let f = |s: String| s@;
            let g = |c: CellValue| spec_trim(spec_cell_text(c));
            assert(out@.map_values(f) =~= prev.map_values(f).push(
                spec_trim(spec_cell_text(row0@[i as int])),
            ));
            assert(row0@.take(i as int + 1).map_values(g) =~= row0@.take(i as int).map_values(
                g,
            ).push(g(row0@[i as int])));
        }
        i += 1;
    }
    proof {
        assert(row0@.take(n as int) =~= row0@);
    }
    out
}

/// The position of a name in the headers, the last occurrence winning.
pub fn find_header(headers: &Vec<String>, name: &str) -> (r: Option<usize>)
    ensures
        match r {
            Some(idx) => header_index(headers@.map_values(|s: String| s@), name@)
                == Option::Some(idx as int),
            None => header_index(headers@.map_values(|s: String| s@), name@) is None,
        },
{
    let ghost hs = headers@.map_values(|s: String| s@);
    let n = headers.len();
    let mut i: usize = n;
    proof {
        assert(hs.take(n as int) =~= hs);
    }
    while i > 0
        invariant
            i <= n,
            n == headers@.len(),
            hs == headers@.map_values(|s: String| s@),
            header_index(hs, name@) == header_index(hs.take(i as int), name@),
        decreases i,
    {
        i -= 1;
        if str_eq(headers[i].as_str(), name) {
            proof {
                assert(hs.take(i as int + 1).last() == hs[i as int]);
            }
            return Some(i);
        }
        proof {
            assert(hs.take(i as int + 1).drop_last() =~= hs.take(i as int));
        }
    }
    proof {
        assert(hs.take(0) =~= Seq::<Seq<char>>::empty());
    }
    None
}

/// The supplied value for a partition column, the last entry winning.
pub fn find_partition_value<'a>(pvs: &'a Vec<(String, String)>, name: &str) -> (r: Option<
    &'a String,
>)
    ensures
        match r {
            Some(v) => pv_lookup(pvs@, name@) == Option::Some(v@),
            None => pv_lookup(pvs@, name@) is None,
        },
{
    let n = pvs.len();
    let mut i: usize = n;
    proof {
        assert(pvs@.take(n as int) =~= pvs@);
    }
    while i > 0
        invariant
            i <= n,
            n == pvs@.len(),
            pv_lookup(pvs@, name@) == pv_lookup(pvs@.take(i as int), name@),
        decreases i,
    {
        i -= 1;
        let pair = &pvs[i];
        if str_eq(pair.0.as_str(), name) {
            proof {
                assert(pvs@.take(i as int + 1).last() == pvs@[i as int]);
            }
            return Some(&pair.1);
        }
        proof {
            assert(pvs@.take(i as int + 1).drop_last() =~= pvs@.take(i as int));
        }
    }
    None
}

} // verus!

verus! {

/// Every validation an upload must pass: the table declares columns,
/// every partition column has a supplied value, the sheet has a header
/// row, every non-partition column appears among the headers, the data
/// source is PostgreSQL, and its connection configuration is complete.
pub open spec fn upload_input_ok(
    cols: Seq<ColumnDef>,
    pvs: Seq<(String, String)>,
    rows: Seq<Seq<CellValue>>,
    db_type: Seq<char>,
    config: JsonValue,
) -> bool {
    &&& cols.len() > 0
    &&& forall|j: int|
        0 <= j < cols.len() && (#[trigger] cols[j]).partitioner ==> pv_lookup(
            pvs,
            cols[j].name@,
        ) is Some
    &&& rows.len() > 0
    &&& forall|j: int|
        0 <= j < cols.len() && !(#[trigger] cols[j]).partitioner ==> header_index(
            spec_headers(rows[0]),
            cols[j].name@,
        ) is Some
    &&& spec_db_kind(db_type) == Option::Some(DbKind::Postgres)
    &&& !query_conn_missing(config)
}

/// What a successful upload plan holds: the input passed every
/// validation, the connection string is the data source's, the delete
/// statement matches the supplied partition, and there is one
/// well-formed insert per data row.
pub open spec fn upload_plan_ok(
    plan: UploadPlan,
    table: Seq<char>,
    cols: Seq<ColumnDef>,
    pvs: Seq<(String, String)>,
    rows: Seq<Seq<CellValue>>,
    db_type: Seq<char>,
    config: JsonValue,
) -> bool {
    &&& upload_input_ok(cols, pvs, rows, db_type, config)
    &&& spec_postgres_conn(config) == Option::Some(plan.connection_string@)
    &&& plan.delete_sql@ == spec_delete_sql(table, spec_delete_conds(cols, pvs))
    &&& plan.inserts@.len() == rows.len() - 1
    &&& forall|k: int|
        0 <= k < plan.inserts@.len() ==> insert_ok(
            #[trigger] plan.inserts@[k],
            table,
            cols,
            spec_headers(rows[0]),
            rows[k + 1],
            pvs,
        )
}

/// What a failed upload plan is: an invalid-input error whose message
/// names the failing validation — the first offending column, in
/// declaration order, where a column is at fault. Each case holds only
/// when its condition actually fails, so a fully valid input cannot be
/// refused.
pub open spec fn upload_plan_err(
    e: ServiceError,
    cols: Seq<ColumnDef>,
    pvs: Seq<(String, String)>,
    rows: Seq<Seq<CellValue>>,
    db_type: Seq<char>,
    config: JsonValue,
) -> bool {
    e matches ServiceError::InvalidInput(m) && {
        ||| (cols.len() == 0 && m@ == "Data table has no columns defined"@)
        ||| (exists|j: int|
            {
                &&& 0 <= j < cols.len()
                &&& (#[trigger] cols[j]).partitioner
                &&& pv_lookup(pvs, cols[j].name@) is None
                &&& (forall|i: int|
                    0 <= i < j && (#[trigger] cols[i]).partitioner ==> pv_lookup(
                        pvs,
                        cols[i].name@,
                    ) is Some)
                &&& m@ == "Missing partition value for column: "@ + cols[j].name@
            })
        ||| (rows.len() == 0 && m@ == "Excel file is empty"@)
        ||| (rows.len() > 0 && exists|j: int|
            {
                &&& 0 <= j < cols.len()
                &&& !(#[trigger] cols[j]).partitioner
                &&& header_index(spec_headers(rows[0]), cols[j].name@) is None
                &&& (forall|i: int|
                    0 <= i < j && !(#[trigger] cols[i]).partitioner ==> header_index(
                        spec_headers(rows[0]),
                        cols[i].name@,
                    ) is Some)
                &&& m@ == "Column '"@ + cols[j].name@ + "' not found in Excel file"@
            })
        ||| (spec_db_kind(db_type) != Option::Some(DbKind::Postgres) && m@
            == "Unsupported database type: "@ + db_type)
        ||| (query_conn_missing(config) && m@ == query_conn_msg(config))
    }
}

/// Plan an upload against parsed sheet rows.
///
/// Validates in order: the table must declare columns, every partition
/// column must have a supplied value, the sheet must have a header row,
/// every non-partition column must appear among the headers, the data
/// source must be PostgreSQL, and its connection configuration must be
/// complete. Succeeds exactly when every validation passes; the plan
/// then holds the delete statement for the supplied partition and one
/// insert per data row.
pub fn plan_upload_from_rows(
    table_name: &str,
    columns: &Vec<ColumnDef>,
    partition_values: &Vec<(String, String)>,
    rows: &Vec<Vec<CellValue>>,
    db_type: &str,
    connection_config: &JsonValue,
) -> (r: Result<UploadPlan, ServiceError>)
    ensures
        match r {
            Ok(plan) => upload_plan_ok(
                plan,
                table_name@,
                columns@,
                partition_values@,
                rows_view(rows@),
                db_type@,
                *connection_config,
            ),
            Err(e) => upload_plan_err(
                e,
                columns@,
                partition_values@,
                rows_view(rows@),
                db_type@,
                *connection_config,
            ),
        },
{
    if columns.len() == 0 {
        return Err(ServiceError::InvalidInput(String::from_str(
            "Data table has no columns defined",
        )));
    }
    let ncols = columns.len();

    let mut ci: usize = 0;
    while ci < ncols
        invariant
            ci <= ncols,
            ncols == columns@.len(),
            forall|j: int|
                0 <= j < ci && (#[trigger] columns@[j]).partitioner ==> pv_lookup(
                    partition_values@,
                    columns@[j].name@,
                ) is Some,
        decreases ncols - ci,
    {
        let col = &columns[ci];
        if col.partitioner {
            if find_partition_value(partition_values, col.name.as_str()).is_none() {
                let msg = String::from_str("Missing partition value for column: ").concat(
                    col.name.as_str(),
                );
                proof {
                    let wj = ci as int;
                    assert((columns@[wj]).partitioner);
                    assert(pv_lookup(partition_values@, columns@[wj].name@) is None);
                }
                return Err(ServiceError::InvalidInput(msg));
            }
        }
        ci += 1;
    }

    if rows.len() == 0 {
        proof {
            assert(rows_view(rows@).len() == rows@.len());
        }
        return Err(ServiceError::InvalidInput(String::from_str("Excel file is empty")));
    }
    let headers = headers_exec(&rows[0]);
    let ghost hs = spec_headers(rows@[0]@);
    proof {
        assert(rows_view(rows@)[0] == rows@[0]@);
        assert(rows_view(rows@).len() == rows@.len());
    }

    let mut ci: usize = 0;
    while ci < ncols
        invariant
            ci <= ncols,
            ncols == columns@.len(),
            rows@.len() > 0,
            hs == spec_headers(rows@[0]@),
            headers@.map_values(|s: String| s@) == hs,
            forall|j: int|
                0 <= j < ci && !(#[trigger] columns@[j]).partitioner ==> header_index(
                    hs,
                    columns@[j].name@,
                ) is Some,
        decreases ncols - ci,
    {
        let col = &columns[ci];
        if !col.partitioner {
            if find_header(&headers, col.name.as_str()).is_none() {
                let msg = String::from_str("Column '").concat(col.name.as_str()).concat(
                    "' not found in Excel file",
                );
                proof {
                    assert(rows_view(rows@)[0] == rows@[0]@);
                    assert(rows_view(rows@).len() == rows@.len());
                    let wj = ci as int;
                    assert(!(columns@[wj]).partitioner);
                    assert(header_index(
                        spec_headers(rows_view(rows@)[0]),
                        columns@[wj].name@,
                    ) is None);
                }
                return Err(ServiceError::InvalidInput(msg));
            }
        }
        ci += 1;
    }

    let is_postgres = match crate::connect::db_kind_of(db_type) {
        Some(DbKind::Postgres) => true,
        _ => false,
    };
    if !is_postgres {
        let msg = String::from_str("Unsupported database type: ").concat(db_type);
        return Err(ServiceError::InvalidInput(msg));
    }

    let connection_string = match postgres_connection_string(connection_config) {
        Ok(c) => c,
        Err(m) => {
            return Err(ServiceError::InvalidInput(m));
        },
    };

    let mut conds: Vec<String> = Vec::new();
    let mut ci: usize = 0;
    proof {
        let f = |s: String| s@;
        assert(conds@.map_values(f) =~= spec_delete_conds(
            columns@.take(0),
            partition_values@,
        ));
    }
    while ci < ncols
        invariant
            ci <= ncols,
            ncols == columns@.len(),
            conds@.map_values(|s: String| s@) == spec_delete_conds(
                columns@.take(ci as int),
                partition_values@,
            ),
        decreases ncols - ci,
    {
        let ghost prev = conds@;
        let col = &columns[ci];
        if col.partitioner {
            match find_partition_value(partition_values, col.name.as_str()) {
                Some(v) => {
                    let cond = String::from_str(col.name.as_str()).concat(" = '").concat(
                        v.as_str(),
                    ).concat("'");
                    conds.push(cond);
                },
                None => {},
            }
        }
        proof {
            let f = |s: String| s@;
            assert(columns@.take(ci as int + 1).drop_last() =~= columns@.take(ci as int));
            assert(columns@.take(ci as int + 1).last() == columns@[ci as int]);
            assert(conds@.map_values(f) =~= spec_delete_conds(
                columns@.take(ci as int + 1),
                partition_values@,
            ));
        }
        ci += 1;
    }
    proof {
        assert(columns@.take(ncols as int) =~= columns@);
    }

    let delete_sql = if conds.len() == 0 {
        String::from_str("DELETE FROM ").concat(table_name)
    } else {
        String::from_str("DELETE FROM ").concat(table_name).concat(" WHERE ").concat(
            join_with(&conds, " AND ").as_str(),
        )
    };

    let mut cols_list: Vec<String> = Vec::new();
    let mut ci: usize = 0;
    proof {
        let f = |s: String| s@;
        assert(cols_list@.map_values(f) =~= names_where(columns@.take(0), false));
    }
    while ci < ncols
        invariant
            ci <= ncols,
            ncols == columns@.len(),
            cols_list@.map_values(|s: String| s@) == names_where(
                columns@.take(ci as int),
                false,
            ),
        decreases ncols - ci,
    {
        let col = &columns[ci];
        if !col.partitioner {
            cols_list.push(String::from_str(col.name.as_str()));
        }
        proof {
            let f = |s: String| s@;
            assert(columns@.take(ci as int + 1).drop_last() =~= columns@.take(ci as int));
            assert(columns@.take(ci as int + 1).last() == columns@[ci as int]);
            assert(cols_list@.map_values(f) =~= names_where(
                columns@.take(ci as int + 1),
                false,
            ));
        }
        ci += 1;
    }
    let mut ci: usize = 0;
    let ghost data_names = names_where(columns@, false);
    proof {
        assert(columns@.take(ncols as int) =~= columns@);
        let f = |s: String| s@;
        assert(cols_list@.map_values(f) =~= data_names + names_where(columns@.take(0), true));
    }
    while ci < ncols
        invariant
            ci <= ncols,
            ncols == columns@.len(),
            data_names == names_where(columns@, false),
            cols_list@.map_values(|s: String| s@) == data_names + names_where(
                columns@.take(ci as int),
                true,
            ),
        decreases ncols - ci,
    {
        let ghost prev = cols_list@;
        let col = &columns[ci];
        if col.partitioner {
            cols_list.push(String::from_str(col.name.as_str()));
        }
        proof {
            let f = |s: String| s@;
            assert(columns@.take(ci as int + 1).drop_last() =~= columns@.take(ci as int));
            assert(columns@.take(ci as int + 1).last() == columns@[ci as int]);
            if columns@[ci as int].partitioner {
                assert(cols_list@.map_values(f) =~= prev.map_values(f).push(
                    columns@[ci as int].name@,
                ));
            }
            assert(cols_list@.map_values(f) =~= data_names + names_where(
                columns@.take(ci as int + 1),
                true,
            ));
        }
        ci += 1;
    }
    proof {
        assert(columns@.take(ncols as int) =~= columns@);
        assert(cols_list@.map_values(|s: String| s@) == spec_insert_cols(columns@));
    }

    let mut part_vals: Vec<String> = Vec::new();
    let mut ci: usize = 0;
    proof {
        let f = |s: String| s@;
        assert(part_vals@.map_values(f) =~= spec_part_vals(columns@.take(0), partition_values@));
        reveal_strlit("'");
    }
    while ci < ncols
        invariant
            ci <= ncols,
            ncols == columns@.len(),
            part_vals@.map_values(|s: String| s@) == spec_part_vals(
                columns@.take(ci as int),
                partition_values@,
            ),
        decreases ncols - ci,
    {
        let ghost prev = part_vals@;
        let col = &columns[ci];
        if col.partitioner {
            match find_partition_value(partition_values, col.name.as_str()) {
                Some(v) => {
                    proof {
                        reveal_strlit("'");
                    }
                    let quoted = String::from_str("'").concat(v.as_str()).concat("'");
                    proof {
                        assert(quoted@ == seq!['\''] + pv_lookup(
                            partition_values@,
                            columns@[ci as int].name@,
                        )->Some_0 + seq!['\'']);
                    }
                    part_vals.push(quoted);
                },
                None => {},
            }
        }
        proof {
            let f = |s: String| s@;
            assert(columns@.take(ci as int + 1).drop_last() =~= columns@.take(ci as int));
            assert(columns@.take(ci as int + 1).last() == columns@[ci as int]);
            if part_vals@.len() > prev.len() {
                assert(part_vals@.map_values(f) =~= prev.map_values(f).push(
                    part_vals@.last()@,
                ));
            }
            assert(part_vals@.map_values(f) =~= spec_part_vals(
                columns@.take(ci as int + 1),
                partition_values@,
            ));
        }
        ci += 1;
    }
    proof {
        assert(columns@.take(ncols as int) =~= columns@);
    }

    let nrows = rows.len();
    let mut inserts: Vec<InsertRow> = Vec::new();
    let mut ri: usize = 1;
    while ri < nrows
        invariant
            1 <= ri <= nrows,
            nrows == rows@.len(),
            ncols == columns@.len(),
            hs == spec_headers(rows@[0]@),
            headers@.map_values(|s: String| s@) == hs,
            cols_list@.map_values(|s: String| s@) == spec_insert_cols(columns@),
            part_vals@.map_values(|s: String| s@) == spec_part_vals(
                columns@,
                partition_values@,
            ),
            inserts@.len() == ri - 1,
            forall|k: int|
                0 <= k < ri - 1 ==> insert_ok(
                    #[trigger] inserts@[k],
                    table_name@,
                    columns@,
                    hs,
                    rows@[k + 1]@,
                    partition_values@,
                ),
        decreases nrows - ri,
    {
        let row = &rows[ri];
        let mut vals: Vec<String> = Vec::new();
        let mut ci: usize = 0;
        proof {
            let f = |s: String| s@;
            assert(vals@.map_values(f) =~= Seq::<Seq<char>>::empty());
            assert(spec_data_vals(columns@.take(0), hs, row@) =~= Seq::<Seq<char>>::empty());
        }
        while ci < ncols
            invariant
                ci <= ncols,
                ncols == columns@.len(),
                nrows == rows@.len(),
                1 <= ri < nrows,
                hs == spec_headers(rows@[0]@),
                headers@.map_values(|s: String| s@) == hs,
                row@ == rows@[ri as int]@,
                spec_data_vals(columns@.take(ci as int), hs, row@) == vals@.map_values(
                    |s: String| s@,
                ),
            decreases ncols - ci,
        {
            let ghost prev = vals@;
            let col = &columns[ci];
            if !col.partitioner {
                match find_header(&headers, col.name.as_str()) {
                    Some(idx) => {
                        if idx < row.len() {
                            vals.push(crate::sheet::convert_cell_value(
                                &row[idx],
                                col.data_type.as_str(),
                            ));
                        } else {
                            vals.push(String::from_str("NULL"));
                        }
                    },
                    None => {
                        vals.push(String::from_str("NULL"));
                    },
                }
            }
            proof {
                let f = |s: String| s@;
                assert(columns@.take(ci as int + 1).drop_last() =~= columns@.take(ci as int));
                assert(columns@.take(ci as int + 1).last() == columns@[ci as int]);
                if !columns@[ci as int].partitioner {
                    assert(vals@.map_values(f) =~= prev.map_values(f).push(
                        vals@.last()@,
                    ));
                }
                assert(spec_data_vals(columns@.take(ci as int + 1), hs, row@)
                    =~= vals@.map_values(f));
            }
            ci += 1;
        }
        proof {
            assert(columns@.take(ncols as int) =~= columns@);
        }
        let ghost dv = vals@.map_values(|s: String| s@);

        let mut pi: usize = 0;
        let nparts = part_vals.len();
        while pi < nparts
            invariant
                pi <= nparts,
                nparts == part_vals@.len(),
                part_vals@.map_values(|s: String| s@) == spec_part_vals(
                    columns@,
                    partition_values@,
                ),
                vals@.map_values(|s: String| s@) == dv + part_vals@.take(
                    pi as int,
                ).map_values(|s: String| s@),
            decreases nparts - pi,
        {
            let ghost prev = vals@;
            vals.push(String::from_str(part_vals[pi].as_str()));
            proof {
                let f = |s: String| s@;
                assert(vals@.map_values(f) =~= prev.map_values(f).push(
                    part_vals@[pi as int]@,
                ));
                assert(part_vals@.take(pi as int + 1).map_values(f) =~= part_vals@.take(
                    pi as int,
                ).map_values(f).push(part_vals@[pi as int]@));
            }
            pi += 1;
        }
        proof {
            assert(part_vals@.take(nparts as int) =~= part_vals@);
        }

        let sql = String::from_str("INSERT INTO ").concat(table_name).concat(" (").concat(
            join_with(&cols_list, ", ").as_str(),
        ).concat(") VALUES (").concat(join_with(&vals, ", ").as_str()).concat(")");

        let ghost prev_inserts = inserts@;
        inserts.push(
            InsertRow { cols: crate::text::clone_strings(&cols_list), vals, sql },
        );
        proof {
            assert forall|k: int|
                0 <= k < ri ==> insert_ok(
                    #[trigger] inserts@[k],
                    table_name@,
                    columns@,
                    hs,
                    rows@[k + 1]@,
                    partition_values@,
                ) by {
                if 0 <= k < ri {
                    if k < ri - 1 {
                        assert(inserts@[k] == prev_inserts[k]);
                    } else {
                        assert(inserts@[k] == inserts@.last());
                    }
                }
            }
        }
        ri += 1;
    }

    proof {
        let rv = rows_view(rows@);
        assert(rv.len() == rows@.len());
        assert(rv[0] == rows@[0]@);
        assert(spec_headers(rv[0]) == hs);
        assert forall|k: int|
            0 <= k < inserts@.len() implies insert_ok(
            #[trigger] inserts@[k],
            table_name@,
            columns@,
            spec_headers(rv[0]),
            rv[k + 1],
            partition_values@,
        ) by {
            assert(rv[k + 1] == rows@[k + 1]@);
        }
    }
    Ok(UploadPlan { connection_string, delete_sql, inserts })
}

/// Plan an upload from the uploaded workbook bytes: the declared
/// columns are checked and the partition values validated, the first
/// sheet of the decoded workbook is taken, and its rows are planned as
/// `plan_upload_from_rows` says. Bytes that are no workbook, a workbook
/// without sheets and an unreadable first sheet each fail with their
/// own message.
pub fn plan_upload(
    table_name: &str,
    columns: &Vec<ColumnDef>,
    partition_values: &Vec<(String, String)>,
    file_data: Vec<u8>,
    db_type: &str,
    connection_config: &JsonValue,
) -> (r: Result<UploadPlan, ServiceError>)
    ensures
        match r {
            Ok(plan) => {
                &&& crate::sheet::workbook_of(file_data@) matches Some(model) && (model.len()
                    > 0 && (model[0].1 matches Some(rows) && upload_plan_ok(
                    plan,
                    table_name@,
                    columns@,
                    partition_values@,
                    rows,
                    db_type@,
                    *connection_config,
                )))
            },
            Err(e) => e matches ServiceError::InvalidInput(m) && {
                ||| (columns@.len() == 0 && m@ == "Data table has no columns defined"@)
                ||| (exists|j: int|
                    {
                        &&& 0 <= j < columns@.len()
                        &&& (#[trigger] columns@[j]).partitioner
                        &&& pv_lookup(partition_values@, columns@[j].name@) is None
                        &&& (forall|i: int|
                            0 <= i < j && (#[trigger] columns@[i]).partitioner
                                ==> pv_lookup(partition_values@, columns@[i].name@) is Some)
                        &&& m@ == "Missing partition value for column: "@
                            + columns@[j].name@
                    })
                ||| (crate::sheet::workbook_of(file_data@) is None && m@
                    == "Failed to open Excel file: "@ + crate::sheet::workbook_error_of(
                    file_data@,
                ))
                ||| (crate::sheet::workbook_of(file_data@) matches Some(model)
                    && (model.len() == 0 && m@ == "Excel file has no sheets"@))
                ||| (crate::sheet::workbook_of(file_data@) matches Some(model)
                    && (model.len() > 0 && model[0].1 is None && m@
                    == "Failed to read sheet: "@ + crate::sheet::sheet_error_of(
                    file_data@,
                    model[0].0,
                )))
                ||| (crate::sheet::workbook_of(file_data@) matches Some(model)
                    && (model.len() > 0 && (model[0].1 matches Some(rows)
                    && upload_plan_err(
                    e,
                    columns@,
                    partition_values@,
                    rows,
                    db_type@,
                    *connection_config,
                ))))
            },
        },
{
    if columns.len() == 0 {
        return Err(ServiceError::InvalidInput(String::from_str(
            "Data table has no columns defined",
        )));
    }
    let ncols = columns.len();
    let mut ci: usize = 0;
    while ci < ncols
        invariant
            ci <= ncols,
            ncols == columns@.len(),
            forall|j: int|
                0 <= j < ci && (#[trigger] columns@[j]).partitioner ==> pv_lookup(
                    partition_values@,
                    columns@[j].name@,
                ) is Some,
        decreases ncols - ci,
    {
        let col = &columns[ci];
        if col.partitioner {
            if find_partition_value(partition_values, col.name.as_str()).is_none() {
                let msg = String::from_str("Missing partition value for column: ").concat(
                    col.name.as_str(),
                );
                proof {
                    let wj = ci as int;
                    assert((columns@[wj]).partitioner);
                    assert(pv_lookup(partition_values@, columns@[wj].name@) is None);
                }
                return Err(ServiceError::InvalidInput(msg));
            }
        }
        ci += 1;
    }
    let ghost gbytes = file_data@;
    let rows = match crate::sheet::parse_first_sheet(file_data) {
        Ok(rows) => rows,
        Err(e) => {
            return Err(e);
        },
    };
    let r = plan_upload_from_rows(
        table_name,
        columns,
        partition_values,
        &rows,
        db_type,
        connection_config,
    );
    proof {
        let model = crate::sheet::workbook_of(gbytes)->Some_0;
        assert(model[0].1 == Option::Some(rows_view(rows@)));
    }
    r
}

} // verus!

verus! {

/// The partition pairs of an upload: for each partition column with a
/// supplied value, its name and the quoted value literal, in column
/// order. The delete conditions test these pairs, and every planned
/// insert carries them.
pub open spec fn partition_pairs(cols: Seq<ColumnDef>, pvs: Seq<(String, String)>) -> Seq<
    (Seq<char>, Seq<char>),
>
    decreases cols.len(),
{
    if cols.len() == 0 {
        Seq::empty()
    } else {
        partition_pairs(cols.drop_last(), pvs) + (if cols.last().partitioner && pv_lookup(
            pvs,
            cols.last().name@,
        ) is Some {
            seq![
                (
                    cols.last().name@,
                    seq!['\''] + pv_lookup(pvs, cols.last().name@)->Some_0 + seq!['\''],
                ),
            ]
        } else {
            Seq::<(Seq<char>, Seq<char>)>::empty()
        })
    }
}

/// Whether a stored row, abstracted as its column names and value
/// literals, holds the given column with the given value.
pub open spec fn row_has_pair(
    cols: Seq<Seq<char>>,
    vals: Seq<Seq<char>>,
    name: Seq<char>,
    value: Seq<char>,
) -> bool {
    exists|k: int|
        0 <= k < cols.len() && k < vals.len() && cols[k] == name && vals[k] == value
}

/// Whether a stored row matches the conjunction of the partition pairs —
/// the rows the delete statement removes.
pub open spec fn row_matches_partition(
    row: (Seq<Seq<char>>, Seq<Seq<char>>),
    pairs: Seq<(Seq<char>, Seq<char>)>,
) -> bool {
    forall|i: int|
        0 <= i < pairs.len() ==> row_has_pair(
            row.0,
            row.1,
            (#[trigger] pairs[i]).0,
            pairs[i].1,
        )
}

/// One import applied to a table state: the rows matching the partition
/// pairs are deleted, then the planned rows are inserted.
pub open spec fn apply_import(
    state: Seq<(Seq<Seq<char>>, Seq<Seq<char>>)>,
    pairs: Seq<(Seq<char>, Seq<char>)>,
    inserts: Seq<(Seq<Seq<char>>, Seq<Seq<char>>)>,
) -> Seq<(Seq<Seq<char>>, Seq<Seq<char>>)> {
    state.filter(|r: (Seq<Seq<char>>, Seq<Seq<char>>)| !row_matches_partition(r, pairs))
        + inserts
}

/// The stored-row abstraction of a planned insert.
pub open spec fn row_model(ins: InsertRow) -> (Seq<Seq<char>>, Seq<Seq<char>>) {
    (ins.cols@.map_values(|s: String| s@), ins.vals@.map_values(|s: String| s@))
}

proof fn lemma_filter_all<A>(s: Seq<A>, p: spec_fn(A) -> bool)
    requires
        forall|i: int| 0 <= i < s.len() ==> p(#[trigger] s[i]),
    ensures
        s.filter(p) == s,
    decreases s.len(),
{
    reveal(Seq::filter);
    if s.len() != 0 {
        lemma_filter_all(s.drop_last(), p);
        assert(p(s.last()));
        assert(s.drop_last().push(s.last()) =~= s);
    }
}

proof fn lemma_filter_none<A>(s: Seq<A>, p: spec_fn(A) -> bool)
    requires
        forall|i: int| 0 <= i < s.len() ==> !p(#[trigger] s[i]),
    ensures
        s.filter(p) == Seq::<A>::empty(),
    decreases s.len(),
{
    reveal(Seq::filter);
    if s.len() != 0 {
        lemma_filter_none(s.drop_last(), p);
        assert(!p(s.last()));
    }
}

/// Partitioned import idempotence: when every inserted row matches the
/// partition pairs, applying the same import twice leaves the table in
/// the state one application leaves it in — the second delete removes
/// exactly the rows the first insert added.
pub proof fn lemma_import_idempotent(
    state: Seq<(Seq<Seq<char>>, Seq<Seq<char>>)>,
    pairs: Seq<(Seq<char>, Seq<char>)>,
    inserts: Seq<(Seq<Seq<char>>, Seq<Seq<char>>)>,
)
    requires
        forall|i: int|
            0 <= i < inserts.len() ==> row_matches_partition(#[trigger] inserts[i], pairs),
    ensures
        apply_import(apply_import(state, pairs, inserts), pairs, inserts) == apply_import(
            state,
            pairs,
            inserts,
        ),
{
    let keep = |r: (Seq<Seq<char>>, Seq<Seq<char>>)| !row_matches_partition(r, pairs);
    let once = apply_import(state, pairs, inserts);
    Seq::filter_distributes_over_add(state.filter(keep), inserts, keep);
    assert(state.filter(keep).filter(keep) == state.filter(keep)) by {
        assert forall|i: int|
            0 <= i < state.filter(keep).len() implies keep(#[trigger] state.filter(keep)[i]) by {
            state.lemma_filter_pred(keep, i);
        }
        lemma_filter_all(state.filter(keep), keep);
    }
    assert(inserts.filter(keep) == Seq::<(Seq<Seq<char>>, Seq<Seq<char>>)>::empty()) by {
        lemma_filter_none(inserts, keep);
    }
    assert(once.filter(keep) + inserts =~= once);
}

/// The partition pairs line up, one to one and in order, with the names
/// of the partition columns, the quoted values every insert appends, and
/// the delete conditions, when every partition column has a supplied
/// value.
pub proof fn lemma_partition_alignment(cols: Seq<ColumnDef>, pvs: Seq<(String, String)>)
    requires
        forall|j: int|
            0 <= j < cols.len() && (#[trigger] cols[j]).partitioner ==> pv_lookup(
                pvs,
                cols[j].name@,
            ) is Some,
    ensures
        partition_pairs(cols, pvs).len() == names_where(cols, true).len(),
        partition_pairs(cols, pvs).len() == spec_part_vals(cols, pvs).len(),
        partition_pairs(cols, pvs).len() == spec_delete_conds(cols, pvs).len(),
        forall|i: int|
            0 <= i < partition_pairs(cols, pvs).len() ==> (#[trigger] partition_pairs(
                cols,
                pvs,
            )[i]).0 == names_where(cols, true)[i],
        forall|i: int|
            0 <= i < partition_pairs(cols, pvs).len() ==> (#[trigger] partition_pairs(
                cols,
                pvs,
            )[i]).1 == spec_part_vals(cols, pvs)[i],
    decreases cols.len(),
{
    if cols.len() != 0 {
        lemma_partition_alignment(cols.drop_last(), pvs);
        assert(forall|j: int|
            0 <= j < cols.drop_last().len() ==> cols.drop_last()[j] == cols[j]);
    }
}

/// Each delete condition is exactly its partition pair written as an
/// equality: the pair's column name, ` = `, and the pair's quoted value.
pub proof fn lemma_delete_conds_are_pairs(cols: Seq<ColumnDef>, pvs: Seq<(String, String)>)
    ensures
        spec_delete_conds(cols, pvs).len() == partition_pairs(cols, pvs).len(),
        forall|i: int|
            0 <= i < partition_pairs(cols, pvs).len() ==> #[trigger] spec_delete_conds(
                cols,
                pvs,
            )[i] == partition_pairs(cols, pvs)[i].0 + " = "@ + partition_pairs(
                cols,
                pvs,
            )[i].1,
    decreases cols.len(),
{
    reveal_strlit(" = '");
    reveal_strlit(" = ");
    reveal_strlit("'");
    if cols.len() != 0 {
        lemma_delete_conds_are_pairs(cols.drop_last(), pvs);
        let c = cols.last();
        if c.partitioner && pv_lookup(pvs, c.name@) is Some {
            let v = pv_lookup(pvs, c.name@)->Some_0;
            assert(c.name@ + " = '"@ + v + "'"@ =~= c.name@ + " = "@ + (seq!['\''] + v
                + seq!['\'']));
        }
    }
}

/// The converted data values of a row are one per non-partition column.
pub proof fn lemma_data_vals_len(
    cols: Seq<ColumnDef>,
    headers: Seq<Seq<char>>,
    row: Seq<CellValue>,
)
    ensures
        spec_data_vals(cols, headers, row).len() == names_where(cols, false).len(),
    decreases cols.len(),
{
    if cols.len() != 0 {
        lemma_data_vals_len(cols.drop_last(), headers, row);
    }
}

/// Every planned insert matches the partition pairs: its column list ends
/// with the partition column names and its value list with the quoted
/// partition values, at matching positions.
pub proof fn lemma_planned_insert_matches(
    ins: InsertRow,
    table: Seq<char>,
    cols: Seq<ColumnDef>,
    headers: Seq<Seq<char>>,
    row: Seq<CellValue>,
    pvs: Seq<(String, String)>,
)
    requires
        insert_ok(ins, table, cols, headers, row, pvs),
        forall|j: int|
            0 <= j < cols.len() && (#[trigger] cols[j]).partitioner ==> pv_lookup(
                pvs,
                cols[j].name@,
            ) is Some,
    ensures
        row_matches_partition(row_model(ins), partition_pairs(cols, pvs)),
{
    let pairs = partition_pairs(cols, pvs);
    let dv = spec_data_vals(cols, headers, row);
    let model = row_model(ins);
    lemma_partition_alignment(cols, pvs);
    lemma_data_vals_len(cols, headers, row);
    assert forall|i: int| 0 <= i < pairs.len() implies row_has_pair(
        model.0,
        model.1,
        (#[trigger] pairs[i]).0,
        pairs[i].1,
    ) by {
        let k = dv.len() + i;
        assert(model.0 == spec_insert_cols(cols));
        assert(model.1 == dv + spec_part_vals(cols, pvs));
        assert(names_where(cols, false).len() == dv.len());
        assert(model.0[k] == names_where(cols, true)[i]);
        assert(model.1[k] == spec_part_vals(cols, pvs)[i]);
        assert(model.0[k] == pairs[i].0);
        assert(model.1[k] == pairs[i].1);
    }
}

} // verus!
