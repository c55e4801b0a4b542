//! Spreadsheet cells and workbook parsing.
//!
//! Workbook bytes are decoded by the calamine crate behind trusted
//! wrappers; everything downstream — header mapping, validation and SQL
//! literal conversion — works on the plain [`CellValue`] model and is
//! verified. A numeric cell keeps its two renderings (plain and cast to
//! integer) as strings, so that no floating point runs through the
//! verified code.

use vstd::prelude::*;

use crate::errors::{ExecutorError, ServiceError};
use crate::spec_int_digits;
use crate::text::{contains_int, contains_int_exec, escape_quotes, escape_quotes_exec};

verus! {

/// One spreadsheet cell, as plain values.
#[derive(Debug, Clone, PartialEq)]
pub enum CellValue {
    Empty,
    Text(String),
    /// A numeric cell: its plain rendering and its rendering cast to a
    /// 64-bit integer.
    Number { repr: String, int_repr: String },
    Int(i64),
    Bool(bool),
    /// A date or time cell, rendered.
    DateTime(String),
    DateTimeIso(String),
    DurationIso(String),
    /// An error cell, as its display rendering.
    CellError(String),
}

/// One sheet of a workbook: its name and all of its rows, the header row
/// included.
pub struct Sheet {
    pub name: String,
    pub rows: Vec<Vec<CellValue>>,
}

#[verifier::external_type_specification]
#[verifier::external_body]
pub struct ExData(calamine::Data);

/// Relies on calamine::Data: one arm per variant, moving each cell's
/// renderings over as plain strings.
#[verifier::external_body]
fn cell_of(d: &calamine::Data) -> CellValue {
    match d {
        calamine::Data::Empty => CellValue::Empty,
        calamine::Data::String(s) => CellValue::Text(s.clone()),
        calamine::Data::Float(f) => CellValue::Number { repr: format!("{}", f), int_repr: format!("{}", *f as i64) },
        calamine::Data::Int(i) => CellValue::Int(*i),
        calamine::Data::Bool(b) => CellValue::Bool(*b),
        calamine::Data::DateTime(dt) => CellValue::DateTime(format!("{}", dt)),
        calamine::Data::DateTimeIso(s) => CellValue::DateTimeIso(s.clone()),
        calamine::Data::DurationIso(s) => CellValue::DurationIso(s.clone()),
        calamine::Data::Error(e) => CellValue::CellError(format!("{}", e)),
    }
}

/// What workbook bytes decode to: `None` when the bytes are no
/// workbook; else, per sheet in workbook order, its name and its rows —
/// or `None` for a sheet whose range cannot be read. The decode is a
/// function of the bytes alone.
pub uninterp spec fn workbook_of(bytes: Seq<u8>) -> Option<
    Seq<(Seq<char>, Option<Seq<Seq<CellValue>>>)>,
>;

/// The decoder's error text for bytes that are no workbook.
pub uninterp spec fn workbook_error_of(bytes: Seq<u8>) -> Seq<char>;

/// The reader's error text for a sheet whose range cannot be read.
pub uninterp spec fn sheet_error_of(bytes: Seq<u8>, name: Seq<char>) -> Seq<char>;

/// Relies on calamine::open_workbook_from_rs, Reader::sheet_names and
/// Reader::worksheet_range: the bytes decode to the workbook's sheets,
/// in order, each to its rows or to the reader's error text; the result
/// depends on the bytes alone, and `workbook_of`, `workbook_error_of`
/// and `sheet_error_of` name it.
#[verifier::external_body]
fn decode_workbook(bytes: Vec<u8>) -> (r: Result<
    Vec<(String, Result<Vec<Vec<CellValue>>, String>)>,
    String,
>)
    ensures
        match r {
            Ok(sheets) => workbook_of(bytes@) matches Some(model) && {
                &&& sheets@.len() == model.len()
                &&& forall|i: int|
                    0 <= i < model.len() ==> {
                        &&& (#[trigger] sheets@[i]).0@ == model[i].0
                        &&& match (sheets@[i].1, model[i].1) {
                            (Result::Ok(rows), Option::Some(m)) => rows_view(rows@) == m,
                            (Result::Err(msg), Option::None) => msg@ == sheet_error_of(
                                bytes@,
                                model[i].0,
                            ),
                            _ => false,
                        }
                    }
            },
            Err(m) => workbook_of(bytes@) is None && m@ == workbook_error_of(bytes@),
        },
{
    let mut wb: calamine::Xlsx<_> = match calamine::open_workbook_from_rs(std::io::Cursor::new(bytes)) {
        Ok(w) => w,
        Err(e) => return Err(format!("{}", e)),
    };
    let mut out = Vec::new();
    for name in calamine::Reader::sheet_names(&wb) {
        let cells = match calamine::Reader::worksheet_range(&mut wb, &name) {
            Ok(range) => Ok(range.rows().map(|row| row.iter().map(cell_of).collect()).collect()),
            Err(e) => Err(format!("{}", e)),
        };
        out.push((name, cells));
    }
    Ok(out)
}

/// The readable sheets of a decoded workbook, in order: those whose
/// rows could be read, with their names.
pub open spec fn readable_sheets(
    model: Seq<(Seq<char>, Option<Seq<Seq<CellValue>>>)>,
) -> Seq<(Seq<char>, Seq<Seq<CellValue>>)>
    decreases model.len(),
{
    if model.len() == 0 {
        Seq::empty()
    } else {
        readable_sheets(model.drop_last()) + (match model.last().1 {
            Option::Some(rows) => seq![(model.last().0, rows)],
            Option::None => Seq::<(Seq<char>, Seq<Seq<CellValue>>)>::empty(),
        })
    }
}

/// Parse workbook bytes into sheets for the import executor: exactly
/// the readable sheets of the decoded workbook, in workbook order; an
/// unreadable sheet is skipped. Bytes that are no workbook fail with
/// the decoder's text behind the executor's prefix.
pub fn parse_workbook(bytes: Vec<u8>) -> (r: Result<Vec<Sheet>, ExecutorError>)
    ensures
        match r {
            Ok(sheets) => workbook_of(bytes@) matches Some(model) && {
                let rs = readable_sheets(model);
                &&& sheets@.len() == rs.len()
                &&& forall|i: int|
                    0 <= i < rs.len() ==> (#[trigger] sheets@[i]).name@ == rs[i].0
                        && rows_view(sheets@[i].rows@) == rs[i].1
            },
            Err(e) => {
                &&& workbook_of(bytes@) is None
                &&& e matches ExecutorError::ExecutionFailed(m) && m@
                    == "Failed to open Excel file: "@ + workbook_error_of(bytes@)
            },
        },
{
    let ghost gbytes = bytes@;
    let mut decoded = match decode_workbook(bytes) {
        Ok(d) => d,
        Err(e) => {
            return Err(ExecutorError::ExecutionFailed(String::from_str(
                "Failed to open Excel file: ",
            ).concat(e.as_str())));
        },
    };
    let ghost model = workbook_of(gbytes)->Some_0;
    let ghost dv = decoded@;
    let mut sheets: Vec<Sheet> = Vec::new();
    let mut i: usize = 0;
    let n = decoded.len();
    proof {
        assert(readable_sheets(model.take(0)) =~= Seq::<(
            Seq<char>,
            Seq<Seq<CellValue>>,
        )>::empty());
    }
    while i < n
        invariant
            i <= n,
            n == dv.len(),
            dv.len() == model.len(),
            decoded@ == dv.skip(i as int),
            forall|k: int|
                0 <= k < model.len() ==> {
                    &&& (#[trigger] dv[k]).0@ == model[k].0
                    &&& match (dv[k].1, model[k].1) {
                        (Result::Ok(rows), Option::Some(m)) => rows_view(rows@) == m,
                        (Result::Err(msg), Option::None) => msg@ == sheet_error_of(
                            gbytes,
                            model[k].0,
                        ),
                        _ => false,
                    }
                },
            sheets@.len() == readable_sheets(model.take(i as int)).len(),
            forall|k: int|
                0 <= k < sheets@.len() ==> (#[trigger] sheets@[k]).name@ == readable_sheets(
                    model.take(i as int),
                )[k].0 && rows_view(sheets@[k].rows@) == readable_sheets(
                    model.take(i as int),
                )[k].1,
        decreases n - i,
    {
        let (name, cells) = decoded.remove(0);
        proof {
            assert(dv.skip(i as int)[0] == dv[i as int]);
            assert(dv.skip(i as int).remove(0) =~= dv.skip(i as int + 1));
            assert(model.take(i as int + 1).drop_last() =~= model.take(i as int));
            assert(model.take(i as int + 1).last() == model[i as int]);
        }
        let ghost prev = sheets@;
        let ghost rsi = readable_sheets(model.take(i as int));
        let ghost rsn = readable_sheets(model.take(i as int + 1));
        match cells {
            Ok(rows) => {
                sheets.push(Sheet { name, rows });
                proof {
                    assert(rsn =~= rsi.push((model[i as int].0, model[i as int].1->Some_0)));
                    assert forall|k: int|
                        0 <= k < sheets@.len() implies (#[trigger] sheets@[k]).name@
                        == rsn[k].0 && rows_view(sheets@[k].rows@) == rsn[k].1 by {
                        if k < prev.len() {
                            assert(sheets@[k] == prev[k]);
                            assert(rsn[k] == rsi[k]);
                        } else {
                            assert(sheets@[k] == sheets@.last());
                        }
                    }
                }
            },
            Err(_) => {
                proof {
                    assert(rsn =~= rsi);
                }
            },
        }
        i += 1;
    }
    proof {
        assert(model.take(n as int) =~= model);
    }
    Ok(sheets)
}

/// Parse the first sheet of workbook bytes for the upload path: bytes
/// that are no workbook, a workbook without sheets, and an unreadable
/// first sheet each fail with their own message.
pub fn parse_first_sheet(bytes: Vec<u8>) -> (r: Result<Vec<Vec<CellValue>>, ServiceError>)
    ensures
        match r {
            Ok(rows) => workbook_of(bytes@) matches Some(model) && model.len() > 0
                && model[0].1 == Option::Some(rows_view(rows@)),
            Err(e) => e matches ServiceError::InvalidInput(m) && {
                ||| (workbook_of(bytes@) is None && m@ == "Failed to open Excel file: "@
                    + workbook_error_of(bytes@))
                ||| (workbook_of(bytes@) matches Some(model) && model.len() == 0 && m@
                    == "Excel file has no sheets"@)
                ||| (workbook_of(bytes@) matches Some(model) && model.len() > 0
                    && model[0].1 is None && m@ == "Failed to read sheet: "@
                    + sheet_error_of(bytes@, model[0].0))
            },
        },
{
    let ghost gbytes = bytes@;
    let mut decoded = match decode_workbook(bytes) {
        Ok(d) => d,
        Err(e) => {
            return Err(ServiceError::InvalidInput(String::from_str(
                "Failed to open Excel file: ",
            ).concat(e.as_str())));
        },
    };
    if decoded.len() == 0 {
        return Err(ServiceError::InvalidInput(String::from_str("Excel file has no sheets")));
    }
    let (_name, cells) = decoded.remove(0);
    proof {
        let model = workbook_of(gbytes)->Some_0;
        assert(model[0].0 == model[0].0);
    }
    match cells {
        Ok(rows) => Ok(rows),
        Err(e) => Err(ServiceError::InvalidInput(String::from_str(
            "Failed to read sheet: ",
        ).concat(e.as_str()))),
    }
}

/// The rows of a parsed sheet as plain sequences.
pub open spec fn rows_view(rows: Seq<Vec<CellValue>>) -> Seq<Seq<CellValue>> {
    rows.map_values(|r: Vec<CellValue>| r@)
}

/// The display text of a cell, the form a header cell is read in.
pub open spec fn spec_cell_text(c: CellValue) -> Seq<char> {
    match c {
        CellValue::Empty => Seq::empty(),
        CellValue::Text(s) => s@,
        CellValue::Number { repr, int_repr } => repr@,
        CellValue::Int(i) => spec_int_digits(i as int),
        CellValue::Bool(b) => if b {
            "true"@
        } else {
            "false"@
        },
        CellValue::DateTime(s) => s@,
        CellValue::DateTimeIso(s) => s@,
        CellValue::DurationIso(s) => s@,
        CellValue::CellError(s) => s@,
    }
}

/// Render a cell as its display text.
pub fn cell_text(c: &CellValue) -> (r: String)
    ensures
        r@ == spec_cell_text(*c),
{
    match c {
        CellValue::Empty => String::new(),
        CellValue::Text(s) => String::from_str(s.as_str()),
        CellValue::Number { repr, int_repr } => String::from_str(repr.as_str()),
        CellValue::Int(i) => crate::i64_to_string(*i),
        CellValue::Bool(b) => {
            if *b {
                String::from_str("true")
            } else {
                String::from_str("false")
            }
        },
        CellValue::DateTime(s) => String::from_str(s.as_str()),
        CellValue::DateTimeIso(s) => String::from_str(s.as_str()),
        CellValue::DurationIso(s) => String::from_str(s.as_str()),
        CellValue::CellError(s) => String::from_str(s.as_str()),
    }
}

/// The SQL literal for a cell under a declared column type: empty cells
/// become `NULL`, text is quoted with single quotes doubled, a numeric
/// cell becomes its integer rendering when the declared type names an
/// integer (ignoring case) and its plain rendering otherwise, booleans
/// render bare, date, time and duration renderings are quoted as they
/// stand, and an error cell converts to its rendering as a quoted
/// literal, like text.
pub open spec fn spec_cell_literal(c: CellValue, data_type: Seq<char>) -> Seq<char> {
    match c {
        CellValue::Empty => "NULL"@,
        CellValue::Text(s) => seq!['\''] + escape_quotes(s@) + seq!['\''],
        CellValue::Number { repr, int_repr } => if contains_int(data_type) {
            int_repr@
        } else {
            repr@
        },
        CellValue::Int(i) => spec_int_digits(i as int),
        CellValue::Bool(b) => if b {
            "true"@
        } else {
            "false"@
        },
        CellValue::DateTime(s) => seq!['\''] + s@ + seq!['\''],
        CellValue::DateTimeIso(s) => seq!['\''] + s@ + seq!['\''],
        CellValue::DurationIso(s) => seq!['\''] + s@ + seq!['\''],
        CellValue::CellError(s) => seq!['\''] + escape_quotes(s@) + seq!['\''],
    }
}

/// Quote a string as a SQL literal without escaping, the form dates keep.
fn quote_plain(s: &str) -> (r: String)
    ensures
        r@ == seq!['\''] + s@ + seq!['\''],
{
    proof {
        reveal_strlit("'");
    }
    String::from_str("'").concat(s).concat("'")
}

/// Quote a string with its single quotes doubled, the form text and
/// error renderings take.
fn quote_escaped(s: &str) -> (r: String)
    ensures
        r@ == seq!['\''] + escape_quotes(s@) + seq!['\''],
{
    proof {
        reveal_strlit("'");
    }
    let escaped = escape_quotes_exec(s);
    String::from_str("'").concat(escaped.as_str()).concat("'")
}

/// Convert a cell to the SQL literal for a column of the given declared
/// type; every cell converts, an error cell to its rendering.
pub fn convert_cell_value(c: &CellValue, data_type: &str) -> (r: String)
    ensures
        r@ == spec_cell_literal(*c, data_type@),
{
    match c {
        CellValue::Empty => String::from_str("NULL"),
        CellValue::Text(s) => quote_escaped(s.as_str()),
        CellValue::Number { repr, int_repr } => {
            if contains_int_exec(data_type) {
                String::from_str(int_repr.as_str())
            } else {
                String::from_str(repr.as_str())
            }
        },
        CellValue::Int(i) => crate::i64_to_string(*i),
        CellValue::Bool(b) => {
            if *b {
                String::from_str("true")
            } else {
                String::from_str("false")
            }
        },
        CellValue::DateTime(s) => quote_plain(s.as_str()),
        CellValue::DateTimeIso(s) => quote_plain(s.as_str()),
        CellValue::DurationIso(s) => quote_plain(s.as_str()),
        CellValue::CellError(s) => quote_escaped(s.as_str()),
    }
}

} // verus!
