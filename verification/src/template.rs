//! The SQL-template compiler.
//!
//! A template is scanned in two passes, left to right, without backtracking
//! and without nesting:
//! - the conditional pass replaces each span `[name:content]` with `content`
//!   when `name` is a key of the parameter object and drops the whole span
//!   otherwise;
//! - the placeholder pass replaces the `i`-th occurrence of `{name}` with
//!   the positional placeholder `$i` (1-based, counted by occurrence, not by
//!   distinct name) and records `name` at position `i - 1` of the parameter
//!   list.
//!
//! Compilation fails when the specification has no `sql` string or when a
//! collected name is not a key of the parameter object; no partial result
//! is returned.

use vstd::prelude::*;

use crate::errors::QueryError;
use crate::json::{has_key, lookup_str, JsonValue};
use crate::spec_digits;
use crate::u64_to_string;

verus! {

/// The compiled, dialect-parameterized form of a template, plus its
/// parameter names in placeholder order: `param_names[i]` is bound to the
/// placeholder with ordinal `i + 1`.
#[derive(Debug)]
pub struct BuiltQuery {
    pub sql: String,
    pub param_names: Vec<String>,
}

/// The characters that end a scan.
#[derive(Clone, Copy, PartialEq, Eq, Structural)]
pub enum ScanStop {
    /// A conditional span's name ends at `:` or `]`.
    NameEnd,
    /// A conditional span's content ends at `]`.
    CloseBracket,
    /// A placeholder's name ends at `}`.
    CloseBrace,
}

/// Whether `c` stops a scan of the given kind.
pub open spec fn is_stop(kind: ScanStop, c: char) -> bool {
    match kind {
        ScanStop::NameEnd => c == ':' || c == ']',
        ScanStop::CloseBracket => c == ']',
        ScanStop::CloseBrace => c == '}',
    }
}

/// The first position at or after `i` holding a stop character of the given
/// kind; the length of the string when there is none.
pub open spec fn find_stop(s: Seq<char>, i: int, kind: ScanStop) -> int
    decreases s.len() - i,
{
    if i < 0 || i >= s.len() {
        s.len() as int
    } else if is_stop(kind, s[i]) {
        i
    } else {
        find_stop(s, i + 1, kind)
    }
}

/// Scan for the first stop character of the given kind, starting at `start`.
fn scan_stop(t: &str, start: usize, kind: ScanStop) -> (j: usize)
    requires
        start <= t@.len(),
    ensures
        j == find_stop(t@, start as int, kind),
        start <= j <= t@.len(),
        j < t@.len() ==> is_stop(kind, t@[j as int]),
{
    let n = t.unicode_len();
    let mut j = start;
    loop
        invariant
            start <= j <= n,
            n == t@.len(),
            find_stop(t@, start as int, kind) == find_stop(t@, j as int, kind),
        decreases n - j,
    {
        if j >= n {
            return j;
        }
        let c = t.get_char(j);
        let hit = match kind {
            ScanStop::NameEnd => c == ':' || c == ']',
            ScanStop::CloseBracket => c == ']',
            ScanStop::CloseBrace => c == '}',
        };
        if hit {
            return j;
        }
        j += 1;
    }
}

/// The conditional pass from position `i` on: each span `[name:content]`
/// becomes `content` when `name` is a key of `params` and nothing otherwise;
/// where no well-formed span starts, the character is kept as it is.
pub open spec fn cond_pass_from(s: Seq<char>, params: JsonValue, i: int) -> Seq<char>
    decreases s.len() - i,
{
    if i < 0 || i >= s.len() {
        Seq::empty()
    } else if s[i] == '[' {
        let j = find_stop(s, i + 1, ScanStop::NameEnd);
        if j < s.len() && s[j] == ':' && j > i + 1 {
            let k = find_stop(s, j + 1, ScanStop::CloseBracket);
            if k < s.len() && k > j {
                (if has_key(params, s.subrange(i + 1, j)) {
                    s.subrange(j + 1, k)
                } else {
                    Seq::empty()
                }) + cond_pass_from(s, params, k + 1)
            } else {
                seq![s[i]] + cond_pass_from(s, params, i + 1)
            }
        } else {
            seq![s[i]] + cond_pass_from(s, params, i + 1)
        }
    } else {
        seq![s[i]] + cond_pass_from(s, params, i + 1)
    }
}

/// The conditional pass over a whole template.
pub open spec fn cond_pass(s: Seq<char>, params: JsonValue) -> Seq<char> {
    cond_pass_from(s, params, 0)
}

/// Run the conditional pass.
pub fn cond_pass_exec(t: &str, params: &JsonValue) -> (r: String)
    ensures
        r@ == cond_pass(t@, *params),
{
    let n = t.unicode_len();
    let mut out = String::new();
    let mut i: usize = 0;
    while i < n
        invariant
            i <= n,
            n == t@.len(),
            cond_pass(t@, *params) == out@ + cond_pass_from(t@, *params, i as int),
        decreases n - i,
    {
        let ghost prev = out@;
        let c = t.get_char(i);
        let mut step: usize = 1;
        if c == '[' {
            let j = scan_stop(t, i + 1, ScanStop::NameEnd);
            if j < n && t.get_char(j) == ':' && j > i + 1 {
                let k = scan_stop(t, j + 1, ScanStop::CloseBracket);
                if k < n && k > j {
                    let name = t.substring_char(i + 1, j);
                    if params.get(name).is_some() {
                        let content = t.substring_char(j + 1, k);
                        out.append(content);
                    }
                    step = k + 1 - i;
                } else {
                    out.push(c);
                }
            } else {
                out.push(c);
            }
        } else {
            out.push(c);
        }
        proof {
            if step == 1 {
                assert(out@ =~= prev + seq![t@[i as int]]);
            }
            assert(out@ + cond_pass_from(t@, *params, i + step)
                =~= prev + cond_pass_from(t@, *params, i as int));
        }
        i += step;
    }
    proof {
        assert(out@ + cond_pass_from(t@, *params, n as int) =~= out@);
    }
    out
}

/// The placeholder pass from position `i` on, with `ord` the ordinal of the
/// next placeholder: the compiled text and the names in occurrence order.
pub open spec fn ph_from(s: Seq<char>, i: int, ord: nat) -> (Seq<char>, Seq<Seq<char>>)
    decreases s.len() - i,
{
    if i < 0 || i >= s.len() {
        (Seq::empty(), Seq::empty())
    } else if s[i] == '{' {
        let k = find_stop(s, i + 1, ScanStop::CloseBrace);
        if k < s.len() && k > i + 1 {
            let rest = ph_from(s, k + 1, ord + 1);
            (seq!['$'] + spec_digits(ord) + rest.0, seq![s.subrange(i + 1, k)] + rest.1)
        } else {
            let rest = ph_from(s, i + 1, ord);
            (seq![s[i]] + rest.0, rest.1)
        }
    } else {
        let rest = ph_from(s, i + 1, ord);
        (seq![s[i]] + rest.0, rest.1)
    }
}

/// The placeholder pass over a whole string, ordinals starting at 1.
pub open spec fn ph_pass(s: Seq<char>) -> (Seq<char>, Seq<Seq<char>>) {
    ph_from(s, 0, 1)
}

/// Run the placeholder pass: the compiled text and the collected names.
pub fn ph_pass_exec(t: &str) -> (r: (String, Vec<String>))
    ensures
        r.0@ == ph_pass(t@).0,
        r.1@.map_values(|s: String| s@) == ph_pass(t@).1,
{
    let n = t.unicode_len();
    let mut sql = String::new();
    let mut names: Vec<String> = Vec::new();
    let mut i: usize = 0;
    proof {
        reveal_strlit("$");
    }
    while i < n
        invariant
            i <= n,
            n == t@.len(),
            names@.len() <= i,
            ph_pass(t@).0 == sql@ + ph_from(t@, i as int, (names@.len() + 1) as nat).0,
            ph_pass(t@).1 == names@.map_values(|s: String| s@) + ph_from(
                t@,
                i as int,
                (names@.len() + 1) as nat,
            ).1,
        decreases n - i,
    {
        proof {
            reveal_strlit("$");
        }
        let ghost prev_sql = sql@;
        let ghost prev_names = names@;
        let ghost ord: nat = (names@.len() + 1) as nat;
        let c = t.get_char(i);
        let mut step: usize = 1;
        if c == '{' {
            let k = scan_stop(t, i + 1, ScanStop::CloseBrace);
            if k < n && k > i + 1 {
                let name = t.substring_char(i + 1, k);
                sql.append("$");
                let ordinal = u64_to_string((names.len() + 1) as u64);
                sql.append(ordinal.as_str());
                names.push(String::from_str(name));
                step = k + 1 - i;
                proof {
                    assert(names@.map_values(|s: String| s@) =~= prev_names.map_values(
                        |s: String| s@,
                    ).push(t@.subrange(i as int + 1, k as int)));
                    assert(sql@ =~= prev_sql + seq!['$'] + spec_digits(ord));
                }
            } else {
                sql.push(c);
            }
        } else {
            sql.push(c);
        }
        proof {
            if step == 1 {
                assert(sql@ =~= prev_sql + seq![t@[i as int]]);
            }
            assert(sql@ + ph_from(t@, i + step, (names@.len() + 1) as nat).0
                =~= prev_sql + ph_from(t@, i as int, ord).0);
            assert(names@.map_values(|s: String| s@) + ph_from(
                t@,
                i + step,
                (names@.len() + 1) as nat,
            ).1 =~= prev_names.map_values(|s: String| s@) + ph_from(t@, i as int, ord).1);
        }
        i += step;
    }
    proof {
        assert(ph_pass(t@).0 =~= sql@);
        assert(ph_pass(t@).1 =~= names@.map_values(|s: String| s@));
    }
    (sql, names)
}

/// One piece of a template as the placeholder pass reads it. A piece
/// `(true, name)` is a `{name}` occurrence; a piece `(false, text)` is a
/// literal character kept as it is.
pub open spec fn pieces_from(s: Seq<char>, i: int) -> Seq<(bool, Seq<char>)>
    decreases s.len() - i,
{
    if i < 0 || i >= s.len() {
        Seq::empty()
    } else if s[i] == '{' {
        let k = find_stop(s, i + 1, ScanStop::CloseBrace);
        if k < s.len() && k > i + 1 {
            seq![(true, s.subrange(i + 1, k))] + pieces_from(s, k + 1)
        } else {
            seq![(false, seq![s[i]])] + pieces_from(s, i + 1)
        }
    } else {
        seq![(false, seq![s[i]])] + pieces_from(s, i + 1)
    }
}

/// Render pieces: literal pieces stand as they are and the `j`-th hole
/// (0-based) becomes `$` followed by the decimal ordinal `ord + j`.
pub open spec fn render_pieces(ps: Seq<(bool, Seq<char>)>, ord: nat) -> Seq<char>
    decreases ps.len(),
{
    if ps.len() == 0 {
        Seq::empty()
    } else if ps[0].0 {
        seq!['$'] + spec_digits(ord) + render_pieces(ps.drop_first(), ord + 1)
    } else {
        ps[0].1 + render_pieces(ps.drop_first(), ord)
    }
}

/// The names of the holes, in order of occurrence.
pub open spec fn hole_names(ps: Seq<(bool, Seq<char>)>) -> Seq<Seq<char>>
    decreases ps.len(),
{
    if ps.len() == 0 {
        Seq::empty()
    } else if ps[0].0 {
        seq![ps[0].1] + hole_names(ps.drop_first())
    } else {
        hole_names(ps.drop_first())
    }
}

/// Template round-trip: a text with `N` placeholder occurrences compiles to
/// the same text with the `j`-th occurrence (0-based) replaced by the
/// positional placeholder `$(ord + j)`, in left-to-right order, and the
/// collected parameter list holds exactly the `N` occurrence names in that
/// same order.
pub proof fn lemma_template_round_trip(s: Seq<char>, i: int, ord: nat)
    ensures
        ph_from(s, i, ord).0 == render_pieces(pieces_from(s, i), ord),
        ph_from(s, i, ord).1 == hole_names(pieces_from(s, i)),
    decreases s.len() - i,
{
    if i < 0 || i >= s.len() {
        assert(ph_from(s, i, ord).0 =~= render_pieces(pieces_from(s, i), ord));
        assert(ph_from(s, i, ord).1 =~= hole_names(pieces_from(s, i)));
    } else {
        let ps = pieces_from(s, i);
        if s[i] == '{' {
            let k = find_stop(s, i + 1, ScanStop::CloseBrace);
            if k < s.len() && k > i + 1 {
                lemma_template_round_trip(s, k + 1, ord + 1);
                assert(ps.drop_first() =~= pieces_from(s, k + 1));
                assert(ph_from(s, i, ord).0 =~= render_pieces(ps, ord));
                assert(ph_from(s, i, ord).1 =~= hole_names(ps));
            } else {
                lemma_template_round_trip(s, i + 1, ord);
                assert(ps.drop_first() =~= pieces_from(s, i + 1));
                assert(ph_from(s, i, ord).0 =~= render_pieces(ps, ord));
                assert(ph_from(s, i, ord).1 =~= hole_names(ps));
            }
        } else {
            lemma_template_round_trip(s, i + 1, ord);
            assert(ps.drop_first() =~= pieces_from(s, i + 1));
            assert(ph_from(s, i, ord).0 =~= render_pieces(ps, ord));
            assert(ph_from(s, i, ord).1 =~= hole_names(ps));
        }
    }
}

/// What a successful compilation returns for a template and parameters.
pub open spec fn compiled_ok(t: Seq<char>, params: JsonValue, bq: BuiltQuery) -> bool {
    let ph = ph_pass(cond_pass(t, params));
    &&& bq.sql@ == ph.0
    &&& crate::text::str_views(bq.param_names@) == ph.1
    &&& forall|i: int| 0 <= i < ph.1.len() ==> has_key(params, ph.1[i])
}

/// The failure of a compilation: an invalid-input error naming the first
/// collected placeholder name that is no key of the parameters.
pub open spec fn compile_missing_err(t: Seq<char>, params: JsonValue, e: QueryError) -> bool {
    let ph = ph_pass(cond_pass(t, params));
    exists|i: int|
        {
            &&& 0 <= i < ph.1.len()
            &&& !has_key(params, ph.1[i])
            &&& (forall|j: int| 0 <= j < i ==> has_key(params, ph.1[j]))
            &&& e matches QueryError::InvalidInput(m) && m@ == "Missing parameter: "@
                + ph.1[i]
        }
}

/// Compile a template against a parameter object.
///
/// Succeeds exactly when every collected placeholder name is a key of
/// `params`; on failure nothing of the partial result is returned.
pub fn compile_template(t: &str, params: &JsonValue) -> (r: Result<BuiltQuery, QueryError>)
    ensures
        match r {
            Ok(bq) => compiled_ok(t@, *params, bq),
            Err(e) => compile_missing_err(t@, *params, e),
        },
{
    let cond = cond_pass_exec(t, params);
    let (sql, names) = ph_pass_exec(cond.as_str());
    let ghost ph = ph_pass(cond@);
    let count = names.len();
    let mut idx: usize = 0;
    while idx < count
        invariant
            idx <= count,
            count == names@.len(),
            names@.map_values(|s: String| s@) == ph.1,
            ph == ph_pass(cond_pass(t@, *params)),
            forall|j: int| 0 <= j < idx ==> has_key(*params, ph.1[j]),
        decreases count - idx,
    {
        let name = &names[idx];
        if params.get(name.as_str()).is_none() {
            let msg = String::from_str("Missing parameter: ").concat(name.as_str());
            proof {
                let wi = idx as int;
                assert(ph.1[wi] == names@[wi]@);
                assert(!has_key(*params, ph.1[wi]));
                assert(msg@ == "Missing parameter: "@ + ph.1[wi]);
            }
            return Err(QueryError::InvalidInput(msg));
        }
        idx += 1;
    }
    Ok(BuiltQuery { sql, param_names: names })
}

} // verus!

