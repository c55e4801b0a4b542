//! The query service: strategy registry, query context and strategies.
//!
//! A query request names a view; the registry resolves it to a strategy,
//! built once at startup and never changed. The canonical strategy
//! compiles the request's template, binds its parameters, runs the
//! statement on one data source — chosen deterministically as the
//! lexicographically least registered name — and normalizes the rows into
//! a `{columns, rows}` object by each column's runtime type name.

use vstd::prelude::*;

use crate::binder::{bind_value, BindValue};
use crate::connect::{postgres_connection_string, spec_postgres_conn};
use crate::errors::QueryError;
use crate::executor::DataSourceInfo;
use crate::json::{lookup_str, JsonValue};
use crate::template::{
    compile_missing_err, compile_template, compiled_ok, cond_pass, ph_pass, BuiltQuery,
};
use crate::text::{lex_le, lex_le_exec, lex_le_from, str_eq};

verus! {

/// All the information a strategy consumes for one request: the resolved
/// data-source names, the tenant, the parameters, and the query
/// specification.
#[derive(Debug)]
pub struct QueryContext {
    pub data_source_names: Vec<String>,
    pub tenant_id: String,
    pub params: JsonValue,
    pub query_spec: JsonValue,
}

impl QueryContext {
    /// Compile the `sql` template of the specification against the
    /// request's parameters.
    pub fn build_query(&self) -> (r: Result<BuiltQuery, QueryError>)
        ensures
            match r {
                Ok(bq) => {
                    &&& lookup_str(self.query_spec, "sql"@) is Some
                    &&& compiled_ok(
                        lookup_str(self.query_spec, "sql"@)->Some_0,
                        self.params,
                        bq,
                    )
                },
                Err(e) => {
                    ||| (lookup_str(self.query_spec, "sql"@) is None && (e matches
                        QueryError::InvalidInput(m) && m@ == "Missing 'sql' in spec"@))
                    ||| (lookup_str(self.query_spec, "sql"@) matches Some(t)
                        && compile_missing_err(t, self.params, e))
                },
            },
    {
        let template = match self.query_spec.get_str("sql") {
            Some(t) => t,
            None => {
                return Err(QueryError::InvalidInput(String::from_str(
                    "Missing 'sql' in spec",
                )));
            },
        };
        let r = compile_template(template, &self.params);
        proof {
            assert(lookup_str(self.query_spec, "sql"@) == Option::Some(template@));
        }
        r
    }

    /// Bind one named parameter of the request. Fails exactly when the
    /// name is not a key of the parameters or its value is a JSON
    /// object; every other value binds, and binding the same name again
    /// binds the same value.
    pub fn bind_param(&self, name: &str) -> (r: Result<BindValue, QueryError>)
        ensures
            match r {
                Ok(b) => crate::binder::bindable(self.params, name@)
                    && crate::binder::bound_ok(self.params, name@, b),
                Err(e) => {
                    &&& !crate::binder::bindable(self.params, name@)
                    &&& e matches QueryError::InvalidInput(m) && m@
                        == crate::binder::bind_err_msg(self.params, name@)
                },
            },
    {
        bind_value(&self.params, name)
    }
}

/// The strategies the registry knows; the set is fixed at startup.
#[derive(Clone, Copy, PartialEq, Eq, Structural, Debug)]
pub enum StrategyKind {
    ComparableCard,
}

/// Whether a view name is registered.
pub open spec fn spec_registered(view: Seq<char>) -> Option<StrategyKind> {
    if view == "comparable_card"@ {
        Option::Some(StrategyKind::ComparableCard)
    } else {
        Option::None
    }
}

/// The query service: the immutable name-to-strategy registry.
pub struct QueryService {
    pub registered: Vec<String>,
}

impl QueryService {
    /// Build the registry with every known strategy.
    pub fn new() -> (r: Self)
        ensures
            r.registered@.len() == 1,
            r.registered@[0]@ == "comparable_card"@,
    {
        let mut registered: Vec<String> = Vec::new();
        registered.push(String::from_str("comparable_card"));
        QueryService { registered }
    }

    /// Resolve a view name; an unregistered view is the not-found error,
    /// never a success.
    pub fn lookup_strategy(&self, view: &str) -> (r: Result<StrategyKind, QueryError>)
        ensures
            match r {
                Ok(k) => spec_registered(view@) == Option::Some(k),
                Err(e) => {
                    &&& spec_registered(view@) is None
                    &&& e matches QueryError::StrategyNotFound(m) && m@ == "View '"@ + view@
                        + "' not found"@
                },
            },
    {
        if str_eq(view, "comparable_card") {
            Ok(StrategyKind::ComparableCard)
        } else {
            let msg = String::from_str("View '").concat(view).concat("' not found");
            Err(QueryError::StrategyNotFound(msg))
        }
    }

    /// Resolve the connection string of every data source of the tenant,
    /// keyed by data-source name, in the given order.
    pub fn resolve_connections(data_sources: &Vec<DataSourceInfo>) -> (r: Result<
        Vec<(String, String)>,
        QueryError,
    >)
        ensures
            match r {
                Ok(v) => {
                    &&& v@.len() == data_sources@.len()
                    &&& forall|i: int|
                        0 <= i < v@.len() ==> (#[trigger] v@[i]).0@ == data_sources@[i].name@
                            && spec_postgres_conn(data_sources@[i].connection_config)
                            == Option::Some(v@[i].1@)
                },
                Err(e) => exists|i: int|
                    {
                        &&& 0 <= i < data_sources@.len()
                        &&& spec_postgres_conn(
                            (#[trigger] data_sources@[i]).connection_config,
                        ) is None
                        &&& (forall|j: int|
                            0 <= j < i ==> spec_postgres_conn(
                                (#[trigger] data_sources@[j]).connection_config,
                            ) is Some)
                        &&& (e matches QueryError::InvalidInput(m) && m@
                            == crate::connect::query_conn_msg(
                            data_sources@[i].connection_config,
                        ))
                    },
            },
    {
        let mut out: Vec<(String, String)> = Vec::new();
        let n = data_sources.len();
        let mut i: usize = 0;
        while i < n
            invariant
                i <= n,
                n == data_sources@.len(),
                out@.len() == i,
                forall|j: int|
                    0 <= j < i ==> (#[trigger] out@[j]).0@ == data_sources@[j].name@
                        && spec_postgres_conn(data_sources@[j].connection_config)
                        == Option::Some(out@[j].1@),
            decreases n - i,
        {
            let ds = &data_sources[i];
            let conn = match postgres_connection_string(&ds.connection_config) {
                Ok(c) => c,
                Err(m) => {
                    proof {
                        let wi = i as int;
                        assert(spec_postgres_conn(data_sources@[wi].connection_config)
                            is None);
                        assert forall|j: int|
                            0 <= j < wi implies spec_postgres_conn(
                            (#[trigger] data_sources@[j]).connection_config,
                        ) is Some by {
                            assert(out@[j].1@ == out@[j].1@);
                        }
                    }
                    return Err(QueryError::InvalidInput(m));
                },
            };
            let ghost prev = out@;
            out.push((String::from_str(ds.name.as_str()), conn));
            proof {
                assert(out@[i as int].0@ == data_sources@[i as int].name@);
            }
            i += 1;
        }
        Ok(out)
    }
}

proof fn lemma_lex_refl(a: Seq<char>, i: int)
    ensures
        lex_le_from(a, a, i),
    decreases a.len() - i,
{
    if 0 <= i < a.len() {
        lemma_lex_refl(a, i + 1);
    }
}

proof fn lemma_lex_total(a: Seq<char>, b: Seq<char>, i: int)
    ensures
        lex_le_from(a, b, i) || lex_le_from(b, a, i),
    decreases a.len() - i,
{
    if 0 <= i < a.len() && i < b.len() && (a[i] as u32) == (b[i] as u32) {
        lemma_lex_total(a, b, i + 1);
    }
}

proof fn lemma_lex_trans(a: Seq<char>, b: Seq<char>, c: Seq<char>, i: int)
    requires
        lex_le_from(a, b, i),
        lex_le_from(b, c, i),
    ensures
        lex_le_from(a, c, i),
    decreases a.len() - i,
{
    if 0 <= i < a.len() && i < b.len() && i < c.len() && (a[i] as u32) == (b[i] as u32) && (
    b[i] as u32) == (c[i] as u32) {
        lemma_lex_trans(a, b, c, i + 1);
    }
}

/// The canonical strategy: compiles the template, binds the parameters,
/// and normalizes the result rows.
pub struct ComparableCardStrategy;

/// How a runtime column type name is fetched and mapped into the JSON
/// result.
#[derive(Clone, Copy, PartialEq, Eq, Structural, Debug)]
pub enum FetchKind {
    /// Text-like: fetched as a string.
    Text,
    /// Integer-like: fetched as a 64-bit integer.
    Int,
    /// A 32-bit float.
    Float4,
    /// A 64-bit float.
    Float8,
    /// A boolean.
    Bool,
    /// Unrecognized: mapped to null, a documented fidelity gap.
    Other,
}

/// The mapping from a column's runtime type name to how its values are
/// fetched.
pub open spec fn spec_fetch_kind(name: Seq<char>) -> FetchKind {
    if name == "TEXT"@ || name == "VARCHAR"@ || name == "CHAR"@ {
        FetchKind::Text
    } else if name == "INTEGER"@ || name == "INT"@ || name == "BIGINT"@ || name == "INT8"@ {
        FetchKind::Int
    } else if name == "FLOAT4"@ {
        FetchKind::Float4
    } else if name == "REAL"@ || name == "DOUBLE"@ || name == "FLOAT"@ || name == "FLOAT8"@ {
        FetchKind::Float8
    } else if name == "BOOLEAN"@ {
        FetchKind::Bool
    } else {
        FetchKind::Other
    }
}

impl ComparableCardStrategy {
    pub fn new() -> Self {
        ComparableCardStrategy
    }

    /// Pick the data source to run against: the lexicographically least
    /// name, an explicit deterministic rule in place of map iteration
    /// order; no registered data source is a database error.
    pub fn select_data_source(names: &Vec<String>) -> (r: Result<usize, QueryError>)
        ensures
            match r {
                Ok(i) => {
                    &&& i < names@.len()
                    &&& forall|j: int| 0 <= j < names@.len() ==> lex_le(names@[i as int]@, (#[trigger] names@[j])@)
                    &&& forall|j: int| 0 <= j < i ==> !lex_le((#[trigger] names@[j])@, names@[i as int]@)
                },
                Err(e) => {
                    &&& names@.len() == 0
                    &&& e matches QueryError::DatabaseError(m) && m@
                        == "No data sources available"@
                },
            },
    {
        if names.len() == 0 {
            return Err(QueryError::DatabaseError(String::from_str(
                "No data sources available",
            )));
        }
        let n = names.len();
        let mut best: usize = 0;
        let mut j: usize = 1;
        proof {
            lemma_lex_refl(names@[0]@, 0);
        }
        while j < n
            invariant
                best < j <= n,
                n == names@.len(),
                forall|k: int| 0 <= k < j ==> lex_le(names@[best as int]@, (#[trigger] names@[k])@),
                forall|k: int| 0 <= k < best ==> !lex_le((#[trigger] names@[k])@, names@[best as int]@),
            decreases n - j,
        {
            if !lex_le_exec(names[best].as_str(), names[j].as_str()) {
                proof {
                    lemma_lex_total(names@[best as int]@, names@[j as int]@, 0);
                    assert forall|k: int| 0 <= k < j + 1 implies lex_le(
                        names@[j as int]@,
                        (#[trigger] names@[k])@,
                    ) by {
                        if k < j {
                            lemma_lex_trans(
                                names@[j as int]@,
                                names@[best as int]@,
                                names@[k]@,
                                0,
                            );
                        } else {
                            lemma_lex_refl(names@[j as int]@, 0);
                        }
                    }
                    assert forall|k: int| 0 <= k < j implies !lex_le(
                        (#[trigger] names@[k])@,
                        names@[j as int]@,
                    ) by {
                        if lex_le(names@[k]@, names@[j as int]@) {
                            lemma_lex_trans(
                                names@[best as int]@,
                                names@[k]@,
                                names@[j as int]@,
                                0,
                            );
                        }
                    }
                }
                best = j;
            }
            j += 1;
        }
        Ok(best)
    }

    /// Recognize a column's runtime type name.
    pub fn fetch_kind_of(name: &str) -> (r: FetchKind)
        ensures
            r == spec_fetch_kind(name@),
    {
        if str_eq(name, "TEXT") || str_eq(name, "VARCHAR") || str_eq(name, "CHAR") {
            FetchKind::Text
        } else if str_eq(name, "INTEGER") || str_eq(name, "INT") || str_eq(name, "BIGINT")
            || str_eq(name, "INT8") {
            FetchKind::Int
        } else if str_eq(name, "FLOAT4") {
            FetchKind::Float4
        } else if str_eq(name, "REAL") || str_eq(name, "DOUBLE") || str_eq(name, "FLOAT")
            || str_eq(name, "FLOAT8") {
            FetchKind::Float8
        } else if str_eq(name, "BOOLEAN") {
            FetchKind::Bool
        } else {
            FetchKind::Other
        }
    }

    /// Assemble the normalized response: the column names and the row
    /// objects, as `{columns, rows}`.
    pub fn assemble_result(columns: Vec<String>, rows: Vec<JsonValue>) -> (r: JsonValue)
        ensures
            r matches JsonValue::Object(es) && {
                &&& es@.len() == 2
                &&& es@[0].0@ == "columns"@
                &&& es@[0].1 matches JsonValue::Array(cs) && cs@.len() == columns@.len()
                    && (forall|i: int|
                    0 <= i < cs@.len() ==> ((#[trigger] cs@[i]) matches JsonValue::Str(s) && s@
                        == columns@[i]@))
                &&& es@[1].0@ == "rows"@
                &&& es@[1].1 == JsonValue::Array(rows)
            },
    {
        let mut cs: Vec<JsonValue> = Vec::new();
        let n = columns.len();
        let mut i: usize = 0;
        while i < n
            invariant
                i <= n,
                n == columns@.len(),
                cs@.len() == i,
                forall|j: int|
                    0 <= j < i ==> ((#[trigger] cs@[j]) matches JsonValue::Str(s) && s@
                        == columns@[j]@),
            decreases n - i,
        {
            cs.push(JsonValue::Str(String::from_str(columns[i].as_str())));
            i += 1;
        }
        let mut es: Vec<(String, JsonValue)> = Vec::new();
        es.push((String::from_str("columns"), JsonValue::Array(cs)));
        es.push((String::from_str("rows"), JsonValue::Array(rows)));
        JsonValue::Object(es)
    }
}

/// Everything the canonical strategy decides before touching the
/// database: which data source to run on, the compiled statement, and
/// the bind values in placeholder order.
#[derive(Debug)]
pub struct QueryPlan {
    pub data_source_index: usize,
    pub built: BuiltQuery,
    pub binds: Vec<crate::binder::BindValue>,
}

impl ComparableCardStrategy {
    /// Plan one request end to end: pick the data source, compile the
    /// template, and bind every collected parameter.
    pub fn prepare(context: &QueryContext) -> (r: Result<QueryPlan, QueryError>)
        ensures
            match r {
                Ok(plan) => {
                    &&& plan.data_source_index < context.data_source_names@.len()
                    &&& forall|j: int|
                        0 <= j < context.data_source_names@.len() ==> lex_le(
                            context.data_source_names@[plan.data_source_index as int]@,
                            (#[trigger] context.data_source_names@[j])@,
                        )
                    &&& lookup_str(context.query_spec, "sql"@) is Some
                    &&& compiled_ok(
                        lookup_str(context.query_spec, "sql"@)->Some_0,
                        context.params,
                        plan.built,
                    )
                    &&& plan.binds@.len() == plan.built.param_names@.len()
                    &&& forall|i: int|
                        0 <= i < plan.built.param_names@.len() ==> crate::binder::bound_ok(
                            context.params,
                            plan.built.param_names@[i]@,
                            #[trigger] plan.binds@[i],
                        )
                },
                Err(e) => {
                    ||| (context.data_source_names@.len() == 0 && (e matches
                        QueryError::DatabaseError(m) && m@ == "No data sources available"@))
                    ||| (context.data_source_names@.len() > 0 && lookup_str(
                        context.query_spec,
                        "sql"@,
                    ) is None && (e matches QueryError::InvalidInput(m) && m@
                        == "Missing 'sql' in spec"@))
                    ||| (context.data_source_names@.len() > 0 && (lookup_str(
                        context.query_spec,
                        "sql"@,
                    ) matches Some(t) && compile_missing_err(t, context.params, e)))
                    ||| (context.data_source_names@.len() > 0 && (lookup_str(
                        context.query_spec,
                        "sql"@,
                    ) matches Some(t) && crate::binder::bind_params_err(
                        context.params,
                        ph_pass(cond_pass(t, context.params)).1,
                        e,
                    )))
                },
            },
    {
        let data_source_index = match Self::select_data_source(&context.data_source_names) {
            Ok(i) => i,
            Err(e) => {
                return Err(e);
            },
        };
        let built = match context.build_query() {
            Ok(b) => b,
            Err(e) => {
                return Err(e);
            },
        };
        let binds = match crate::binder::bind_params(&context.params, &built.param_names) {
            Ok(bs) => bs,
            Err(e) => {
                return Err(e);
            },
        };
        Ok(QueryPlan { data_source_index, built, binds })
    }
}

/// A template for new strategies: it echoes the request back.
pub struct ExampleStrategy;

impl ExampleStrategy {
    pub fn new() -> Self {
        ExampleStrategy
    }

    /// Build the example response: the tenant, the required `param1`
    /// parameter, the optional `field` of the specification, and a fixed
    /// message.
    pub fn respond(&self, context: &QueryContext) -> (r: Result<JsonValue, QueryError>)
        ensures
            match r {
                Ok(v) => {
                    &&& lookup_str(context.params, "param1"@) is Some
                    &&& v matches JsonValue::Object(es) && {
                        &&& es@.len() == 5
                        &&& es@[0].0@ == "view"@ && (es@[0].1 matches JsonValue::Str(s) && s@
                            == "example"@)
                        &&& es@[1].0@ == "tenant_id"@ && (es@[1].1 matches JsonValue::Str(s)
                            && s@ == context.tenant_id@)
                        &&& es@[2].0@ == "params"@ && (es@[2].1 matches JsonValue::Object(ps)
                            && ps@.len() == 1 && ps@[0].0@ == "param1"@ && (ps@[0].1 matches
                        JsonValue::Str(p) && p@ == lookup_str(
                            context.params,
                            "param1"@,
                        )->Some_0))
                        &&& es@[3].0@ == "spec"@ && (es@[3].1 matches JsonValue::Object(fs)
                            && fs@.len() == 1 && fs@[0].0@ == "field"@ && (fs@[0].1 matches
                        JsonValue::Str(fv) && fv@ == (match lookup_str(
                            context.query_spec,
                            "field"@,
                        ) {
                            Option::Some(t) => t,
                            Option::None => "default_value"@,
                        })))
                        &&& es@[4].0@ == "result"@ && (es@[4].1 matches JsonValue::Object(rs)
                            && rs@.len() == 1 && rs@[0].0@ == "message"@ && (rs@[0].1 matches
                        JsonValue::Str(msg) && msg@
                            == "Example strategy executed successfully"@))
                    }
                },
                Err(e) => {
                    &&& lookup_str(context.params, "param1"@) is None
                    &&& e matches QueryError::InvalidInput(m) && m@
                        == "Missing 'param1' parameter"@
                },
            },
    {
        let param1 = match context.params.get_str("param1") {
            Some(p) => p,
            None => {
                return Err(QueryError::InvalidInput(String::from_str(
                    "Missing 'param1' parameter",
                )));
            },
        };
        let field = match context.query_spec.get_str("field") {
            Some(f) => f,
            None => "default_value",
        };
        let mut ps: Vec<(String, JsonValue)> = Vec::new();
        ps.push((String::from_str("param1"), JsonValue::Str(String::from_str(param1))));
        let mut fs: Vec<(String, JsonValue)> = Vec::new();
        fs.push((String::from_str("field"), JsonValue::Str(String::from_str(field))));
        let mut rs: Vec<(String, JsonValue)> = Vec::new();
        rs.push(
            (
                String::from_str("message"),
                JsonValue::Str(String::from_str("Example strategy executed successfully")),
            ),
        );
        let mut es: Vec<(String, JsonValue)> = Vec::new();
        es.push((String::from_str("view"), JsonValue::Str(String::from_str("example"))));
        es.push(
            (
                String::from_str("tenant_id"),
                JsonValue::Str(String::from_str(context.tenant_id.as_str())),
            ),
        );
        es.push((String::from_str("params"), JsonValue::Object(ps)));
        es.push((String::from_str("spec"), JsonValue::Object(fs)));
        es.push((String::from_str("result"), JsonValue::Object(rs)));
        Ok(JsonValue::Object(es))
    }
}

} // verus!
