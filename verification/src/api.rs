//! Query-string parameter shapes of the listing endpoints.

use vstd::prelude::*;

verus! {

/// Listing tables of one data source.
pub struct ListByDataSourceQuery {
    pub tenant_id: Option<String>,
    pub data_source_id: String,
}

/// Listing the columns of one table.
pub struct ListByTableQuery {
    pub tenant_id: Option<String>,
    pub data_table_id: String,
}

/// Fetching the usage record of one table.
pub struct GetByTableQuery {
    pub data_table_id: String,
}

} // verus!
