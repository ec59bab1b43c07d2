//! Fabrix's SQL builder: SQL dialects and their DDL queries, index and
//! table-field descriptions, and the conversions between dataframe cell
//! values and SQL query values, with their errors.

pub mod builder;
pub mod ddl_query;
pub mod errors;
pub mod model;
pub mod text;
pub mod util;
