//! The library's error type.

use crate::model::{pretty_dtypes, pretty_fits, push_pretty_dtypes, DataType};
use crate::text::{debug_string, str_debug};
use vstd::prelude::*;
use vstd::std_specs::convert::FromSpecImpl;

verus! {

/// Declares `polars::error::PolarsError`, carried by [`FabrixError::Polars`].
#[verifier::external_type_specification]
#[verifier::external_body]
pub struct ExPolarsError(polars::error::PolarsError);

/// Declares `sqlx::Error`, carried by [`FabrixError::Sqlx`].
#[verifier::external_type_specification]
#[verifier::external_body]
pub struct ExSqlxError(sqlx::Error);

/// Declares `sea_query::error::Error`, carried by [`FabrixError::SeqQuery`].
#[verifier::external_type_specification]
#[verifier::external_body]
pub struct ExSeaQueryError(sea_query::error::Error);

/// The result of a fallible library operation.
pub type FabrixResult<T> = Result<T, FabrixError>;

/// A message of a common error: a static text or an owned one.
#[derive(Debug)]
pub enum CommonError {
    Str(&'static str),
    String(String),
}

impl CommonError {
    /// The message text carried by the error.
    pub open spec fn message(&self) -> Seq<char> {
        match self {
            CommonError::Str(v) => v@,
            CommonError::String(v) => v@,
        }
    }

    /// What the error shows as: the `Debug` form of its message (a quoted,
    /// escaped string).
    pub fn to_display_string(&self) -> (res: String)
        ensures
            res@ == str_debug(self.message()),
    {
        match self {
            CommonError::Str(v) => debug_string(v),
            CommonError::String(v) => debug_string(v.as_str()),
        }
    }
}

impl From<&'static str> for CommonError {
    fn from(v: &'static str) -> (res: Self)
        ensures
            res == CommonError::Str(v),
    {
        CommonError::Str(v)
    }
}

impl FromSpecImpl<&'static str> for CommonError {
    open spec fn obeys_from_spec() -> bool {
        true
    }

    open spec fn from_spec(v: &'static str) -> Self {
        CommonError::Str(v)
    }
}

impl From<String> for CommonError {
    fn from(v: String) -> (res: Self)
        ensures
            res == CommonError::String(v),
    {
        CommonError::String(v)
    }
}

impl FromSpecImpl<String> for CommonError {
    open spec fn obeys_from_spec() -> bool {
        true
    }

    open spec fn from_spec(v: String) -> Self {
        CommonError::String(v)
    }
}

/// Errors of the library.
#[derive(Debug)]
pub enum FabrixError {
    Common(CommonError),
    Parse(String, String),
    Polars(polars::error::PolarsError),
    Sqlx(sqlx::Error),
    SeqQuery(sea_query::error::Error),
    Unknown,
}

impl FabrixError {
    /// A common error with the given message.
    pub fn new_common_error<T>(msg: T) -> (res: FabrixError) where CommonError: From<T>
        ensures
            <CommonError as vstd::std_specs::convert::FromSpec<T>>::obeys_from_spec() ==> res
                == FabrixError::Common(<CommonError as vstd::std_specs::convert::FromSpec<T>>::from_spec(msg)),
            res is Common,
    {
        FabrixError::Common(CommonError::from(msg))
    }

    /// A parse error: `type1` could not be parsed into `type2` (both given as
    /// the text they show as).
    pub fn new_parse_error(type1: &str, type2: &str) -> (res: FabrixError)
        ensures
            res matches FabrixError::Parse(a, b) && a@ == type1@ && b@ == type2@,
    {
        FabrixError::Parse(String::from_str(type1), String::from_str(type2))
    }

    /// A parse error on a type (given as the text it shows as), with a message.
    pub fn new_parse_info_error(kind: &str, info: &str) -> (res: FabrixError)
        ensures
            res matches FabrixError::Parse(a, b) && a@ == kind@ && b@ == info@,
    {
        FabrixError::Parse(String::from_str(kind), String::from_str(info))
    }

    /// The error for two dataframes whose types differ: each given as its
    /// index type and its columns' types.
    pub fn new_df_dtypes_mismatch_error<'a>(
        d1: (&'a DataType, Vec<DataType>),
        d2: (&'a DataType, Vec<DataType>),
    ) -> (res: FabrixError)
        requires
            pretty_fits(*d1.0, d1.1@),
            pretty_fits(*d2.0, d2.1@),
        ensures
            res matches FabrixError::Common(CommonError::String(m)) && m@
                == "dataframe dtypes mismatch, d1: "@ + pretty_dtypes(*d1.0, d1.1@) + ", d2: "@
                + pretty_dtypes(*d2.0, d2.1@),
    {
        let mut msg = String::from_str("dataframe dtypes mismatch, d1: ");
        push_pretty_dtypes(&mut msg, d1.0, &d1.1);
        msg.append(", d2: ");
        push_pretty_dtypes(&mut msg, d2.0, &d2.1);
        FabrixError::new_common_error(msg)
    }

    /// The error for empty content.
    pub fn new_empty_error() -> (res: FabrixError)
        ensures
            res matches FabrixError::Common(CommonError::Str(m)) && m@ == "empty content"@,
    {
        FabrixError::new_common_error("empty content")
    }
}

} // verus!
