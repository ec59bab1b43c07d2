//! The SQL builder: dialects, index options, table fields, and the
//! conversions between cell values and SQL query values.

use crate::errors::{CommonError, FabrixError, FabrixResult};
use crate::model::{DataType, Field, SValue, Series, Value};
use crate::text::{all_ascii, ascii_lower, lowercase, str_eq, to_lowercase_text, uuid_hyphenated, uuid_string};
use vstd::prelude::*;
use vstd::std_specs::convert::{FromSpec, FromSpecImpl};

verus! {

/// The SQL dialect a statement is built for.
#[derive(Debug, Clone, PartialEq, Eq, Structural)]
pub enum SqlBuilder {
    Mysql,
    Postgres,
    Sqlite,
}

/// The name of a dialect.
pub open spec fn builder_text(b: SqlBuilder) -> Seq<char> {
    match b {
        SqlBuilder::Mysql => "mysql"@,
        SqlBuilder::Postgres => "postgres"@,
        SqlBuilder::Sqlite => "sqlite"@,
    }
}

/// The dialect a lowercase name selects: `mysql` or `m`, `postgres` or `p`,
/// and SQLite for anything else.
pub open spec fn builder_from_lowercase(s: Seq<char>) -> SqlBuilder {
    if s == "mysql"@ || s == "m"@ {
        SqlBuilder::Mysql
    } else if s == "postgres"@ || s == "p"@ {
        SqlBuilder::Postgres
    } else {
        SqlBuilder::Sqlite
    }
}

impl SqlBuilder {
    /// The name of the dialect (what it shows as).
    pub fn to_text(&self) -> (res: String)
        ensures
            res@ == builder_text(*self),
    {
        match self {
            SqlBuilder::Mysql => String::from_str("mysql"),
            SqlBuilder::Postgres => String::from_str("postgres"),
            SqlBuilder::Sqlite => String::from_str("sqlite"),
        }
    }

    /// The dialect that an already lowercased name selects.
    pub fn from_lowercase(v: &str) -> (res: SqlBuilder)
        ensures
            res == builder_from_lowercase(v@),
            (v@ == "mysql"@ || v@ == "m"@) ==> res is Mysql,
            (v@ == "postgres"@ || v@ == "p"@) ==> res is Postgres,
            !(v@ == "mysql"@ || v@ == "m"@ || v@ == "postgres"@ || v@ == "p"@) ==> res is Sqlite,
    {
        proof {
            lemma_dialect_names(v@);
        }
        if str_eq(v, "mysql") || str_eq(v, "m") {
            SqlBuilder::Mysql
        } else if str_eq(v, "postgres") || str_eq(v, "p") {
            SqlBuilder::Postgres
        } else {
            SqlBuilder::Sqlite
        }
    }
}

impl<'a> From<&'a str> for SqlBuilder {
    /// The dialect a name selects, case-insensitively.
    fn from(v: &'a str) -> (res: Self)
        ensures
            res == builder_from_lowercase(lowercase(v@)),
            all_ascii(v@) ==> res == builder_from_lowercase(ascii_lower(v@)),
    {
        let lower = to_lowercase_text(v);
        SqlBuilder::from_lowercase(lower.as_str())
    }
}

impl<'a> FromSpecImpl<&'a str> for SqlBuilder {
    open spec fn obeys_from_spec() -> bool {
        true
    }

    open spec fn from_spec(v: &'a str) -> Self {
        builder_from_lowercase(lowercase(v@))
    }
}

/// The kind of a table's index column.
#[derive(Debug, PartialEq, Eq, Structural)]
pub enum IndexType {
    Int,
    BigInt,
    Uuid,
}

/// The index type a lowercase name selects: `uuid` or `u`, `bigint` or `b`,
/// and `Int` for anything else.
pub open spec fn index_type_from_lowercase(s: Seq<char>) -> IndexType {
    if s == "uuid"@ || s == "u"@ {
        IndexType::Uuid
    } else if s == "bigint"@ || s == "b"@ {
        IndexType::BigInt
    } else {
        IndexType::Int
    }
}

impl IndexType {
    /// The index type that an already lowercased name selects.
    pub fn from_lowercase(v: &str) -> (res: IndexType)
        ensures
            res == index_type_from_lowercase(v@),
            (v@ == "uuid"@ || v@ == "u"@) ==> res is Uuid,
            (v@ == "bigint"@ || v@ == "b"@) ==> res is BigInt,
            !(v@ == "uuid"@ || v@ == "u"@ || v@ == "bigint"@ || v@ == "b"@) ==> res is Int,
    {
        proof {
            lemma_index_type_names(v@);
        }
        if str_eq(v, "uuid") || str_eq(v, "u") {
            IndexType::Uuid
        } else if str_eq(v, "bigint") || str_eq(v, "b") {
            IndexType::BigInt
        } else {
            IndexType::Int
        }
    }
}

impl<'a> From<&'a str> for IndexType {
    /// The index type a name selects, case-insensitively.
    fn from(v: &'a str) -> (res: Self)
        ensures
            res == index_type_from_lowercase(lowercase(v@)),
            all_ascii(v@) ==> res == index_type_from_lowercase(ascii_lower(v@)),
    {
        let lower = to_lowercase_text(v);
        IndexType::from_lowercase(lower.as_str())
    }
}

impl<'a> FromSpecImpl<&'a str> for IndexType {
    open spec fn obeys_from_spec() -> bool {
        true
    }

    open spec fn from_spec(v: &'a str) -> Self {
        index_type_from_lowercase(lowercase(v@))
    }
}

/// The index column of a table: its name and kind.
pub struct IndexOption<'a> {
    pub name: &'a str,
    pub index_type: IndexType,
}

/// The index type a column of the given data type can serve as: unsigned
/// and signed integers up to 32 bits as `Int`, 64-bit ones as `BigInt`,
/// strings as `Uuid`; other types cannot.
pub open spec fn index_type_of_dtype(d: DataType) -> Option<IndexType> {
    match d {
        DataType::UInt8 | DataType::UInt16 | DataType::UInt32 | DataType::Int8 | DataType::Int16
        | DataType::Int32 => Some(IndexType::Int),
        DataType::UInt64 | DataType::Int64 => Some(IndexType::BigInt),
        DataType::Utf8 => Some(IndexType::Uuid),
        _ => None,
    }
}

impl<'a> IndexOption<'a> {
    /// An index option with the given name and kind.
    pub fn new<T>(name: &'a str, index_type: T) -> (res: Self) where IndexType: From<T>
        ensures
            res.name == name,
            <IndexType as FromSpec<T>>::obeys_from_spec() ==> res.index_type
                == <IndexType as FromSpec<T>>::from_spec(index_type),
    {
        let index_type: IndexType = IndexType::from(index_type);
        IndexOption { name, index_type }
    }

    /// The index option for a series: named as the series, of the kind its
    /// data type serves as; an error for a type that cannot serve as an index.
    pub fn try_from_series(series: &'a Series) -> (res: FabrixResult<Self>)
        ensures
            index_type_of_dtype(series.dtype_view()) matches Some(t) ==> (res matches Ok(o) && o.name@
                == series.name_view() && o.index_type == t),
            index_type_of_dtype(series.dtype_view()) is None ==> (res matches Err(
                FabrixError::Common(CommonError::String(m)),
            ) && m@ == series.dtype_view().debug() + " cannot convert to index type"@),
            (series.dtype_view() is Int64 || series.dtype_view() is UInt64) ==> (res matches Ok(o)
                && o.name@ == series.name_view() && o.index_type == IndexType::BigInt),
            (series.dtype_view() is Int8 || series.dtype_view() is Int16 || series.dtype_view() is Int32
                || series.dtype_view() is UInt8 || series.dtype_view() is UInt16
                || series.dtype_view() is UInt32) ==> (res matches Ok(o) && o.name@
                == series.name_view() && o.index_type == IndexType::Int),
            series.dtype_view() is Utf8 ==> (res matches Ok(o) && o.name@ == series.name_view()
                && o.index_type == IndexType::Uuid),
            (res is Ok) ==> (series.dtype_view() is Int8 || series.dtype_view() is Int16
                || series.dtype_view() is Int32 || series.dtype_view() is Int64
                || series.dtype_view() is UInt8 || series.dtype_view() is UInt16
                || series.dtype_view() is UInt32 || series.dtype_view() is UInt64
                || series.dtype_view() is Utf8),
    {
        let dtype = series.dtype();
        let index_type = match dtype {
            DataType::UInt8 => IndexType::Int,
            DataType::UInt16 => IndexType::Int,
            DataType::UInt32 => IndexType::Int,
            DataType::UInt64 => IndexType::BigInt,
            DataType::Int8 => IndexType::Int,
            DataType::Int16 => IndexType::Int,
            DataType::Int32 => IndexType::Int,
            DataType::Int64 => IndexType::BigInt,
            DataType::Utf8 => IndexType::Uuid,
            _ => {
                let mut msg = dtype.debug_text();
                msg.append(" cannot convert to index type");
                return Err(FabrixError::new_common_error(msg));
            },
        };
        Ok(IndexOption { name: series.name(), index_type })
    }
}

/// How a dataframe is saved into an existing table.
pub enum SaveStrategy {
    Replace,
    Append,
    Upsert,
    Fail,
}

/// A table field: column name, column type and whether it is nullable.
pub struct TableField {
    pub(crate) field: Field,
    pub(crate) nullable: bool,
}

impl TableField {
    /// The field of the column.
    pub closed spec fn field_view(&self) -> &Field {
        &self.field
    }

    /// Whether the column is nullable.
    pub closed spec fn is_nullable(&self) -> bool {
        self.nullable
    }

    /// A table field of the given field and nullability.
    pub fn new(field: Field, nullable: bool) -> (res: Self)
        ensures
            *res.field_view() == field,
            res.is_nullable() == nullable,
    {
        TableField { field, nullable }
    }

    /// The field of the column.
    pub fn field(&self) -> (r: &Field)
        ensures
            *r == *self.field_view(),
    {
        &self.field
    }

    /// The column's name.
    pub fn name(&self) -> (r: &String)
        ensures
            r@ == self.field_view().name_view(),
    {
        self.field.name()
    }

    /// The column's data type.
    pub fn data_type(&self) -> (r: &DataType)
        ensures
            *r == self.field_view().dtype(),
    {
        self.field.data_type()
    }

    /// Whether the column is nullable.
    pub fn nullable(&self) -> (b: bool)
        ensures
            b == self.is_nullable(),
    {
        self.nullable
    }
}

impl From<Field> for TableField {
    /// A nullable table field of the given field.
    fn from(f: Field) -> (res: Self)
        ensures
            *res.field_view() == f,
            res.is_nullable(),
    {
        TableField::new(f, true)
    }
}

impl FromSpecImpl<Field> for TableField {
    open spec fn obeys_from_spec() -> bool {
        true
    }

    closed spec fn from_spec(f: Field) -> Self {
        TableField { field: f, nullable: true }
    }
}

} // verus!

verus! {

/// The typed null a column of this data type binds as; `None` for the
/// temporal, list, null and categorical types, which have none.
pub open spec fn null_svalue(d: DataType) -> Option<SValue> {
    match d {
        DataType::Boolean => Some(SValue::Bool(None)),
        DataType::UInt8 => Some(SValue::TinyUnsigned(None)),
        DataType::UInt16 => Some(SValue::SmallUnsigned(None)),
        DataType::UInt32 => Some(SValue::Unsigned(None)),
        DataType::UInt64 => Some(SValue::BigUnsigned(None)),
        DataType::Int8 => Some(SValue::TinyInt(None)),
        DataType::Int16 => Some(SValue::SmallInt(None)),
        DataType::Int32 => Some(SValue::Int(None)),
        DataType::Int64 => Some(SValue::BigInt(None)),
        DataType::Float32 => Some(SValue::Float(None)),
        DataType::Float64 => Some(SValue::Double(None)),
        DataType::Utf8 => Some(SValue::String(None)),
        _ => None,
    }
}

/// The query value a non-null cell value binds as: the query type of the
/// same width and signedness, holding the value; `None` for `Null`.
pub open spec fn value_svalue(v: Value) -> Option<SValue> {
    match v {
        Value::Bool(b) => Some(SValue::Bool(Some(b))),
        Value::U8(x) => Some(SValue::TinyUnsigned(Some(x))),
        Value::U16(x) => Some(SValue::SmallUnsigned(Some(x))),
        Value::U32(x) => Some(SValue::Unsigned(Some(x))),
        Value::U64(x) => Some(SValue::BigUnsigned(Some(x))),
        Value::I8(x) => Some(SValue::TinyInt(Some(x))),
        Value::I16(x) => Some(SValue::SmallInt(Some(x))),
        Value::I32(x) => Some(SValue::Int(Some(x))),
        Value::I64(x) => Some(SValue::BigInt(Some(x))),
        Value::F32(x) => Some(SValue::Float(Some(x))),
        Value::F64(x) => Some(SValue::Double(Some(x))),
        Value::String(s) => Some(SValue::String(Some(s))),
        Value::Null => None,
    }
}

/// Whether a cell value can be converted for a column of type `d`: a null
/// needs a column type with a typed null if the column is nullable, and a
/// displayable column type otherwise (for the error message).
pub open spec fn value_convertible(v: Value, d: DataType, nullable: bool) -> bool {
    v is Null ==> if nullable {
        null_svalue(d) is Some
    } else {
        d.displayable()
    }
}

/// The query value a cell value converts to for a column of type `d`, where
/// it converts (a null into a non-nullable column does not).
pub open spec fn value_to_svalue(v: Value, d: DataType) -> SValue {
    if v is Null {
        null_svalue(d).unwrap()
    } else {
        value_svalue(v).unwrap()
    }
}

/// The typed null of a column type.
fn from_data_type_to_null_svalue(dtype: &DataType) -> (res: SValue)
    requires
        null_svalue(*dtype) is Some,
    ensures
        res == null_svalue(*dtype).unwrap(),
{
    match dtype {
        DataType::Boolean => SValue::Bool(None),
        DataType::UInt8 => SValue::TinyUnsigned(None),
        DataType::UInt16 => SValue::SmallUnsigned(None),
        DataType::UInt32 => SValue::Unsigned(None),
        DataType::UInt64 => SValue::BigUnsigned(None),
        DataType::Int8 => SValue::TinyInt(None),
        DataType::Int16 => SValue::SmallInt(None),
        DataType::Int32 => SValue::Int(None),
        DataType::Int64 => SValue::BigInt(None),
        DataType::Float32 => SValue::Float(None),
        DataType::Float64 => SValue::Double(None),
        DataType::Utf8 => SValue::String(None),
        _ => {
            proof {
                assert(false);
            }
            SValue::Bool(None)
        },
    }
}

/// Converts a cell value into the query value it binds as for a column of
/// type `dtype`. A null becomes the column type's typed null when the column
/// is nullable, and a parse error (`null` into the column type's name) when
/// it is not.
pub fn try_from_value_to_svalue(value: Value, dtype: &DataType, nullable: bool) -> (res:
    FabrixResult<SValue>)
    requires
        value_convertible(value, *dtype, nullable),
    ensures
        !(value is Null && !nullable) ==> res == Ok::<SValue, FabrixError>(
            value_to_svalue(value, *dtype),
        ),
        value is Null && !nullable ==> (res matches Err(FabrixError::Parse(a, b)) && a@ == "null"@
            && b@ == dtype.display()),
        value is Null && nullable && *dtype is Boolean ==> res == Ok::<SValue, FabrixError>(
            SValue::Bool(None),
        ),
        value is Null && nullable && *dtype is UInt8 ==> res == Ok::<SValue, FabrixError>(
            SValue::TinyUnsigned(None),
        ),
        value is Null && nullable && *dtype is UInt16 ==> res == Ok::<SValue, FabrixError>(
            SValue::SmallUnsigned(None),
        ),
        value is Null && nullable && *dtype is UInt32 ==> res == Ok::<SValue, FabrixError>(
            SValue::Unsigned(None),
        ),
        value is Null && nullable && *dtype is UInt64 ==> res == Ok::<SValue, FabrixError>(
            SValue::BigUnsigned(None),
        ),
        value is Null && nullable && *dtype is Int8 ==> res == Ok::<SValue, FabrixError>(
            SValue::TinyInt(None),
        ),
        value is Null && nullable && *dtype is Int16 ==> res == Ok::<SValue, FabrixError>(
            SValue::SmallInt(None),
        ),
        value is Null && nullable && *dtype is Int32 ==> res == Ok::<SValue, FabrixError>(
            SValue::Int(None),
        ),
        value is Null && nullable && *dtype is Int64 ==> res == Ok::<SValue, FabrixError>(
            SValue::BigInt(None),
        ),
        value is Null && nullable && *dtype is Float32 ==> res == Ok::<SValue, FabrixError>(
            SValue::Float(None),
        ),
        value is Null && nullable && *dtype is Float64 ==> res == Ok::<SValue, FabrixError>(
            SValue::Double(None),
        ),
        value is Null && nullable && *dtype is Utf8 ==> res == Ok::<SValue, FabrixError>(
            SValue::String(None),
        ),
        value matches Value::Bool(x) ==> res == Ok::<SValue, FabrixError>(SValue::Bool(Some(x))),
        value matches Value::U8(x) ==> res == Ok::<SValue, FabrixError>(SValue::TinyUnsigned(Some(x))),
        value matches Value::U16(x) ==> res == Ok::<SValue, FabrixError>(SValue::SmallUnsigned(Some(x))),
        value matches Value::U32(x) ==> res == Ok::<SValue, FabrixError>(SValue::Unsigned(Some(x))),
        value matches Value::U64(x) ==> res == Ok::<SValue, FabrixError>(SValue::BigUnsigned(Some(x))),
        value matches Value::I8(x) ==> res == Ok::<SValue, FabrixError>(SValue::TinyInt(Some(x))),
        value matches Value::I16(x) ==> res == Ok::<SValue, FabrixError>(SValue::SmallInt(Some(x))),
        value matches Value::I32(x) ==> res == Ok::<SValue, FabrixError>(SValue::Int(Some(x))),
        value matches Value::I64(x) ==> res == Ok::<SValue, FabrixError>(SValue::BigInt(Some(x))),
        value matches Value::F32(x) ==> res == Ok::<SValue, FabrixError>(SValue::Float(Some(x))),
        value matches Value::F64(x) ==> res == Ok::<SValue, FabrixError>(SValue::Double(Some(x))),
        value matches Value::String(x) ==> res == Ok::<SValue, FabrixError>(SValue::String(Some(x))),
        value is Null && nullable ==> (res matches Ok(sv) && svalue_holds_none(sv)),
{
    match value {
        Value::Bool(v) => Ok(SValue::Bool(Some(v))),
        Value::U8(v) => Ok(SValue::TinyUnsigned(Some(v))),
        Value::U16(v) => Ok(SValue::SmallUnsigned(Some(v))),
        Value::U32(v) => Ok(SValue::Unsigned(Some(v))),
        Value::U64(v) => Ok(SValue::BigUnsigned(Some(v))),
        Value::I8(v) => Ok(SValue::TinyInt(Some(v))),
        Value::I16(v) => Ok(SValue::SmallInt(Some(v))),
        Value::I32(v) => Ok(SValue::Int(Some(v))),
        Value::I64(v) => Ok(SValue::BigInt(Some(v))),
        Value::F32(v) => Ok(SValue::Float(Some(v))),
        Value::F64(v) => Ok(SValue::Double(Some(v))),
        Value::String(v) => Ok(SValue::String(Some(v))),
        Value::Null => {
            if nullable {
                Ok(from_data_type_to_null_svalue(dtype))
            } else {
                let type_text = dtype.display_text();
                Err(FabrixError::new_parse_error("null", type_text.as_str()))
            }
        },
    }
}

/// For the query values that hold a plain number or boolean: the cell value
/// the held value is (`None` inside for a typed null); `None` for the other
/// query values.
pub open spec fn svalue_payload(sv: SValue) -> Option<Option<Value>> {
    match sv {
        SValue::Bool(o) => Some(
            match o {
                Some(x) => Some(Value::Bool(x)),
                None => None,
            },
        ),
        SValue::TinyInt(o) => Some(
            match o {
                Some(x) => Some(Value::I8(x)),
                None => None,
            },
        ),
        SValue::SmallInt(o) => Some(
            match o {
                Some(x) => Some(Value::I16(x)),
                None => None,
            },
        ),
        SValue::Int(o) => Some(
            match o {
                Some(x) => Some(Value::I32(x)),
                None => None,
            },
        ),
        SValue::BigInt(o) => Some(
            match o {
                Some(x) => Some(Value::I64(x)),
                None => None,
            },
        ),
        SValue::TinyUnsigned(o) => Some(
            match o {
                Some(x) => Some(Value::U8(x)),
                None => None,
            },
        ),
        SValue::SmallUnsigned(o) => Some(
            match o {
                Some(x) => Some(Value::U16(x)),
                None => None,
            },
        ),
        SValue::Unsigned(o) => Some(
            match o {
                Some(x) => Some(Value::U32(x)),
                None => None,
            },
        ),
        SValue::BigUnsigned(o) => Some(
            match o {
                Some(x) => Some(Value::U64(x)),
                None => None,
            },
        ),
        SValue::Float(o) => Some(
            match o {
                Some(x) => Some(Value::F32(x)),
                None => None,
            },
        ),
        SValue::Double(o) => Some(
            match o {
                Some(x) => Some(Value::F64(x)),
                None => None,
            },
        ),
        _ => None,
    }
}

/// The query value holds no value: it is a typed null.
pub open spec fn svalue_holds_none(sv: SValue) -> bool {
    match sv {
        SValue::Bool(o) => o is None,
        SValue::TinyInt(o) => o is None,
        SValue::SmallInt(o) => o is None,
        SValue::Int(o) => o is None,
        SValue::BigInt(o) => o is None,
        SValue::TinyUnsigned(o) => o is None,
        SValue::SmallUnsigned(o) => o is None,
        SValue::Unsigned(o) => o is None,
        SValue::BigUnsigned(o) => o is None,
        SValue::Float(o) => o is None,
        SValue::Double(o) => o is None,
        SValue::String(o) => o is None,
        SValue::Bytes(o) => o is None,
        SValue::Uuid(o) => o is None,
    }
}

/// `r` is the "unsupported type" common error.
pub open spec fn is_unsupported_error(r: FabrixResult<Value>) -> bool {
    r matches Err(FabrixError::Common(CommonError::Str(m))) && m@ == "unsupported type"@
}

/// What converting the query value `sv` back into a cell value gives.
/// Numbers and booleans give the value they hold; their typed null gives
/// `Null` for a nullable column and the "unsupported type" error otherwise.
/// Strings give the string or `Null`; a UUID gives its hyphenated text or
/// `Null`; bytes give the "unsupported type" error.
pub open spec fn svalue_converts_to(sv: SValue, nullable: bool, r: FabrixResult<Value>) -> bool {
    match svalue_payload(sv) {
        Some(p) => if nullable {
            r == Ok::<Value, FabrixError>(
                match p {
                    Some(v) => v,
                    None => Value::Null,
                },
            )
        } else {
            match p {
                Some(v) => r == Ok::<Value, FabrixError>(v),
                None => is_unsupported_error(r),
            }
        },
        None => match sv {
            SValue::String(o) => r == Ok::<Value, FabrixError>(
                match o {
                    Some(s) => Value::String(s),
                    None => Value::Null,
                },
            ),
            SValue::Uuid(o) => match o {
                Some(x) => (r matches Ok(Value::String(s)) && s@ == uuid_hyphenated(x)),
                None => r == Ok::<Value, FabrixError>(Value::Null),
            },
            _ => is_unsupported_error(r),
        },
    }
}

/// The cell value of an optional plain value: the value, or `Null`.
fn nullable_value(v: Option<Value>) -> (res: Value)
    ensures
        res == match v {
            Some(x) => x,
            None => Value::Null,
        },
{
    match v {
        Some(x) => x,
        None => Value::Null,
    }
}

/// Converts an optional plain value: with a nullable column, the value or
/// `Null`; otherwise the value, and the "unsupported type" error for none.
fn optional_to_value(v: Option<Value>, nullable: bool) -> (res: FabrixResult<Value>)
    ensures
        nullable ==> res == Ok::<Value, FabrixError>(
            match v {
                Some(x) => x,
                None => Value::Null,
            },
        ),
        !nullable ==> match v {
            Some(x) => res == Ok::<Value, FabrixError>(x),
            None => is_unsupported_error(res),
        },
{
    if nullable {
        Ok(nullable_value(v))
    } else {
        match v {
            Some(x) => Ok(x),
            None => Err(FabrixError::new_common_error("unsupported type")),
        }
    }
}

/// Converts a query value back into a cell value (see `svalue_converts_to`).
pub fn _from_svalue_to_value(svalue: SValue, nullable: bool) -> (res: FabrixResult<Value>)
    ensures
        svalue_converts_to(svalue, nullable, res),
        svalue matches SValue::Bool(Some(x)) ==> res == Ok::<Value, FabrixError>(Value::Bool(x)),
        svalue matches SValue::TinyInt(Some(x)) ==> res == Ok::<Value, FabrixError>(Value::I8(x)),
        svalue matches SValue::SmallInt(Some(x)) ==> res == Ok::<Value, FabrixError>(Value::I16(x)),
        svalue matches SValue::Int(Some(x)) ==> res == Ok::<Value, FabrixError>(Value::I32(x)),
        svalue matches SValue::BigInt(Some(x)) ==> res == Ok::<Value, FabrixError>(Value::I64(x)),
        svalue matches SValue::TinyUnsigned(Some(x)) ==> res == Ok::<Value, FabrixError>(Value::U8(x)),
        svalue matches SValue::SmallUnsigned(Some(x)) ==> res == Ok::<Value, FabrixError>(
            Value::U16(x),
        ),
        svalue matches SValue::Unsigned(Some(x)) ==> res == Ok::<Value, FabrixError>(Value::U32(x)),
        svalue matches SValue::BigUnsigned(Some(x)) ==> res == Ok::<Value, FabrixError>(
            Value::U64(x),
        ),
        svalue matches SValue::Float(Some(x)) ==> res == Ok::<Value, FabrixError>(Value::F32(x)),
        svalue matches SValue::Double(Some(x)) ==> res == Ok::<Value, FabrixError>(Value::F64(x)),
        svalue matches SValue::String(Some(x)) ==> res == Ok::<Value, FabrixError>(Value::String(x)),
        svalue matches SValue::Uuid(Some(x)) ==> (res matches Ok(Value::String(t)) && t@
            == uuid_hyphenated(x)),
        svalue is Bytes ==> is_unsupported_error(res),
        svalue_holds_none(svalue) && !(svalue is Bytes) && nullable ==> res == Ok::<
            Value,
            FabrixError,
        >(Value::Null),
        svalue_holds_none(svalue) && !(svalue is Bytes) && !(svalue is String) && !(svalue is Uuid)
            && !nullable ==> is_unsupported_error(res),
        (svalue is String || svalue is Uuid) && svalue_holds_none(svalue) ==> res == Ok::<
            Value,
            FabrixError,
        >(Value::Null),
        res == Ok::<Value, FabrixError>(Value::Null) ==> svalue_holds_none(svalue),
{
    match svalue {
        SValue::Bool(ov) => optional_to_value(
            match ov {
                Some(x) => Some(Value::Bool(x)),
                None => None,
            },
            nullable,
        ),
        SValue::TinyInt(ov) => optional_to_value(
            match ov {
                Some(x) => Some(Value::I8(x)),
                None => None,
            },
            nullable,
        ),
        SValue::SmallInt(ov) => optional_to_value(
            match ov {
                Some(x) => Some(Value::I16(x)),
                None => None,
            },
            nullable,
        ),
        SValue::Int(ov) => optional_to_value(
            match ov {
                Some(x) => Some(Value::I32(x)),
                None => None,
            },
            nullable,
        ),
        SValue::BigInt(ov) => optional_to_value(
            match ov {
                Some(x) => Some(Value::I64(x)),
                None => None,
            },
            nullable,
        ),
        SValue::TinyUnsigned(ov) => optional_to_value(
            match ov {
                Some(x) => Some(Value::U8(x)),
                None => None,
            },
            nullable,
        ),
        SValue::SmallUnsigned(ov) => optional_to_value(
            match ov {
                Some(x) => Some(Value::U16(x)),
                None => None,
            },
            nullable,
        ),
        SValue::Unsigned(ov) => optional_to_value(
            match ov {
                Some(x) => Some(Value::U32(x)),
                None => None,
            },
            nullable,
        ),
        SValue::BigUnsigned(ov) => optional_to_value(
            match ov {
                Some(x) => Some(Value::U64(x)),
                None => None,
            },
            nullable,
        ),
        SValue::Float(ov) => optional_to_value(
            match ov {
                Some(x) => Some(Value::F32(x)),
                None => None,
            },
            nullable,
        ),
        SValue::Double(ov) => optional_to_value(
            match ov {
                Some(x) => Some(Value::F64(x)),
                None => None,
            },
            nullable,
        ),
        SValue::String(ov) => match ov {
            Some(v) => Ok(Value::String(v)),
            None => Ok(Value::Null),
        },
        SValue::Uuid(ov) => match ov {
            Some(v) => Ok(Value::String(uuid_string(v))),
            None => Ok(Value::Null),
        },
        SValue::Bytes(_) => Err(FabrixError::new_common_error("unsupported type")),
    }
}

/// A cell value that converts into a query value converts back into itself:
/// every non-null value, with any column type and nullability, and a null
/// with a nullable column type that has a typed null.
pub proof fn lemma_value_svalue_round_trip(value: Value, dtype: DataType, nullable: bool)
    requires
        value_convertible(value, dtype, nullable),
        !(value is Null && !nullable),
    ensures
        svalue_converts_to(value_to_svalue(value, dtype), nullable, Ok::<Value, FabrixError>(value)),
{
}

} // verus!

verus! {

/// Queries on a database's tables.
pub trait DdlQuery {
    /// The query that checks whether a table exists.
    fn check_table(&self, table_name: &str) -> String;

    /// The query that lists a table's columns, types and nullability.
    fn check_table_schema(&self, table_name: &str) -> String;

    /// The query that lists all tables in the current database.
    fn list_tables(&self) -> String;

    /// The query that selects a table's primary key column.
    fn get_primary_key(&self, table_name: &str) -> String;
}

/// Statements that change a database's tables.
pub trait DdlMutation {
    /// The statement that creates a table of the given columns and index.
    fn create_table(
        &self,
        table_name: &str,
        columns: &Vec<TableField>,
        index_option: Option<&IndexOption>,
    ) -> String;

    /// The statement that deletes a table.
    fn delete_table(&self, table_name: &str) -> String;
}

/// Queries on a table's rows.
pub trait DmlQuery {
    /// The query that selects which of the index's ids exist in a table.
    fn select_exist_ids(&self, table_name: &str, index: &Series) -> FabrixResult<String>;
}

} // verus!

verus! {

/// ASCII lowercasing is idempotent and yields ASCII: a name and its ASCII
/// lowercase form select the same dialect and the same index type.
pub proof fn lemma_ascii_lower_idempotent(s: Seq<char>)
    requires
        all_ascii(s),
    ensures
        all_ascii(ascii_lower(s)),
        ascii_lower(ascii_lower(s)) == ascii_lower(s),
{
    assert(ascii_lower(ascii_lower(s)) =~= ascii_lower(s));
}

/// A dialect's name is ASCII and selects the dialect again: converting the
/// text a dialect shows as back into a dialect gives the same dialect.
pub proof fn lemma_builder_text_round_trip(b: SqlBuilder)
    ensures
        all_ascii(builder_text(b)),
        builder_from_lowercase(ascii_lower(builder_text(b))) == b,
{
    reveal_strlit("mysql");
    reveal_strlit("postgres");
    reveal_strlit("sqlite");
    reveal_strlit("m");
    reveal_strlit("p");
    match b {
        SqlBuilder::Mysql => {
            assert(ascii_lower("mysql"@) =~= "mysql"@);
        },
        SqlBuilder::Postgres => {
            assert(ascii_lower("postgres"@) =~= "postgres"@);
            assert("postgres"@ != "mysql"@);
            assert("postgres"@ != "m"@);
        },
        SqlBuilder::Sqlite => {
            assert(ascii_lower("sqlite"@) =~= "sqlite"@);
            assert("sqlite"@ != "mysql"@);
            assert("sqlite"@ != "m"@);
            assert("sqlite"@ != "postgres"@);
            assert("sqlite"@ != "p"@);
        },
    }
}

} // verus!

verus! {

/// The column type that a non-null cell value belongs to: each number and
/// boolean to the column type of its width and signedness, strings to UTF-8.
pub open spec fn value_in_column(v: Value, d: DataType) -> bool {
    match v {
        Value::Bool(_) => d is Boolean,
        Value::U8(_) => d is UInt8,
        Value::U16(_) => d is UInt16,
        Value::U32(_) => d is UInt32,
        Value::U64(_) => d is UInt64,
        Value::I8(_) => d is Int8,
        Value::I16(_) => d is Int16,
        Value::I32(_) => d is Int32,
        Value::I64(_) => d is Int64,
        Value::F32(_) => d is Float32,
        Value::F64(_) => d is Float64,
        Value::String(_) => d is Utf8,
        Value::Null => false,
    }
}

/// Two query values are of the same query type.
pub open spec fn same_query_type(a: SValue, b: SValue) -> bool {
    match (a, b) {
        (SValue::Bool(_), SValue::Bool(_)) => true,
        (SValue::TinyInt(_), SValue::TinyInt(_)) => true,
        (SValue::SmallInt(_), SValue::SmallInt(_)) => true,
        (SValue::Int(_), SValue::Int(_)) => true,
        (SValue::BigInt(_), SValue::BigInt(_)) => true,
        (SValue::TinyUnsigned(_), SValue::TinyUnsigned(_)) => true,
        (SValue::SmallUnsigned(_), SValue::SmallUnsigned(_)) => true,
        (SValue::Unsigned(_), SValue::Unsigned(_)) => true,
        (SValue::BigUnsigned(_), SValue::BigUnsigned(_)) => true,
        (SValue::Float(_), SValue::Float(_)) => true,
        (SValue::Double(_), SValue::Double(_)) => true,
        (SValue::String(_), SValue::String(_)) => true,
        (SValue::Bytes(_), SValue::Bytes(_)) => true,
        (SValue::Uuid(_), SValue::Uuid(_)) => true,
        _ => false,
    }
}

/// A null cell of a nullable column binds as the typed null of the very query
/// type that the column's non-null values bind as, and that typed null holds
/// no value.
pub proof fn lemma_typed_null_matches_value_type(v: Value, d: DataType)
    requires
        value_in_column(v, d),
    ensures
        value_convertible(Value::Null, d, true),
        svalue_holds_none(value_to_svalue(Value::Null, d)),
        same_query_type(value_to_svalue(Value::Null, d), value_to_svalue(v, d)),
        !svalue_holds_none(value_to_svalue(v, d)),
{
}

/// Reading a query value back: a typed null of a number, boolean, string or
/// UUID gives `Null` for a nullable column; a number or boolean typed null
/// gives an error for a non-nullable column; `Null` comes only from a typed
/// null; and a held number, boolean or string comes back as the same value.
pub proof fn lemma_query_value_reads_back(sv: SValue, nullable: bool, r: FabrixResult<Value>)
    requires
        svalue_converts_to(sv, nullable, r),
    ensures
        nullable && svalue_holds_none(sv) && !(sv is Bytes) ==> r == Ok::<Value, FabrixError>(
            Value::Null,
        ),
        !nullable && svalue_holds_none(sv) && !(sv is Bytes || sv is String || sv is Uuid) ==> r is Err,
        r == Ok::<Value, FabrixError>(Value::Null) ==> svalue_holds_none(sv),
        sv matches SValue::Bool(Some(x)) ==> r == Ok::<Value, FabrixError>(Value::Bool(x)),
        sv matches SValue::TinyInt(Some(x)) ==> r == Ok::<Value, FabrixError>(Value::I8(x)),
        sv matches SValue::SmallInt(Some(x)) ==> r == Ok::<Value, FabrixError>(Value::I16(x)),
        sv matches SValue::Int(Some(x)) ==> r == Ok::<Value, FabrixError>(Value::I32(x)),
        sv matches SValue::BigInt(Some(x)) ==> r == Ok::<Value, FabrixError>(Value::I64(x)),
        sv matches SValue::TinyUnsigned(Some(x)) ==> r == Ok::<Value, FabrixError>(Value::U8(x)),
        sv matches SValue::SmallUnsigned(Some(x)) ==> r == Ok::<Value, FabrixError>(Value::U16(x)),
        sv matches SValue::Unsigned(Some(x)) ==> r == Ok::<Value, FabrixError>(Value::U32(x)),
        sv matches SValue::BigUnsigned(Some(x)) ==> r == Ok::<Value, FabrixError>(Value::U64(x)),
        sv matches SValue::Float(Some(x)) ==> r == Ok::<Value, FabrixError>(Value::F32(x)),
        sv matches SValue::Double(Some(x)) ==> r == Ok::<Value, FabrixError>(Value::F64(x)),
        sv matches SValue::String(Some(x)) ==> r == Ok::<Value, FabrixError>(Value::String(x)),
{
}

/// The index type follows the column's integer width: 64-bit integers give
/// `BigInt`, integers of at most 32 bits give `Int`, strings give `Uuid`, and
/// no other column type gives an index type.
pub proof fn lemma_index_type_follows_width(d: DataType)
    ensures
        (d is Int64 || d is UInt64) <==> index_type_of_dtype(d) == Some(IndexType::BigInt),
        (d is Int8 || d is Int16 || d is Int32 || d is UInt8 || d is UInt16 || d is UInt32)
            <==> index_type_of_dtype(d) == Some(IndexType::Int),
        d is Utf8 <==> index_type_of_dtype(d) == Some(IndexType::Uuid),
{
}

} // verus!

verus! {

/// Which dialect a lowercase name selects: `mysql` and `m` select MySQL,
/// `postgres` and `p` select PostgreSQL, and every other name SQLite.
pub proof fn lemma_dialect_names(s: Seq<char>)
    ensures
        (s == "mysql"@ || s == "m"@) ==> builder_from_lowercase(s) is Mysql,
        (s == "postgres"@ || s == "p"@) ==> builder_from_lowercase(s) is Postgres,
        !(s == "mysql"@ || s == "m"@ || s == "postgres"@ || s == "p"@) ==> builder_from_lowercase(s) is Sqlite,
{
    reveal_strlit("mysql");
    reveal_strlit("m");
    reveal_strlit("postgres");
    reveal_strlit("p");
    assert("postgres"@.len() != "mysql"@.len());
    assert("postgres"@.len() != "m"@.len());
    assert("p"@.len() != "mysql"@.len());
    assert("p"@[0] != "m"@[0]);
    assert("postgres"@ != "mysql"@ && "postgres"@ != "m"@ && "p"@ != "mysql"@ && "p"@ != "m"@);
}

/// Which index type a lowercase name selects: `uuid` and `u` select `Uuid`,
/// `bigint` and `b` select `BigInt`, and every other name `Int`.
pub proof fn lemma_index_type_names(s: Seq<char>)
    ensures
        (s == "uuid"@ || s == "u"@) ==> index_type_from_lowercase(s) is Uuid,
        (s == "bigint"@ || s == "b"@) ==> index_type_from_lowercase(s) is BigInt,
        !(s == "uuid"@ || s == "u"@ || s == "bigint"@ || s == "b"@) ==> index_type_from_lowercase(s) is Int,
{
    reveal_strlit("uuid");
    reveal_strlit("u");
    reveal_strlit("bigint");
    reveal_strlit("b");
    assert("bigint"@.len() != "uuid"@.len());
    assert("bigint"@.len() != "u"@.len());
    assert("b"@.len() != "uuid"@.len());
    assert("b"@[0] != "u"@[0]);
    assert("bigint"@ != "uuid"@ && "bigint"@ != "u"@ && "b"@ != "uuid"@ && "b"@ != "u"@);
}

} // verus!
