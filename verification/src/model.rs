//! Plain-value models of the data the SQL builder reads: column data types,
//! fields, series headers, cell values and SQL query values.

use vstd::prelude::*;

verus! {

/// Time unit of temporal column types.
#[derive(Clone, Copy, Debug, PartialEq, Eq, Structural)]
pub enum TimeUnit {
    Second,
    Millisecond,
    Microsecond,
    Nanosecond,
}

impl TimeUnit {
    /// The name of the unit as its `Debug` form shows it.
    pub open spec fn debug(self) -> Seq<char> {
        match self {
            TimeUnit::Second => "Second"@,
            TimeUnit::Millisecond => "Millisecond"@,
            TimeUnit::Microsecond => "Microsecond"@,
            TimeUnit::Nanosecond => "Nanosecond"@,
        }
    }

    /// The `Debug` form of the unit.
    pub fn debug_text(&self) -> (res: String)
        ensures
            res@ == self.debug(),
    {
        match self {
            TimeUnit::Second => String::from_str("Second"),
            TimeUnit::Millisecond => String::from_str("Millisecond"),
            TimeUnit::Microsecond => String::from_str("Microsecond"),
            TimeUnit::Nanosecond => String::from_str("Nanosecond"),
        }
    }
}

/// How the `Debug` form of a list's element field ends, after its type.
pub const FIELD_DEBUG_TAIL: &'static str =
    ", nullable: true, dict_id: 0, dict_is_ordered: false, metadata: None })";

/// The data type of a dataframe column; `List` holds the type of its
/// elements.
#[derive(Debug)]
pub enum DataType {
    Boolean,
    UInt8,
    UInt16,
    UInt32,
    UInt64,
    Int8,
    Int16,
    Int32,
    Int64,
    Float32,
    Float64,
    Utf8,
    Date32,
    Date64,
    Time64(TimeUnit),
    List(Box<DataType>),
    Duration(TimeUnit),
    Null,
    Categorical,
}

impl DataType {
    /// Whether the type has a display name: all types do, except times not
    /// in nanoseconds, durations in seconds or microseconds, lists of lists,
    /// and lists of such types.
    pub open spec fn displayable(self) -> bool
        decreases self,
    {
        match self {
            DataType::Time64(u) => u == TimeUnit::Nanosecond,
            DataType::Duration(u) => u == TimeUnit::Nanosecond || u == TimeUnit::Millisecond,
            DataType::List(inner) => !(*inner is List) && inner.displayable(),
            _ => true,
        }
    }

    /// The display name of the type. A list shows its element type as it
    /// reads back from storage, where categories are stored as `u32`.
    pub open spec fn display(self) -> Seq<char>
        decreases self,
    {
        match self {
            DataType::Null => "null"@,
            DataType::Boolean => "bool"@,
            DataType::UInt8 => "u8"@,
            DataType::UInt16 => "u16"@,
            DataType::UInt32 => "u32"@,
            DataType::UInt64 => "u64"@,
            DataType::Int8 => "i8"@,
            DataType::Int16 => "i16"@,
            DataType::Int32 => "i32"@,
            DataType::Int64 => "i64"@,
            DataType::Float32 => "f32"@,
            DataType::Float64 => "f64"@,
            DataType::Utf8 => "str"@,
            DataType::Date32 => "date32(days)"@,
            DataType::Date64 => "date64(ms)"@,
            DataType::Time64(_) => "time64(ns)"@,
            DataType::Duration(TimeUnit::Millisecond) => "duration(ms)"@,
            DataType::Duration(_) => "duration(ns)"@,
            DataType::List(inner) => "list ["@ + (match *inner {
                DataType::Categorical => "u32"@,
                _ => inner.display(),
            }) + "]"@,
            DataType::Categorical => "cat"@,
        }
    }

    /// The `Debug` form of the type: the variant's name, followed by its
    /// payload's `Debug` form in parentheses where it has one.
    pub open spec fn debug(self) -> Seq<char>
        decreases self, 0nat,
    {
        match self {
            DataType::Boolean => "Boolean"@,
            DataType::UInt8 => "UInt8"@,
            DataType::UInt16 => "UInt16"@,
            DataType::UInt32 => "UInt32"@,
            DataType::UInt64 => "UInt64"@,
            DataType::Int8 => "Int8"@,
            DataType::Int16 => "Int16"@,
            DataType::Int32 => "Int32"@,
            DataType::Int64 => "Int64"@,
            DataType::Float32 => "Float32"@,
            DataType::Float64 => "Float64"@,
            DataType::Utf8 => "Utf8"@,
            DataType::Date32 => "Date32"@,
            DataType::Date64 => "Date64"@,
            DataType::Time64(u) => "Time64("@ + u.debug() + ")"@,
            DataType::List(inner) => "List("@ + inner.arrow_debug() + ")"@,
            DataType::Duration(u) => "Duration("@ + u.debug() + ")"@,
            DataType::Null => "Null"@,
            DataType::Categorical => "Categorical"@,
        }
    }

    /// The `Debug` form of the arrow type the type is stored as (the element
    /// type a list shows): strings are large UTF-8, categories are `u32`, and
    /// a list holds a nullable, unnamed field of its element type.
    pub open spec fn arrow_debug(self) -> Seq<char>
        decreases self, 1nat,
    {
        match self {
            DataType::Utf8 => "LargeUtf8"@,
            DataType::Categorical => "UInt32"@,
            DataType::List(inner) => "List(Field { name: \"\", data_type: "@ + inner.arrow_debug()
                + FIELD_DEBUG_TAIL@,
            _ => self.debug(),
        }
    }

    /// The display name of the type.
    pub fn display_text(&self) -> (res: String)
        requires
            self.displayable(),
        ensures
            res@ == self.display(),
        decreases self,
    {
        match self {
            DataType::Null => String::from_str("null"),
            DataType::Boolean => String::from_str("bool"),
            DataType::UInt8 => String::from_str("u8"),
            DataType::UInt16 => String::from_str("u16"),
            DataType::UInt32 => String::from_str("u32"),
            DataType::UInt64 => String::from_str("u64"),
            DataType::Int8 => String::from_str("i8"),
            DataType::Int16 => String::from_str("i16"),
            DataType::Int32 => String::from_str("i32"),
            DataType::Int64 => String::from_str("i64"),
            DataType::Float32 => String::from_str("f32"),
            DataType::Float64 => String::from_str("f64"),
            DataType::Utf8 => String::from_str("str"),
            DataType::Date32 => String::from_str("date32(days)"),
            DataType::Date64 => String::from_str("date64(ms)"),
            DataType::Time64(_) => String::from_str("time64(ns)"),
            DataType::Duration(TimeUnit::Millisecond) => String::from_str("duration(ms)"),
            DataType::Duration(_) => String::from_str("duration(ns)"),
            DataType::List(inner) => {
                let mut s = String::from_str("list [");
                let t = match &**inner {
                    DataType::Categorical => String::from_str("u32"),
                    _ => inner.display_text(),
                };
                s.append(t.as_str());
                s.append("]");
                s
            },
            DataType::Categorical => String::from_str("cat"),
        }
    }

    /// The `Debug` form of the type.
    pub fn debug_text(&self) -> (res: String)
        ensures
            res@ == self.debug(),
        decreases self, 0nat,
    {
        match self {
            DataType::Boolean => String::from_str("Boolean"),
            DataType::UInt8 => String::from_str("UInt8"),
            DataType::UInt16 => String::from_str("UInt16"),
            DataType::UInt32 => String::from_str("UInt32"),
            DataType::UInt64 => String::from_str("UInt64"),
            DataType::Int8 => String::from_str("Int8"),
            DataType::Int16 => String::from_str("Int16"),
            DataType::Int32 => String::from_str("Int32"),
            DataType::Int64 => String::from_str("Int64"),
            DataType::Float32 => String::from_str("Float32"),
            DataType::Float64 => String::from_str("Float64"),
            DataType::Utf8 => String::from_str("Utf8"),
            DataType::Date32 => String::from_str("Date32"),
            DataType::Date64 => String::from_str("Date64"),
            DataType::Time64(u) => {
                let mut s = String::from_str("Time64(");
                let t = u.debug_text();
                s.append(t.as_str());
                s.append(")");
                s
            },
            DataType::List(inner) => {
                let mut s = String::from_str("List(");
                let t = inner.arrow_debug_text();
                s.append(t.as_str());
                s.append(")");
                s
            },
            DataType::Duration(u) => {
                let mut s = String::from_str("Duration(");
                let t = u.debug_text();
                s.append(t.as_str());
                s.append(")");
                s
            },
            DataType::Null => String::from_str("Null"),
            DataType::Categorical => String::from_str("Categorical"),
        }
    }

    /// The `Debug` form of the arrow type the type is stored as.
    pub fn arrow_debug_text(&self) -> (res: String)
        ensures
            res@ == self.arrow_debug(),
        decreases self, 1nat,
    {
        match self {
            DataType::Utf8 => String::from_str("LargeUtf8"),
            DataType::Categorical => String::from_str("UInt32"),
            DataType::List(inner) => {
                let mut s = String::from_str("List(Field { name: \"\", data_type: ");
                let t = inner.arrow_debug_text();
                s.append(t.as_str());
                s.append(FIELD_DEBUG_TAIL);
                s
            },
            _ => self.debug_text(),
        }
    }
}

} // verus!

verus! {

/// A named, typed column header: a field of a schema.
#[derive(Debug)]
pub struct Field {
    pub(crate) name: String,
    pub(crate) data_type: DataType,
}

impl Field {
    /// The field's name.
    pub closed spec fn name_view(&self) -> Seq<char> {
        self.name@
    }

    /// The field's data type.
    pub closed spec fn dtype(&self) -> DataType {
        self.data_type
    }

    /// A field with the given name and type.
    pub fn new(name: &str, data_type: DataType) -> (f: Field)
        ensures
            f.name_view() == name@,
            f.dtype() == data_type,
    {
        Field { name: String::from_str(name), data_type }
    }

    /// The field's name.
    pub fn name(&self) -> (r: &String)
        ensures
            r@ == self.name_view(),
    {
        &self.name
    }

    /// The field's data type.
    pub fn data_type(&self) -> (r: &DataType)
        ensures
            *r == self.dtype(),
    {
        &self.data_type
    }
}

/// What the SQL builder reads of a column (series): its name and its data
/// type.
#[derive(Debug)]
pub struct Series {
    pub(crate) name: String,
    pub(crate) dtype: DataType,
}

impl Series {
    /// The series' name.
    pub closed spec fn name_view(&self) -> Seq<char> {
        self.name@
    }

    /// The series' data type.
    pub closed spec fn dtype_view(&self) -> DataType {
        self.dtype
    }

    /// The header of a series with the given name and data type.
    pub fn new(name: &str, dtype: DataType) -> (s: Series)
        ensures
            s.name_view() == name@,
            s.dtype_view() == dtype,
    {
        Series { name: String::from_str(name), dtype }
    }

    /// The series' name.
    pub fn name(&self) -> (r: &str)
        ensures
            r@ == self.name_view(),
    {
        self.name.as_str()
    }

    /// The series' data type.
    pub fn dtype(&self) -> (r: &DataType)
        ensures
            *r == self.dtype_view(),
    {
        &self.dtype
    }
}

/// A cell value. Floats are held as their IEEE-754 bit patterns
/// (`f32::to_bits`, `f64::to_bits`).
#[derive(Debug, Clone, PartialEq)]
pub enum Value {
    Bool(bool),
    U8(u8),
    U16(u16),
    U32(u32),
    U64(u64),
    I8(i8),
    I16(i16),
    I32(i32),
    I64(i64),
    F32(u32),
    F64(u64),
    String(String),
    Null,
}

/// A value bound into a SQL query, typed, possibly a typed null. Floats are
/// held as their IEEE-754 bit patterns; a UUID as its 128 bits, most
/// significant first.
#[derive(Debug, Clone, PartialEq)]
pub enum SValue {
    Bool(Option<bool>),
    TinyInt(Option<i8>),
    SmallInt(Option<i16>),
    Int(Option<i32>),
    BigInt(Option<i64>),
    TinyUnsigned(Option<u8>),
    SmallUnsigned(Option<u16>),
    Unsigned(Option<u32>),
    BigUnsigned(Option<u64>),
    Float(Option<u32>),
    Double(Option<u64>),
    String(Option<String>),
    Bytes(Option<Vec<u8>>),
    Uuid(Option<u128>),
}

} // verus!

verus! {

/// `n` spaces.
pub open spec fn spaces(n: nat) -> Seq<char> {
    Seq::new(n, |i: int| ' ')
}

/// The alternate (`{:#?}`) `Debug` form, at indentation `ind`, of a variant
/// with one payload: the payload on its own line, indented four more and
/// followed by a comma, then the closing parenthesis back at `ind`.
pub open spec fn pretty_wrap(name: Seq<char>, payload: Seq<char>, ind: nat) -> Seq<char> {
    name + "(\n"@ + spaces(ind + 4) + payload + ",\n"@ + spaces(ind) + ")"@
}

impl DataType {
    /// How deeply lists nest in the type.
    pub open spec fn depth(self) -> nat
        decreases self,
    {
        match self {
            DataType::List(inner) => inner.depth() + 1,
            _ => 0,
        }
    }

    /// The alternate `Debug` form of the type starting at indentation `ind`.
    pub open spec fn pretty(self, ind: nat) -> Seq<char>
        decreases self, 0nat,
    {
        match self {
            DataType::Time64(u) => pretty_wrap("Time64"@, u.debug(), ind),
            DataType::Duration(u) => pretty_wrap("Duration"@, u.debug(), ind),
            DataType::List(inner) => pretty_wrap("List"@, inner.arrow_pretty(ind + 4), ind),
            _ => self.debug(),
        }
    }

    /// The alternate `Debug` form of the arrow type the type is stored as,
    /// starting at indentation `ind`.
    pub open spec fn arrow_pretty(self, ind: nat) -> Seq<char>
        decreases self, 1nat,
    {
        match self {
            DataType::Utf8 => "LargeUtf8"@,
            DataType::Categorical => "UInt32"@,
            DataType::List(inner) => pretty_wrap("List"@, inner.field_pretty(ind + 4), ind),
            _ => self.pretty(ind),
        }
    }

    /// The alternate `Debug` form, starting at indentation `ind`, of the
    /// nullable, unnamed arrow field of this type that a list holds: one
    /// line per field of the struct, indented four more, then the closing
    /// brace back at `ind`.
    pub open spec fn field_pretty(self, ind: nat) -> Seq<char>
        decreases self, 2nat,
    {
        "Field {\n"@ + spaces(ind + 4) + "name: \"\",\n"@ + spaces(ind + 4) + "data_type: "@
            + self.arrow_pretty(ind + 4) + ",\n"@ + spaces(ind + 4) + "nullable: true,\n"@ + spaces(
            ind + 4,
        ) + "dict_id: 0,\n"@ + spaces(ind + 4) + "dict_is_ordered: false,\n"@ + spaces(ind + 4)
            + "metadata: None,\n"@ + spaces(ind) + "}"@
    }
}

/// The items of a list in alternate `Debug` form at indentation `ind`: each
/// on its own line, indented, followed by a comma.
pub open spec fn pretty_items(ds: Seq<DataType>, ind: nat) -> Seq<char>
    decreases ds.len(),
{
    if ds.len() == 0 {
        seq![]
    } else {
        pretty_items(ds.drop_last(), ind) + spaces(ind) + ds.last().pretty(ind) + ",\n"@
    }
}

/// A list of types in alternate `Debug` form starting at indentation `ind`:
/// `[]` when empty, otherwise its items indented four more between brackets.
pub open spec fn pretty_list(ds: Seq<DataType>, ind: nat) -> Seq<char> {
    if ds.len() == 0 {
        "[]"@
    } else {
        "[\n"@ + pretty_items(ds, ind + 4) + spaces(ind) + "]"@
    }
}

/// Whether the alternate `Debug` form of `d` can start at indentation `ind`
/// without any indentation overflowing a `usize`.
pub open spec fn pretty_indent_fits(d: DataType, ind: nat) -> bool {
    ind + 8 * (d.depth() + 1) <= usize::MAX
}

/// Appends `n` spaces.
fn push_spaces(out: &mut String, n: usize)
    ensures
        final(out)@ == old(out)@ + spaces(n as nat),
{
    let ghost start = out@;
    let mut i: usize = 0;
    while i < n
        invariant
            i <= n,
            out@ == start + spaces(i as nat),
        decreases n - i,
    {
        out.append(" ");
        proof {
            reveal_strlit(" ");
        }
        i += 1;
        assert(out@ =~= start + spaces(i as nat));
    }
}

/// Appends the opening of a one-payload variant in alternate `Debug` form:
/// its name, the parenthesis and the payload line's indentation.
fn push_wrap_open(out: &mut String, name: &str, ind: usize)
    requires
        ind + 4 <= usize::MAX,
    ensures
        final(out)@ == old(out)@ + name@ + "(\n"@ + spaces((ind + 4) as nat),
{
    out.append(name);
    out.append("(\n");
    push_spaces(out, ind + 4);
}

/// Appends the closing of a one-payload variant in alternate `Debug` form.
fn push_wrap_close(out: &mut String, ind: usize)
    ensures
        final(out)@ == old(out)@ + ",\n"@ + spaces(ind as nat) + ")"@,
{
    out.append(",\n");
    push_spaces(out, ind);
    out.append(")");
}

/// Appends the alternate `Debug` form of a type at indentation `ind`.
pub(crate) fn push_pretty(out: &mut String, d: &DataType, ind: usize)
    requires
        pretty_indent_fits(*d, ind as nat),
    ensures
        final(out)@ == old(out)@ + d.pretty(ind as nat),
    decreases d, 0nat,
{
    match d {
        DataType::Time64(u) => {
            push_wrap_open(out, "Time64", ind);
            let t = u.debug_text();
            out.append(t.as_str());
            push_wrap_close(out, ind);
        },
        DataType::Duration(u) => {
            push_wrap_open(out, "Duration", ind);
            let t = u.debug_text();
            out.append(t.as_str());
            push_wrap_close(out, ind);
        },
        DataType::List(inner) => {
            push_wrap_open(out, "List", ind);
            push_arrow_pretty(out, inner, ind + 4);
            push_wrap_close(out, ind);
        },
        _ => {
            let t = d.debug_text();
            out.append(t.as_str());
        },
    }
}

/// Appends the alternate `Debug` form of the arrow type a type is stored
/// as, at indentation `ind`.
pub(crate) fn push_arrow_pretty(out: &mut String, d: &DataType, ind: usize)
    requires
        pretty_indent_fits(*d, ind as nat),
    ensures
        final(out)@ == old(out)@ + d.arrow_pretty(ind as nat),
    decreases d, 1nat,
{
    match d {
        DataType::Utf8 => {
            out.append("LargeUtf8");
        },
        DataType::Categorical => {
            out.append("UInt32");
        },
        DataType::List(inner) => {
            push_wrap_open(out, "List", ind);
            push_field_pretty(out, inner, ind + 4);
            push_wrap_close(out, ind);
        },
        _ => {
            push_pretty(out, d, ind);
        },
    }
}

/// Appends the alternate `Debug` form of the arrow field of a type that a
/// list holds, at indentation `ind`.
pub(crate) fn push_field_pretty(out: &mut String, d: &DataType, ind: usize)
    requires
        ind + 4 + 8 * (d.depth() + 1) <= usize::MAX,
    ensures
        final(out)@ == old(out)@ + d.field_pretty(ind as nat),
    decreases d, 2nat,
{
    out.append("Field {\n");
    push_spaces(out, ind + 4);
    out.append("name: \"\",\n");
    push_spaces(out, ind + 4);
    out.append("data_type: ");
    push_arrow_pretty(out, d, ind + 4);
    out.append(",\n");
    push_spaces(out, ind + 4);
    out.append("nullable: true,\n");
    push_spaces(out, ind + 4);
    out.append("dict_id: 0,\n");
    push_spaces(out, ind + 4);
    out.append("dict_is_ordered: false,\n");
    push_spaces(out, ind + 4);
    out.append("metadata: None,\n");
    push_spaces(out, ind);
    out.append("}");
}

/// Appends the alternate `Debug` form of a list of types at indentation
/// `ind`.
pub(crate) fn push_pretty_list(out: &mut String, ds: &Vec<DataType>, ind: usize)
    requires
        forall|i: int| 0 <= i < ds@.len() ==> pretty_indent_fits(#[trigger] ds@[i], (ind + 4) as nat),
        ind + 4 <= usize::MAX,
    ensures
        final(out)@ == old(out)@ + pretty_list(ds@, ind as nat),
{
    if ds.len() == 0 {
        out.append("[]");
    } else {
        let ghost start = out@;
        out.append("[\n");
        let mut i: usize = 0;
        while i < ds.len()
            invariant
                i <= ds@.len(),
                ds@.len() > 0,
                ind + 4 <= usize::MAX,
                forall|j: int|
                    0 <= j < ds@.len() ==> pretty_indent_fits(#[trigger] ds@[j], (ind + 4) as nat),
                out@ == start + "[\n"@ + pretty_items(ds@.take(i as int), (ind + 4) as nat),
            decreases ds@.len() - i,
        {
            push_spaces(out, ind + 4);
            push_pretty(out, &ds[i], ind + 4);
            out.append(",\n");
            proof {
                assert(ds@.take(i + 1).drop_last() =~= ds@.take(i as int));
            }
            i += 1;
        }
        assert(ds@.take(ds@.len() as int) =~= ds@);
        push_spaces(out, ind);
        out.append("]");
    }
}

/// Whether a type and a list of types can be laid out in alternate `Debug`
/// form without the indentation overflowing a `usize`.
pub open spec fn pretty_fits(d: DataType, ds: Seq<DataType>) -> bool {
    &&& pretty_indent_fits(d, 4)
    &&& forall|i: int| 0 <= i < ds.len() ==> pretty_indent_fits(#[trigger] ds[i], 8)
}

/// The alternate `Debug` form of a pair of a type and a list of types.
pub open spec fn pretty_dtypes(d: DataType, ds: Seq<DataType>) -> Seq<char> {
    "(\n"@ + spaces(4) + d.pretty(4) + ",\n"@ + spaces(4) + pretty_list(ds, 4) + ",\n)"@
}

/// Appends the alternate `Debug` form of a pair of a type and a list of
/// types.
pub(crate) fn push_pretty_dtypes(out: &mut String, d: &DataType, ds: &Vec<DataType>)
    requires
        pretty_fits(*d, ds@),
    ensures
        final(out)@ == old(out)@ + pretty_dtypes(*d, ds@),
{
    out.append("(\n");
    push_spaces(out, 4);
    push_pretty(out, d, 4);
    out.append(",\n");
    push_spaces(out, 4);
    push_pretty_list(out, ds, 4);
    out.append(",\n)");
}

} // verus!
