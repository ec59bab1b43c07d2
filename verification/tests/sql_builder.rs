use fabrix::builder::{
    _from_svalue_to_value, try_from_value_to_svalue, DdlQuery, IndexOption, IndexType, SaveStrategy,
    SqlBuilder, TableField,
};
use fabrix::ddl_query::{CHECK_TABLE_SQLITE, LIST_TABLES_MYSQL};
use fabrix::errors::{CommonError, FabrixError};
use fabrix::model::{DataType, Field, SValue, Series, TimeUnit, Value};

#[test]
fn sql_builder_from_names() {
    assert_eq!(SqlBuilder::from("mysql"), SqlBuilder::Mysql);
    assert_eq!(SqlBuilder::from("MySQL"), SqlBuilder::Mysql);
    assert_eq!(SqlBuilder::from("M"), SqlBuilder::Mysql);
    assert_eq!(SqlBuilder::from("Postgres"), SqlBuilder::Postgres);
    assert_eq!(SqlBuilder::from("p"), SqlBuilder::Postgres);
    assert_eq!(SqlBuilder::from("sqlite"), SqlBuilder::Sqlite);
    assert_eq!(SqlBuilder::from("anything"), SqlBuilder::Sqlite);
    assert_eq!(SqlBuilder::from(""), SqlBuilder::Sqlite);
}

#[test]
fn sql_builder_from_lowercase_is_exact() {
    assert_eq!(SqlBuilder::from_lowercase("mysql"), SqlBuilder::Mysql);
    assert_eq!(SqlBuilder::from_lowercase("MYSQL"), SqlBuilder::Sqlite);
    assert_eq!(SqlBuilder::from_lowercase("postgres"), SqlBuilder::Postgres);
    assert_eq!(SqlBuilder::from_lowercase("postgresql"), SqlBuilder::Sqlite);
}

#[test]
fn sql_builder_text_round_trip() {
    for b in [SqlBuilder::Mysql, SqlBuilder::Postgres, SqlBuilder::Sqlite] {
        let t = b.to_text();
        assert_eq!(SqlBuilder::from(t.as_str()), b);
    }
    assert_eq!(SqlBuilder::Mysql.to_text(), "mysql");
    assert_eq!(SqlBuilder::Postgres.to_text(), "postgres");
    assert_eq!(SqlBuilder::Sqlite.to_text(), "sqlite");
}

#[test]
fn index_type_from_names() {
    assert_eq!(IndexType::from("uuid"), IndexType::Uuid);
    assert_eq!(IndexType::from("U"), IndexType::Uuid);
    assert_eq!(IndexType::from("BigInt"), IndexType::BigInt);
    assert_eq!(IndexType::from("b"), IndexType::BigInt);
    assert_eq!(IndexType::from("int"), IndexType::Int);
    assert_eq!(IndexType::from("whatever"), IndexType::Int);
}

#[test]
fn index_option_new_converts_the_type() {
    let o = IndexOption::new("id", "bigint");
    assert_eq!(o.name, "id");
    assert_eq!(o.index_type, IndexType::BigInt);
    let o = IndexOption::new("key", IndexType::Uuid);
    assert_eq!(o.name, "key");
    assert_eq!(o.index_type, IndexType::Uuid);
}

#[test]
fn index_option_from_series() {
    let s = Series::new("idx", DataType::Int32);
    let o = IndexOption::try_from_series(&s).unwrap();
    assert_eq!(o.name, "idx");
    assert_eq!(o.index_type, IndexType::Int);
    let s = Series::new("big", DataType::UInt64);
    assert_eq!(IndexOption::try_from_series(&s).unwrap().index_type, IndexType::BigInt);
    let s = Series::new("u", DataType::Utf8);
    assert_eq!(IndexOption::try_from_series(&s).unwrap().index_type, IndexType::Uuid);
}

#[test]
fn index_option_from_series_rejects_other_types() {
    let s = Series::new("f", DataType::Float64);
    match IndexOption::try_from_series(&s) {
        Err(FabrixError::Common(CommonError::String(m))) => {
            assert_eq!(m, "Float64 cannot convert to index type")
        }
        _ => panic!("expected an error"),
    }
    let s = Series::new("l", DataType::List(Box::new(DataType::Time64(TimeUnit::Nanosecond))));
    match IndexOption::try_from_series(&s) {
        Err(FabrixError::Common(CommonError::String(m))) => {
            assert_eq!(m, "List(Time64(Nanosecond)) cannot convert to index type")
        }
        _ => panic!("expected an error"),
    }
    let s = Series::new("s", DataType::List(Box::new(DataType::Utf8)));
    match IndexOption::try_from_series(&s) {
        Err(FabrixError::Common(CommonError::String(m))) => {
            assert_eq!(m, "List(LargeUtf8) cannot convert to index type")
        }
        _ => panic!("expected an error"),
    }
}

#[test]
fn table_field_accessors() {
    let f = TableField::new(Field::new("price", DataType::Float64), false);
    assert_eq!(f.name(), "price");
    assert!(matches!(f.data_type(), DataType::Float64));
    assert!(!f.nullable());
    assert_eq!(f.field().name(), "price");
    let g = TableField::from(Field::new("name", DataType::Utf8));
    assert!(g.nullable());
    assert!(matches!(g.data_type(), DataType::Utf8));
    let _ = [SaveStrategy::Replace, SaveStrategy::Append, SaveStrategy::Upsert, SaveStrategy::Fail];
}

#[test]
fn values_convert_to_typed_query_values() {
    let dt = DataType::Int64;
    assert_eq!(try_from_value_to_svalue(Value::Bool(true), &dt, false).unwrap(), SValue::Bool(Some(true)));
    assert_eq!(try_from_value_to_svalue(Value::U8(7), &dt, false).unwrap(), SValue::TinyUnsigned(Some(7)));
    assert_eq!(try_from_value_to_svalue(Value::U16(7), &dt, true).unwrap(), SValue::SmallUnsigned(Some(7)));
    assert_eq!(try_from_value_to_svalue(Value::U32(7), &dt, true).unwrap(), SValue::Unsigned(Some(7)));
    assert_eq!(try_from_value_to_svalue(Value::U64(7), &dt, true).unwrap(), SValue::BigUnsigned(Some(7)));
    assert_eq!(try_from_value_to_svalue(Value::I8(-7), &dt, true).unwrap(), SValue::TinyInt(Some(-7)));
    assert_eq!(try_from_value_to_svalue(Value::I16(-7), &dt, true).unwrap(), SValue::SmallInt(Some(-7)));
    assert_eq!(try_from_value_to_svalue(Value::I32(-7), &dt, true).unwrap(), SValue::Int(Some(-7)));
    assert_eq!(try_from_value_to_svalue(Value::I64(-7), &dt, true).unwrap(), SValue::BigInt(Some(-7)));
    let bits = 1.5f32.to_bits();
    assert_eq!(try_from_value_to_svalue(Value::F32(bits), &dt, true).unwrap(), SValue::Float(Some(bits)));
    let bits = 2.5f64.to_bits();
    assert_eq!(try_from_value_to_svalue(Value::F64(bits), &dt, true).unwrap(), SValue::Double(Some(bits)));
    assert_eq!(
        try_from_value_to_svalue(Value::String("a".to_string()), &dt, true).unwrap(),
        SValue::String(Some("a".to_string()))
    );
}

#[test]
fn nulls_convert_to_the_column_types_null() {
    assert_eq!(try_from_value_to_svalue(Value::Null, &DataType::Utf8, true).unwrap(), SValue::String(None));
    assert_eq!(try_from_value_to_svalue(Value::Null, &DataType::UInt8, true).unwrap(), SValue::TinyUnsigned(None));
    assert_eq!(try_from_value_to_svalue(Value::Null, &DataType::Float64, true).unwrap(), SValue::Double(None));
    assert_eq!(try_from_value_to_svalue(Value::Null, &DataType::Boolean, true).unwrap(), SValue::Bool(None));
}

#[test]
fn null_into_non_nullable_is_a_parse_error() {
    match try_from_value_to_svalue(Value::Null, &DataType::Int32, false) {
        Err(FabrixError::Parse(a, b)) => {
            assert_eq!(a, "null");
            assert_eq!(b, "i32");
        }
        _ => panic!("expected a parse error"),
    }
    let dt = DataType::List(Box::new(DataType::Utf8));
    match try_from_value_to_svalue(Value::Null, &dt, false) {
        Err(FabrixError::Parse(a, b)) => {
            assert_eq!(a, "null");
            assert_eq!(b, "list [str]");
        }
        _ => panic!("expected a parse error"),
    }
}

fn is_unsupported(r: Result<Value, FabrixError>) -> bool {
    matches!(r, Err(FabrixError::Common(CommonError::Str("unsupported type"))))
}

#[test]
fn query_values_convert_back() {
    assert_eq!(_from_svalue_to_value(SValue::Int(Some(3)), false).unwrap(), Value::I32(3));
    assert_eq!(_from_svalue_to_value(SValue::Int(Some(3)), true).unwrap(), Value::I32(3));
    assert_eq!(_from_svalue_to_value(SValue::Int(None), true).unwrap(), Value::Null);
    assert!(is_unsupported(_from_svalue_to_value(SValue::Int(None), false)));
    assert_eq!(_from_svalue_to_value(SValue::Bool(Some(false)), false).unwrap(), Value::Bool(false));
    assert_eq!(_from_svalue_to_value(SValue::TinyUnsigned(Some(1)), false).unwrap(), Value::U8(1));
    assert_eq!(_from_svalue_to_value(SValue::BigUnsigned(Some(9)), false).unwrap(), Value::U64(9));
    assert_eq!(_from_svalue_to_value(SValue::String(None), false).unwrap(), Value::Null);
    assert_eq!(
        _from_svalue_to_value(SValue::String(Some("x".to_string())), false).unwrap(),
        Value::String("x".to_string())
    );
    assert!(is_unsupported(_from_svalue_to_value(SValue::Bytes(Some(vec![1, 2])), true)));
    assert!(is_unsupported(_from_svalue_to_value(SValue::Bytes(None), true)));
}

#[test]
fn uuid_query_values_become_their_hyphenated_text() {
    let x: u128 = 0x67e5504410b1426f9247bb680e5fe0c8;
    assert_eq!(
        _from_svalue_to_value(SValue::Uuid(Some(x)), false).unwrap(),
        Value::String("67e55044-10b1-426f-9247-bb680e5fe0c8".to_string())
    );
    assert_eq!(_from_svalue_to_value(SValue::Uuid(None), false).unwrap(), Value::Null);
}

#[test]
fn value_round_trip() {
    let dt = DataType::Int16;
    for v in [
        Value::Bool(true),
        Value::U8(1),
        Value::U16(2),
        Value::U32(3),
        Value::U64(4),
        Value::I8(-1),
        Value::I16(-2),
        Value::I32(-3),
        Value::I64(-4),
        Value::F32(0.25f32.to_bits()),
        Value::F64(0.5f64.to_bits()),
        Value::String("s".to_string()),
    ] {
        for nullable in [false, true] {
            let sv = try_from_value_to_svalue(v.clone(), &dt, nullable).unwrap();
            assert_eq!(_from_svalue_to_value(sv, nullable).unwrap(), v);
        }
    }
    let sv = try_from_value_to_svalue(Value::Null, &dt, true).unwrap();
    assert_eq!(_from_svalue_to_value(sv, true).unwrap(), Value::Null);
}

#[test]
fn check_table_queries() {
    let q = SqlBuilder::Sqlite.check_table("users");
    assert_eq!(q, CHECK_TABLE_SQLITE.replace("_table_name_", "users"));
    assert!(q.contains("AND name = 'users'"));
    assert!(!q.contains("_table_name_"));
    let q = SqlBuilder::Postgres.check_table("orders");
    assert_eq!(
        q,
        "\n                SELECT EXISTS(\n                    SELECT 1\n                    FROM information_schema.tables\n                    WHERE TABLE_NAME = 'orders'\n                )::int"
    );
    let q = SqlBuilder::Mysql.check_table("t");
    assert!(q.contains("FROM information_schema.TABLES"));
    assert!(q.contains("WHERE TABLE_NAME = 't'"));
}

#[test]
fn table_schema_queries() {
    assert!(SqlBuilder::Mysql.check_table_schema("a").contains("table_name = 'a'"));
    assert!(SqlBuilder::Mysql.check_table_schema("a").contains("data_type,"));
    assert!(SqlBuilder::Postgres.check_table_schema("b").contains("udt_name,"));
    assert!(SqlBuilder::Sqlite.check_table_schema("c").contains("PRAGMA_TABLE_INFO('c')"));
}

#[test]
fn list_tables_queries() {
    assert_eq!(SqlBuilder::Mysql.list_tables(), LIST_TABLES_MYSQL);
    assert!(SqlBuilder::Mysql.list_tables().contains("SHOW TABLES"));
    assert!(SqlBuilder::Postgres.list_tables().contains("table_schema='public'"));
    assert!(SqlBuilder::Sqlite.list_tables().contains("FROM sqlite_master"));
}

#[test]
fn primary_key_queries() {
    assert!(SqlBuilder::Mysql.get_primary_key("x").contains("TABLE_NAME = 'x'"));
    assert!(SqlBuilder::Postgres.get_primary_key("y").contains("t.table_name = 'y'"));
    assert!(SqlBuilder::Sqlite.get_primary_key("z").contains("pragma_table_info(\"z\")"));
}

#[test]
fn every_placeholder_is_replaced() {
    let q = SqlBuilder::Sqlite.check_table("_table_name_x");
    assert!(q.contains("'_table_name_x'"));
}
