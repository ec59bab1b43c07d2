use polars::prelude::DataType as P;
use polars::prelude::TimeUnit as PT;
use fabrix::errors::{CommonError, FabrixError};
use fabrix::model::{DataType, TimeUnit};
use fabrix::util::{cis_err, oob_err, Stepper, IDX};

#[test]
fn stepper_stops_after_len_steps() {
    let mut s = Stepper::new(3);
    let mut n = 0;
    while !s.exhausted() {
        s.forward();
        n += 1;
    }
    assert_eq!(n, 3);
    assert!(Stepper::new(0).exhausted());
}

#[test]
fn default_index_name() {
    assert_eq!(IDX, "index");
}

#[test]
fn common_errors() {
    match FabrixError::new_common_error("boom") {
        FabrixError::Common(CommonError::Str(m)) => assert_eq!(m, "boom"),
        _ => panic!(),
    }
    match FabrixError::new_common_error(String::from("bang")) {
        FabrixError::Common(CommonError::String(m)) => assert_eq!(m, "bang"),
        _ => panic!(),
    }
    match FabrixError::new_empty_error() {
        FabrixError::Common(CommonError::Str(m)) => assert_eq!(m, "empty content"),
        _ => panic!(),
    }
}

#[test]
fn common_error_shows_its_message_quoted() {
    assert_eq!(CommonError::from("a b").to_display_string(), "\"a b\"");
    assert_eq!(CommonError::from(String::from("x\"y")).to_display_string(), "\"x\\\"y\"");
}

#[test]
fn parse_errors() {
    match FabrixError::new_parse_error("null", "i32") {
        FabrixError::Parse(a, b) => {
            assert_eq!(a, "null");
            assert_eq!(b, "i32");
        }
        _ => panic!(),
    }
    match FabrixError::new_parse_info_error("u8", "too large") {
        FabrixError::Parse(a, b) => {
            assert_eq!(a, "u8");
            assert_eq!(b, "too large");
        }
        _ => panic!(),
    }
}

#[test]
fn out_of_boundary_error() {
    match oob_err(12, 10) {
        FabrixError::Common(CommonError::String(m)) => {
            assert_eq!(m, "length 12 out of len 10 boundary")
        }
        _ => panic!(),
    }
}

#[test]
fn content_is_empty_error() {
    match cis_err("rows") {
        FabrixError::Common(CommonError::String(m)) => assert_eq!(m, "\"rows\" is empty"),
        _ => panic!(),
    }
}

/// Pairs of a library data type and the polars data type it stands for.
fn type_pairs() -> Vec<(DataType, P)> {
    vec![
        (DataType::Boolean, P::Boolean),
        (DataType::UInt8, P::UInt8),
        (DataType::UInt16, P::UInt16),
        (DataType::UInt32, P::UInt32),
        (DataType::UInt64, P::UInt64),
        (DataType::Int8, P::Int8),
        (DataType::Int16, P::Int16),
        (DataType::Int32, P::Int32),
        (DataType::Int64, P::Int64),
        (DataType::Float32, P::Float32),
        (DataType::Float64, P::Float64),
        (DataType::Utf8, P::Utf8),
        (DataType::Date32, P::Date32),
        (DataType::Date64, P::Date64),
        (DataType::Time64(TimeUnit::Nanosecond), P::Time64(PT::Nanosecond)),
        (DataType::Duration(TimeUnit::Nanosecond), P::Duration(PT::Nanosecond)),
        (DataType::Duration(TimeUnit::Millisecond), P::Duration(PT::Millisecond)),
        (DataType::Null, P::Null),
        (DataType::Categorical, P::Categorical),
        (DataType::List(Box::new(DataType::Int64)), P::List(P::Int64.to_arrow())),
        (DataType::List(Box::new(DataType::Utf8)), P::List(P::Utf8.to_arrow())),
        (DataType::List(Box::new(DataType::Categorical)), P::List(P::Categorical.to_arrow())),
        (
            DataType::List(Box::new(DataType::List(Box::new(DataType::Time64(TimeUnit::Nanosecond))))),
            P::List(P::List(P::Time64(PT::Nanosecond).to_arrow()).to_arrow()),
        ),
        (
            DataType::List(Box::new(DataType::List(Box::new(DataType::Utf8)))),
            P::List(P::List(P::Utf8.to_arrow()).to_arrow()),
        ),
    ]
}

#[test]
fn data_type_debug_matches_polars() {
    for (ours, theirs) in type_pairs().iter() {
        assert_eq!(ours.debug_text(), format!("{:?}", theirs));
    }
}

#[test]
fn dtypes_mismatch_error_is_pretty_debug() {
    let pairs = type_pairs();
    let ours: Vec<DataType> = type_pairs().into_iter().map(|p| p.0).collect();
    let theirs: Vec<P> = pairs.iter().map(|p| p.1.clone()).collect();
    let a = DataType::Int64;
    let b = DataType::List(Box::new(DataType::List(Box::new(DataType::Utf8))));
    let pb = P::List(P::List(P::Utf8.to_arrow()).to_arrow());
    let empty: Vec<P> = vec![];
    let expected = format!(
        "dataframe dtypes mismatch, d1: {:#?}, d2: {:#?}",
        (&P::Int64, &theirs),
        (&pb, &empty)
    );
    match FabrixError::new_df_dtypes_mismatch_error((&a, ours), (&b, vec![])) {
        FabrixError::Common(CommonError::String(m)) => assert_eq!(m, expected),
        _ => panic!(),
    }
}

#[test]
fn data_type_names_match_polars() {
    for (ours, theirs) in type_pairs().iter() {
        let nested = matches!(ours, DataType::List(b) if matches!(b.as_ref(), DataType::List(_)));
        if !nested {
            assert_eq!(ours.display_text(), theirs.to_string());
        }
    }
}
