//! The column data model: fields, columns, types, builders, serializers.

use databend::comparison::Operator;
use databend::data_column::DataColumn;
use databend::data_column::DataColumnWithField;
use databend::data_field::DataField;
use databend::data_type::DataType;
use databend::data_type::PhysicalDataType;
use databend::data_value::DataValue;
use databend::query_log::LogType;
use databend::serialization::ArrayBuilder;
use databend::serialization::NullSerializer;
use databend::serialization::StringDeserializer;
use databend::serialization::TypeDeserializer;
use databend::serialization::TypeSerializer;
use databend::series::Series;

fn number_series(values: &[u64]) -> Series {
    Series::new(
        DataType::UInt64,
        values.iter().map(|v| DataValue::UInt64(Some(*v))).collect(),
    )
}

#[test]
fn test_data_field_accessors_and_contains() {
    let f = DataField::new("id", DataType::UInt64, false);
    assert_eq!(f.name(), &"id".to_string());
    assert_eq!(*f.data_type(), DataType::UInt64);
    assert!(!f.is_nullable());
    assert_eq!(f.default_expr(), &None);

    let f = f.with_default_expr(Some(b"0".to_vec()));
    assert_eq!(f.default_expr(), &Some(b"0".to_vec()));

    let strict = DataField::new("id", DataType::UInt64, false);
    let relaxed = DataField::new("id", DataType::UInt64, true);
    let other = DataField::new("id2", DataType::UInt64, true);

    // Nullability may be added, never taken away; name and type must match.
    assert!(relaxed.contains(&strict));
    assert!(!strict.contains(&relaxed));
    assert!(strict.contains(&strict));
    assert!(!relaxed.contains(&other));
    assert!(!relaxed.contains(&DataField::new("id", DataType::Int64, true)));
}

#[test]
fn test_data_column_len_slice_resize() {
    let col = DataColumn::Array(number_series(&[1, 2, 3, 4]));
    assert_eq!(col.len(), 4);
    assert!(!col.is_empty());
    assert_eq!(col.data_type(), DataType::UInt64);

    let sliced = col.slice(1, 2);
    assert_eq!(sliced.len(), 2);
    assert_eq!(sliced.try_get(0), DataValue::UInt64(Some(2)));
    assert_eq!(sliced.try_get(1), DataValue::UInt64(Some(3)));

    let empty = col.clone_empty();
    assert_eq!(empty.len(), 0);
    assert!(empty.is_empty());
    assert_eq!(empty.data_type(), DataType::UInt64);

    // A single-row array becomes a constant of the asked length.
    let one = DataColumn::Array(number_series(&[7]));
    let widened = one.resize_constant(5);
    assert_eq!(widened.len(), 5);
    assert_eq!(widened.try_get(3), DataValue::UInt64(Some(7)));

    // A constant only changes its length; a longer array is untouched.
    let c = DataColumn::Constant(DataValue::UInt64(Some(9)), 2);
    assert_eq!(c.resize_constant(6).len(), 6);
    assert_eq!(col.resize_constant(9).len(), 4);
}

#[test]
fn test_data_column_memory_size() {
    // Four 8-byte values.
    let col = DataColumn::Array(number_series(&[1, 2, 3, 4]));
    assert_eq!(col.get_array_memory_size(), 32);

    // A constant accounts for what it would hold materialized.
    let c = DataColumn::Constant(DataValue::Utf8(Some(b"abc".to_vec())), 10);
    assert_eq!(c.get_array_memory_size(), 30);

    let empty = DataColumn::Constant(DataValue::UInt64(Some(1)), 0);
    assert_eq!(empty.get_array_memory_size(), 0);
}

#[test]
fn test_physical_types() {
    assert_eq!(
        DataColumn::Constant(DataValue::Boolean(Some(true)), 1).physical_type(),
        PhysicalDataType::Boolean
    );
    assert_eq!(DataType::Date16.to_physical_type(), PhysicalDataType::UInt16);
    assert_eq!(DataType::Date32.to_physical_type(), PhysicalDataType::Int32);
    assert_eq!(DataType::DateTime32.to_physical_type(), PhysicalDataType::UInt32);
    assert_eq!(DataType::String.to_physical_type(), PhysicalDataType::String);
    assert!(DataType::Float64.is_numeric());
    assert!(!DataType::String.is_numeric());
}

#[test]
fn test_data_column_with_field() {
    let col = DataColumn::Array(number_series(&[1, 2]));
    let field = DataField::new("n", DataType::UInt64, false);
    let cf = DataColumnWithField::new(col, field);
    assert_eq!(cf.column().len(), 2);
    assert_eq!(cf.field().name(), &"n".to_string());
    assert_eq!(*cf.data_type(), DataType::UInt64);
}

#[test]
fn test_operator_comparisons() {
    assert!(Operator::Lt.compare_i64(-1, 2));
    assert!(!Operator::Lt.compare_i64(2, 2));
    assert!(Operator::LtEq.compare_i64(2, 2));
    assert!(Operator::Gt.compare_u64(5, 2));
    assert!(Operator::GtEq.compare_u64(2, 2));
    assert!(Operator::Eq.compare_u64(3, 3));
    assert!(Operator::Neq.compare_i64(3, 4));
}

#[test]
fn test_null_serializer() {
    let s = NullSerializer {};
    assert_eq!(s.serialize_value(&DataValue::Null).unwrap(), "NULL".to_string());
    let col = DataColumn::Constant(DataValue::Null, 3);
    assert_eq!(
        s.serialize_column(&col).unwrap(),
        vec!["NULL".to_string(), "NULL".to_string(), "NULL".to_string()]
    );
}

#[test]
fn test_string_deserializer() {
    let mut de = StringDeserializer::with_capacity(4);
    de.de_text(b"hello");
    de.de_null();
    // Two cells of three bytes each: each value reads from its cell onward.
    de.de_batch(b"abcdef", 3, 2);
    let series = de.finish_to_series();
    assert_eq!(series.len(), 4);
    assert_eq!(series.data_type(), DataType::String);
    assert_eq!(series.try_get(0), DataValue::Utf8(Some(b"hello".to_vec())));
    assert_eq!(series.try_get(1), DataValue::Utf8(None));
    assert_eq!(series.try_get(2), DataValue::Utf8(Some(b"abcdef".to_vec())));
    assert_eq!(series.try_get(3), DataValue::Utf8(Some(b"def".to_vec())));
}

#[test]
fn test_log_type_tags() {
    assert_eq!(LogType::Start.as_u8(), 1);
    assert_eq!(LogType::Finish.as_u8(), 2);
    assert_eq!(LogType::Error.as_u8(), 3);
}
