use scoreforge_display::wire::{
    get_array, get_error_string, get_i64, get_obj, get_str, value_to_u32, wrap_to_u32, wrap_to_u64,
    WireValue,
};

fn field(key: &str, v: WireValue) -> (String, WireValue) {
    (key.to_string(), v)
}

fn text(s: &str) -> WireValue {
    WireValue::Text(s.to_string())
}

#[test]
fn get_str_reads_string_fields_only() {
    let obj = vec![
        field("name", text("Centre Court")),
        field("count", WireValue::Int64(3)),
    ];
    assert_eq!(get_str(&obj, "name"), Some("Centre Court".to_string()));
    assert_eq!(get_str(&obj, "count"), None);
    assert_eq!(get_str(&obj, "missing"), None);
}

#[test]
fn lookup_takes_first_occurrence() {
    let obj = vec![field("k", text("first")), field("k", text("second"))];
    assert_eq!(get_str(&obj, "k"), Some("first".to_string()));
}

#[test]
fn get_obj_and_get_array_check_shapes() {
    let obj = vec![
        field("inner", WireValue::Object(vec![field("x", WireValue::Int64(1))])),
        field("list", WireValue::Array(vec![WireValue::Int64(1), WireValue::Int64(2)])),
    ];
    assert!(get_obj(&obj, "inner").is_some());
    assert!(get_obj(&obj, "list").is_none());
    assert_eq!(get_array(&obj, "list").map(|a| a.len()), Some(2));
    assert!(get_array(&obj, "inner").is_none());
}

#[test]
fn get_i64_accepts_integer_and_float_encodings() {
    let obj = vec![
        field("int", WireValue::Int64(-7)),
        field("float", WireValue::Float64(41)),
        field("text", text("41")),
    ];
    assert_eq!(get_i64(&obj, "int"), Some(-7));
    assert_eq!(get_i64(&obj, "float"), Some(41));
    assert_eq!(get_i64(&obj, "text"), None);
}

#[test]
fn value_to_u32_wraps_integers_and_clamps_floats() {
    assert_eq!(value_to_u32(&WireValue::Int64(7)), Some(7));
    assert_eq!(value_to_u32(&WireValue::Int64(-1)), Some(u32::MAX));
    assert_eq!(value_to_u32(&WireValue::Int64(4294967296 + 5)), Some(5));
    assert_eq!(value_to_u32(&WireValue::Float64(6)), Some(6));
    assert_eq!(value_to_u32(&WireValue::Float64(-3)), Some(0));
    assert_eq!(value_to_u32(&WireValue::Float64(5_000_000_000)), Some(u32::MAX));
    assert_eq!(value_to_u32(&text("6")), None);
    assert_eq!(value_to_u32(&WireValue::Null), None);
}

#[test]
fn wrap_helpers_match_two_complement_casts() {
    assert_eq!(wrap_to_u32(-1), (-1i64) as u32);
    assert_eq!(wrap_to_u32(i64::MIN), i64::MIN as u32);
    assert_eq!(wrap_to_u32(123), 123);
    assert_eq!(wrap_to_u64(-1), (-1i64) as u64);
    assert_eq!(wrap_to_u64(i64::MIN), i64::MIN as u64);
    assert_eq!(wrap_to_u64(1_700_000_000_000), 1_700_000_000_000);
}

#[test]
fn error_string_comes_from_object_error_field() {
    let with_error = WireValue::Object(vec![field("error", text("boom"))]);
    assert_eq!(get_error_string(&with_error), Some("boom".to_string()));
    let no_error = WireValue::Object(vec![field("ok", WireValue::Bool(true))]);
    assert_eq!(get_error_string(&no_error), None);
    assert_eq!(get_error_string(&text("boom")), None);
    let non_string = WireValue::Object(vec![field("error", WireValue::Int64(1))]);
    assert_eq!(get_error_string(&non_string), None);
}
