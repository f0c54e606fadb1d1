use tyght_map::TyghtMap;
use tyght_map::TypeTag;
use tyght_map::Value;

#[test]
fn insert_remove() {
    let map = TyghtMap::new().insert(Value::U8(1)).insert(Value::U16(2)).insert(Value::U32(3));

    let (item, map) = map.remove(TypeTag::U8);
    assert_eq!(Value::U8(1), item);

    let (item, map) = map.remove(TypeTag::U16);
    assert_eq!(Value::U16(2), item);

    let (item, map) = map.remove(TypeTag::U32);
    assert_eq!(Value::U32(3), item);

    assert_eq!(TyghtMap::new(), map);
}

#[test]
fn lib_try_insert() {
    let map = TyghtMap::new().insert(Value::U8(1));

    let (item, map) = map.try_insert(Value::U8(2));
    assert_eq!(Some(Value::U8(1)), item);

    let (item, map) = map.remove(TypeTag::U8);
    assert_eq!(Value::U8(2), item);

    assert_eq!(map, TyghtMap::new());
}

#[test]
fn scenario_footprint() {
    let map = TyghtMap::new()
        .insert(Value::U32(3))
        .insert(Value::I32(4))
        .insert(Value::F32Bits(3f32.to_bits()));
    assert_eq!(map.size(), 12);
    assert_eq!(map.get(TypeTag::U32), &Value::U32(3));
}

#[test]
fn scenario_try_insert_twice() {
    let map = TyghtMap::new().insert(Value::U32(3));

    let (item, map) = map.try_insert(Value::U32(5));
    assert_eq!(item, Some(Value::U32(3)));
    assert_eq!(map.get(TypeTag::U32), &Value::U32(5));

    let (item, map) = map.try_insert(Value::Text(String::from("x")));
    assert_eq!(item, None);
    let expected = TyghtMap::new().insert(Value::U32(5)).insert(Value::Text(String::from("x")));
    assert_eq!(map, expected);
}

#[test]
fn scenario_mutate_then_remove() {
    let mut map =
        TyghtMap::new().insert(Value::U32(5)).insert(Value::Text(String::from("Hello")));
    match map.get_mut(TypeTag::Text) {
        Value::Text(s) => s.push_str(", world!"),
        _ => panic!("the text slot should be here"),
    }
    let (item, map) = map.remove(TypeTag::Text);
    assert_eq!(item, Value::Text(String::from("Hello, world!")));
    assert_eq!(map, TyghtMap::new().insert(Value::U32(5)));
}

#[test]
fn scenario_absent_try_get() {
    let empty = TyghtMap::new();
    assert_eq!(empty.try_get(TypeTag::I8), None);

    let map = TyghtMap::new().insert(Value::U32(7)).insert(Value::Text(String::from("hi")));
    assert_eq!(map.try_get(TypeTag::I8), None);
}

#[test]
fn unique_after_insert() {
    let map = TyghtMap::new().insert(Value::U64(1));
    let (old, map) = map.try_insert(Value::U64(2));
    assert_eq!(old, Some(Value::U64(1)));
    let (got, map) = map.try_remove(TypeTag::U64);
    assert_eq!(got, Some(Value::U64(2)));
    let (got, _emptied) = map.try_remove(TypeTag::U64);
    assert_eq!(got, None);
}

#[test]
fn size_sums_slots() {
    let map = TyghtMap::new();
    assert_eq!(map.size(), 0);
    let map = map.insert(Value::U8(1));
    assert_eq!(map.size(), 1);
    let map = map.insert(Value::U16(2));
    assert_eq!(map.size(), 3);
    let map = map.insert(Value::U64(3));
    assert_eq!(map.size(), 11);
    let map = map.insert(Value::U128(4));
    assert_eq!(map.size(), 27);
    let mut map = map.insert(Value::F64Bits(5f64.to_bits()));
    assert_eq!(map.size(), 35);

    assert_eq!(map.replace(Value::U64(9)), Value::U64(3));
    assert_eq!(map.size(), 35);

    let (_, map) = map.remove(TypeTag::U128);
    assert_eq!(map.size(), 19);
}

#[test]
fn insert_remove_inverse() {
    let bigger = TyghtMap::new()
        .insert(Value::Bool(true))
        .insert(Value::I16(-2))
        .insert(Value::I64(10));
    let (item, back) = bigger.remove(TypeTag::I64);
    assert_eq!(item, Value::I64(10));
    let expected = TyghtMap::new().insert(Value::Bool(true)).insert(Value::I16(-2));
    assert_eq!(back, expected);
}

#[test]
fn replace_returns_prior() {
    let mut map = TyghtMap::new()
        .insert(Value::U32(3))
        .insert(Value::Text(String::from("a")))
        .insert(Value::I8(-1));
    let old = map.replace(Value::Text(String::from("b")));
    assert_eq!(old, Value::Text(String::from("a")));
    assert_eq!(map.get(TypeTag::U32), &Value::U32(3));
    assert_eq!(map.get(TypeTag::I8), &Value::I8(-1));
    assert_eq!(map.get(TypeTag::Text), &Value::Text(String::from("b")));
}

#[test]
fn fallible_matches_infallible() {
    let map = TyghtMap::new().insert(Value::U16(7)).insert(Value::I128(-5));
    assert_eq!(map.try_get(TypeTag::U16), Some(map.get(TypeTag::U16)));

    let (fallible, after_try) = map.try_remove(TypeTag::I128);
    let again = TyghtMap::new().insert(Value::U16(7)).insert(Value::I128(-5));
    let (infallible, after) = again.remove(TypeTag::I128);
    assert_eq!(fallible, Some(infallible));
    assert_eq!(after_try, after);

    let (displaced, grown) = TyghtMap::new().insert(Value::U8(1)).try_insert(Value::Str("s"));
    assert_eq!(displaced, None);
    assert_eq!(grown, TyghtMap::new().insert(Value::U8(1)).insert(Value::Str("s")));
}

#[test]
fn absent_remove_unchanged() {
    let map = TyghtMap::new().insert(Value::F64Bits(1.5f64.to_bits()));
    let (item, same) = map.try_remove(TypeTag::Bool);
    assert_eq!(item, None);
    assert_eq!(same, TyghtMap::new().insert(Value::F64Bits(1.5f64.to_bits())));
}

#[test]
fn full_capacity() {
    let mut map = TyghtMap::new()
        .insert(Value::Bool(true))
        .insert(Value::U8(1))
        .insert(Value::U16(2))
        .insert(Value::U32(3))
        .insert(Value::U64(4))
        .insert(Value::U128(5))
        .insert(Value::I8(-1))
        .insert(Value::I16(-2))
        .insert(Value::I32(-3))
        .insert(Value::I64(-4))
        .insert(Value::I128(-5))
        .insert(Value::F32Bits(1f32.to_bits()))
        .insert(Value::F64Bits(2f64.to_bits()))
        .insert(Value::Str("s"))
        .insert(Value::Text(String::from("t")));
    assert_eq!(map.size(), 1 + 1 + 2 + 4 + 8 + 16 + 1 + 2 + 4 + 8 + 16 + 4 + 8 + 16 + 24);
    assert_eq!(map.get(TypeTag::I128), &Value::I128(-5));
    assert_eq!(map.replace(Value::Bool(false)), Value::Bool(true));
    assert_eq!(map.size(), 115);
}

#[test]
fn try_get_mut_present_and_absent() {
    let mut map = TyghtMap::new().insert(Value::U32(1));
    match map.try_get_mut(TypeTag::U32) {
        Some(Value::U32(x)) => *x = 42,
        _ => panic!("the slot should be here"),
    }
    assert_eq!(map.get(TypeTag::U32), &Value::U32(42));
    assert_eq!(map.try_get_mut(TypeTag::I64), None);
}
