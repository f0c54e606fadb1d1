use tyght_map::Cons;
use tyght_map::Contains;
use tyght_map::FindIndex;
use tyght_map::MaybeContains;
use tyght_map::Missing;
use tyght_map::Nil;
use tyght_map::TypeSet;
use tyght_map::TypeTag;
use tyght_map::Value;

fn nil() -> TypeSet {
    TypeSet::Nil(Nil)
}

fn cons(head: Value, tail: TypeSet) -> TypeSet {
    TypeSet::Cons(Cons { head, tail: Box::new(tail) })
}

fn hi_3_4() -> TypeSet {
    cons(
        Value::Str("hi"),
        cons(Value::U32(3), cons(Value::F32Bits(4f32.to_bits()), nil())),
    )
}

#[test]
fn try_get() {
    let map = hi_3_4();
    let value = map.try_get(TypeTag::U32);
    assert_eq!(value, Some(&Value::U32(3)));

    let value = map.try_get(TypeTag::F64);
    assert_eq!(value, None);
}

#[test]
fn get() {
    let map = hi_3_4();
    let got = (map.get(TypeTag::U32), map.get(TypeTag::Str), map.get(TypeTag::F32));

    assert_eq!(
        (&Value::U32(3), &Value::Str("hi"), &Value::F32Bits(4f32.to_bits())),
        got
    );
}

#[test]
fn insert_try_insert() {
    let (item, map) = nil().try_insert(Value::U32(3));
    assert_eq!(item, None);
    let (item, map) = map.try_insert(Value::I32(4));
    assert_eq!(item, None);
    let (item, map) = map.try_insert(Value::I32(5));
    assert_eq!(item, Some(Value::I32(4)));
    let (_, map) = map.try_insert(Value::Str("hey"));
    assert_eq!(
        map,
        cons(Value::Str("hey"), cons(Value::I32(5), cons(Value::U32(3), nil())))
    );
}

#[test]
fn insert() {
    let x = nil()
        .insert(Value::U32(3))
        .insert(Value::I32(4))
        .insert(Value::Str("hey"))
        .insert(Value::F32Bits(3f32.to_bits()));
    assert_eq!(
        x,
        cons(
            Value::F32Bits(3f32.to_bits()),
            cons(Value::Str("hey"), cons(Value::I32(4), cons(Value::U32(3), nil())))
        )
    );
}

#[test]
fn try_remove() {
    let map = hi_3_4();
    let (x, map) = map.try_remove(TypeTag::Str);
    let (y, map) = map.try_remove(TypeTag::U32);
    let (z, map) = map.try_remove(TypeTag::F64);

    assert_eq!(map, cons(Value::F32Bits(4f32.to_bits()), nil()));
    assert_eq!((x, y, z), (Some(Value::Str("hi")), Some(Value::U32(3)), None));
}

#[test]
fn remove() {
    let map = hi_3_4();
    let (x, map) = map.remove(TypeTag::Str);
    let (y, map) = map.remove(TypeTag::U32);
    let (z, map) = map.remove(TypeTag::F32);

    assert_eq!(map, nil());
    assert_eq!(
        (x, y, z),
        (Value::Str("hi"), Value::U32(3), Value::F32Bits(4f32.to_bits()))
    );
}

#[test]
fn check_try_get() {
    let map = hi_3_4();
    let value = map.try_get(TypeTag::U32);
    assert_eq!(value, Some(&Value::U32(3)));

    let value = map.try_get(TypeTag::F64);
    assert_eq!(value, None);
}

#[test]
fn find_index_positions() {
    let map = cons(Value::U8(1), cons(Value::U16(2), nil()));
    assert_eq!(map.find_index(TypeTag::U8), 0);
    assert_eq!(map.find_index(TypeTag::U16), 1);
    assert_eq!(map.find_index(TypeTag::U32), usize::MAX);
    assert_eq!(nil().find_index(TypeTag::U8), usize::MAX);
}

#[test]
fn by_index_access() {
    let map = cons(Value::U8(1), cons(Value::U16(2), nil()));
    assert_eq!(map.get_by_index(1), &Value::U16(2));
    let (v, rest) = map.remove_by_index(0);
    assert_eq!(v, Value::U8(1));
    assert_eq!(rest, cons(Value::U16(2), nil()));
    let (old, swapped) = rest.insert_by_index(0, Value::U16(9));
    assert_eq!(old, Some(Value::U16(2)));
    let (none_old, grown) = swapped.insert_by_index(usize::MAX, Value::U8(7));
    assert_eq!(none_old, None);
    assert_eq!(grown, cons(Value::U8(7), cons(Value::U16(9), nil())));
}

#[test]
fn by_index_mutation() {
    let mut map = cons(Value::U8(1), cons(Value::U16(2), nil()));
    *map.get_by_index_mut(1) = Value::U16(5);
    assert_eq!(map, cons(Value::U8(1), cons(Value::U16(5), nil())));
}

#[test]
fn structure_size_sums() {
    assert_eq!(nil().size(), 0);
    assert_eq!(hi_3_4().size(), 16 + 4 + 4);
}

#[test]
fn structure_get_mut() {
    let mut map = cons(Value::U8(1), cons(Value::U16(2), nil()));
    *map.get_mut(TypeTag::U8) = Value::U8(9);
    assert_eq!(map, cons(Value::U8(9), cons(Value::U16(2), nil())));
}

#[test]
fn structure_try_get_mut() {
    let mut map = cons(Value::I32(-7), nil());
    match map.try_get_mut(TypeTag::I32) {
        Some(Value::I32(x)) => *x = 8,
        _ => panic!("the slot should be here"),
    }
    assert_eq!(map, cons(Value::I32(8), nil()));
    assert_eq!(map.try_get_mut(TypeTag::U8), None);
}

#[test]
fn text_values_compare_by_contents() {
    assert_eq!(Value::Text(String::from("abc")), Value::Text(String::from("abc")));
    assert_ne!(Value::Text(String::from("abc")), Value::Text(String::from("abd")));
    assert_ne!(Value::Str("abc"), Value::Text(String::from("abc")));
    assert_eq!(Value::Str("xy"), Value::Str("xy"));
    assert_ne!(Value::Str("xy"), Value::Str("xz"));
    assert_ne!(Value::U8(1), Value::U16(1));
}
