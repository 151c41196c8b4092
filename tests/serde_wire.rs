use array_plus_extra::{ArrayPlusExtra, DecodeError};

// On the wire an array is the plain sequence of its flat view; decoding reads that sequence
// back and checks its length. `from_vec` sees the whole sequence, so it refuses a surplus
// element itself with `TooMany`; a streaming decoder stops after `N + EXTRA` elements and
// leaves a surplus to the format's own trailing-data check.
fn to_json<T: serde::Serialize, const N: usize, const EXTRA: usize>(
    arr: &ArrayPlusExtra<T, N, EXTRA>,
) -> String {
    serde_json::to_string(arr.as_slice()).unwrap()
}

fn from_json<T: serde::de::DeserializeOwned, const N: usize, const EXTRA: usize>(
    json: &str,
) -> Result<ArrayPlusExtra<T, N, EXTRA>, DecodeError> {
    let items: Vec<T> = serde_json::from_str(json).unwrap();
    ArrayPlusExtra::from_vec(items)
}

#[test]
fn test_serialize_deserialize_basic() {
    let arr: ArrayPlusExtra<i32, 2, 1> = ArrayPlusExtra::new(42);
    let json = to_json(&arr);

    assert_eq!(json, "[42,42,42]");

    let deserialized: ArrayPlusExtra<i32, 2, 1> = from_json(&json).unwrap();
    assert_eq!(arr, deserialized);
}

#[test]
fn test_serialize_mixed_values() {
    let mut arr: ArrayPlusExtra<i32, 3, 2> = ArrayPlusExtra::new(0);
    arr[0] = 10;
    arr[1] = 20;
    arr[2] = 30;
    arr[3] = 40;
    arr[4] = 50;

    let json = to_json(&arr);
    assert_eq!(json, "[10,20,30,40,50]");

    let deserialized: ArrayPlusExtra<i32, 3, 2> = from_json(&json).unwrap();
    assert_eq!(arr, deserialized);
}

#[test]
fn test_deserialize_from_json() {
    let json = "[1,2,3,4]";
    let arr: ArrayPlusExtra<i32, 2, 2> = from_json(json).unwrap();

    assert_eq!(arr.len(), 4);
    assert_eq!(arr[0], 1);
    assert_eq!(arr[1], 2);
    assert_eq!(arr[2], 3);
    assert_eq!(arr[3], 4);
}

#[test]
fn test_deserialize_wrong_length_fails() {
    // Too few elements.
    let result: Result<ArrayPlusExtra<i32, 2, 2>, _> = from_json("[1,2]");
    assert!(result.is_err());

    // Too many elements.
    let result: Result<ArrayPlusExtra<i32, 2, 2>, _> = from_json("[1,2,3,4,5]");
    assert!(result.is_err());
}

#[test]
fn test_serialize_zero_sized() {
    let arr: ArrayPlusExtra<i32, 0, 0> = ArrayPlusExtra::new(42);
    let json = to_json(&arr);
    assert_eq!(json, "[]");

    let deserialized: ArrayPlusExtra<i32, 0, 0> = from_json(&json).unwrap();
    assert_eq!(arr.len(), deserialized.len());
}

#[test]
fn test_serialize_extra_zero() {
    let mut arr: ArrayPlusExtra<i32, 3, 0> = ArrayPlusExtra::new(0);
    arr[0] = 1;
    arr[1] = 2;
    arr[2] = 3;

    assert_eq!(to_json(&arr), "[1,2,3]");
}

#[test]
fn test_serialize_n_zero() {
    let mut arr: ArrayPlusExtra<i32, 0, 3> = ArrayPlusExtra::new(0);
    arr[0] = 7;
    arr[1] = 8;
    arr[2] = 9;

    assert_eq!(to_json(&arr), "[7,8,9]");
}

#[test]
fn test_roundtrip_with_different_types() {
    let arr: ArrayPlusExtra<u8, 2, 2> = ArrayPlusExtra::new(255);
    let json = to_json(&arr);
    let deserialized: ArrayPlusExtra<u8, 2, 2> = from_json(&json).unwrap();
    assert_eq!(arr, deserialized);

    let arr: ArrayPlusExtra<f64, 1, 2> = ArrayPlusExtra::new(1.5);
    let json = to_json(&arr);
    let deserialized: ArrayPlusExtra<f64, 1, 2> = from_json(&json).unwrap();
    assert_eq!(arr, deserialized);
}

#[test]
fn zero_sized_rejects_any_element() {
    let result: Result<ArrayPlusExtra<i32, 0, 0>, _> = from_json("[1]");
    assert_eq!(result, Err(DecodeError::TooMany { expected: 0 }));
}

fn round_trip<const N: usize, const EXTRA: usize>() {
    let mut arr: ArrayPlusExtra<u32, N, EXTRA> = ArrayPlusExtra::new(0);
    for (i, elem) in arr.iter_mut().enumerate() {
        *elem = (i as u32) * 3 + 1;
    }
    let json = to_json(&arr);
    let back: ArrayPlusExtra<u32, N, EXTRA> = from_json(&json).unwrap();
    assert_eq!(arr, back);
}

#[test]
fn wire_round_trip_for_several_sizes() {
    round_trip::<0, 0>();
    round_trip::<1, 0>();
    round_trip::<0, 1>();
    round_trip::<4, 1>();
    round_trip::<3, 3>();
    round_trip::<15, 5>();
    round_trip::<50, 50>();
}

#[test]
fn decode_one_short_and_one_over() {
    let short: Result<ArrayPlusExtra<i32, 4, 1>, _> = from_json("[1,2,3,4]");
    assert_eq!(short, Err(DecodeError::TooFew { expected: 5, found: 4 }));
    let over: Result<ArrayPlusExtra<i32, 4, 1>, _> = from_json("[1,2,3,4,5,6]");
    assert_eq!(over, Err(DecodeError::TooMany { expected: 5 }));
}
