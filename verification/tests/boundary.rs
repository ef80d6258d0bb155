use ffi_boundary::error::{get_last_error, set_last_error, ErrorMessage, ErrorStore};
use ffi_boundary::util::{
    bool_to_u8, flatten_mismatched_result, flatten_result, handle_result, object_to_ptr,
    result_to_ptr, safe_index, string_result_to_ptr, string_to_ptr, take_ownership,
    take_string_ownership, u8_to_bool, with, with_str, ObjectPtr, StringPtr, UnifiedError,
};

#[test]
fn bool_byte_round_trip() {
    assert_eq!(bool_to_u8(true), 1);
    assert_eq!(bool_to_u8(false), 0);
    assert!(u8_to_bool(bool_to_u8(true)));
    assert!(!u8_to_bool(bool_to_u8(false)));
    assert!(u8_to_bool(255));
    assert!(!u8_to_bool(0));
}

#[test]
fn object_pointer_round_trip() {
    let p = object_to_ptr(42u32);
    assert!(!p.is_null());
    assert_eq!(take_ownership(p), Ok(42u32));
}

#[test]
fn reclaim_null_object_fails() {
    let p: ObjectPtr<u32> = ObjectPtr::null();
    assert!(p.is_null());
    assert_eq!(take_ownership(p), Err("Invalid pointer"));
}

#[test]
fn reclaim_null_string_fails() {
    let p = StringPtr::null();
    assert!(p.is_null());
    assert_eq!(take_string_ownership(p), Err("Invalid string pointer"));
}

#[test]
fn string_round_trip() {
    let mut store = ErrorStore::new();
    let p = string_to_ptr("ctx", &mut store, b"hello".to_vec());
    assert!(!p.is_null());
    assert_eq!(get_last_error(&store), "");
    let bytes = take_string_ownership(p).unwrap();
    assert_eq!(bytes, b"hello".to_vec());
    assert_eq!(String::from_utf8(bytes).unwrap(), "hello");
}

#[test]
fn string_with_embedded_terminator_fails() {
    let mut store = ErrorStore::new();
    let p = string_to_ptr("make_string", &mut store, b"he\0llo".to_vec());
    assert!(p.is_null());
    let message = get_last_error(&store);
    assert!(message.contains("make_string"));
    assert_eq!(message, "Error make_string: Invalid string");
}

#[test]
fn set_and_get_last_error() {
    let mut store = ErrorStore::new();
    assert_eq!(get_last_error(&store), "");
    set_last_error(&mut store, "ctx", "first");
    assert_eq!(get_last_error(&store), "Error ctx: first");
    set_last_error(&mut store, "other", "second");
    assert_eq!(get_last_error(&store), "Error other: second");
    assert_eq!(get_last_error(&store), "Error other: second");
}

#[test]
fn stores_are_disjoint() {
    let mut a = ErrorStore::new();
    let mut b = ErrorStore::new();
    set_last_error(&mut a, "ctx_a", "left");
    set_last_error(&mut b, "ctx_b", "right");
    assert_eq!(get_last_error(&a), "Error ctx_a: left");
    assert_eq!(get_last_error(&b), "Error ctx_b: right");
}

#[test]
fn handle_result_success_passes_value() {
    let mut store = ErrorStore::new();
    let r: Result<u32, &'static str> = Ok(7);
    assert_eq!(handle_result("ctx", &mut store, 0, r), 7);
    assert_eq!(get_last_error(&store), "");
}

#[test]
fn handle_result_failure_records_and_falls_back() {
    let mut store = ErrorStore::new();
    let r: Result<u32, &'static str> = Err("went wrong");
    assert_eq!(handle_result("ctx", &mut store, 0, r), 0);
    assert_eq!(get_last_error(&store), "Error ctx: went wrong");
}

#[test]
fn result_to_ptr_success() {
    let mut store = ErrorStore::new();
    let p = result_to_ptr::<u32, &'static str>("ctx", &mut store, Ok(9));
    assert!(!p.is_null());
    assert_eq!(take_ownership(p), Ok(9));
    assert_eq!(get_last_error(&store), "");
}

#[test]
fn result_to_ptr_failure_end_to_end() {
    let mut store = ErrorStore::new();
    let p = result_to_ptr::<u32, &'static str>("ctx", &mut store, Err("boom"));
    assert!(p.is_null());
    assert_eq!(get_last_error(&store), "Error ctx: boom");
}

#[test]
fn string_result_to_ptr_success() {
    let mut store = ErrorStore::new();
    let p = string_result_to_ptr::<&'static str>("ctx", &mut store, Ok(b"fine".to_vec()));
    assert_eq!(take_string_ownership(p).unwrap(), b"fine".to_vec());
    assert_eq!(get_last_error(&store), "");
}

#[test]
fn string_result_to_ptr_original_failure() {
    let mut store = ErrorStore::new();
    let p = string_result_to_ptr::<&'static str>("ctx", &mut store, Err("boom"));
    assert!(p.is_null());
    assert_eq!(get_last_error(&store), "Error ctx: boom");
}

#[test]
fn string_result_to_ptr_construction_failure() {
    let mut store = ErrorStore::new();
    let p = string_result_to_ptr::<&'static str>("ctx", &mut store, Ok(b"a\0b".to_vec()));
    assert!(p.is_null());
    assert_eq!(get_last_error(&store), "Error ctx: Invalid string");
}

#[test]
fn flatten_preserves_whichever_layer_failed() {
    let ok: Result<Result<u32, &'static str>, &'static str> = Ok(Ok(3));
    assert_eq!(flatten_result(ok), Ok(3));
    let inner_err: Result<Result<u32, &'static str>, &'static str> = Ok(Err("inner"));
    assert_eq!(flatten_result(inner_err), Err("inner"));
    let outer_err: Result<Result<u32, &'static str>, &'static str> = Err("outer");
    assert_eq!(flatten_result(outer_err), Err("outer"));
}

#[test]
fn flatten_mismatched_inner_error_converted() {
    let nested: Result<Result<u32, &'static str>, String> = Ok(Err("e1"));
    let flat = flatten_mismatched_result(nested);
    match flat {
        Err(UnifiedError::Inner(e)) => {
            assert_eq!(e, "e1");
            assert_eq!(UnifiedError::<&'static str, String>::Inner(e).message(), "e1");
        }
        _ => panic!("expected the inner error, converted"),
    }
}

#[test]
fn flatten_mismatched_outer_error_wins() {
    let nested: Result<Result<u32, &'static str>, String> = Err(String::from("e2"));
    let flat = flatten_mismatched_result(nested);
    match flat {
        Err(UnifiedError::Outer(e)) => {
            assert_eq!(e, "e2");
            assert_eq!(UnifiedError::<&'static str, String>::Outer(e).message(), "e2");
        }
        _ => panic!("expected the outer error, converted"),
    }
}

#[test]
fn flatten_mismatched_success_unwraps() {
    let nested: Result<Result<u32, &'static str>, String> = Ok(Ok(11));
    match flatten_mismatched_result(nested) {
        Ok(v) => assert_eq!(v, 11),
        Err(_) => panic!("expected success"),
    }
}

#[test]
fn with_dispatches_on_live_pointer() {
    let mut store = ErrorStore::new();
    let mut p = object_to_ptr(5u32);
    let out = with("ctx", &mut store, &mut p, 0u32, |x: &mut u32| {
        let prev = *x;
        *x += 1;
        prev
    });
    assert_eq!(out, 5);
    assert_eq!(get_last_error(&store), "");
    assert_eq!(take_ownership(p), Ok(6));
}

#[test]
fn with_null_returns_fallback_without_invoking() {
    let mut store = ErrorStore::new();
    let mut p: ObjectPtr<u32> = ObjectPtr::null();
    let mut invoked = false;
    let out = with("ctx", &mut store, &mut p, 7u32, |_x: &mut u32| {
        invoked = true;
        0u32
    });
    assert_eq!(out, 7);
    assert!(!invoked);
    assert!(p.is_null());
    assert_eq!(get_last_error(&store), "Error ctx: Invalid pointer");
}

#[test]
fn with_str_treats_null_as_empty() {
    let mut store = ErrorStore::new();
    let p = StringPtr::null();
    let out = with_str("ctx", &mut store, &p, usize::MAX, |s: &str| s.len());
    assert_eq!(out, 0);
    assert_eq!(get_last_error(&store), "");
}

#[test]
fn with_str_decodes_valid_text() {
    let mut store = ErrorStore::new();
    let p = string_to_ptr("ctx", &mut store, b"abc".to_vec());
    let out = with_str("ctx", &mut store, &p, String::new(), |s: &str| s.to_uppercase());
    assert_eq!(out, "ABC");
    assert_eq!(get_last_error(&store), "");
}

#[test]
fn with_str_rejects_invalid_text() {
    let mut store = ErrorStore::new();
    let p = string_to_ptr("ctx", &mut store, vec![0xffu8, 0xfe]);
    assert!(!p.is_null());
    let out = with_str("decode", &mut store, &p, 42usize, |s: &str| s.len());
    assert_eq!(out, 42);
    assert_eq!(get_last_error(&store), "Error decode: Invalid string pointer");
}

#[test]
fn safe_index_in_bounds() {
    let v = vec![10u32, 20, 30];
    assert_eq!(safe_index(&v, 0), Ok(&10));
    assert_eq!(safe_index(&v, 2), Ok(&30));
}

#[test]
fn safe_index_at_length_fails() {
    let v = vec![10u32, 20, 30];
    assert_eq!(safe_index(&v, 3), Err("Index out of bounds"));
    assert_eq!(safe_index(&v, usize::MAX), Err("Index out of bounds"));
    let empty: Vec<u32> = Vec::new();
    assert_eq!(safe_index(&empty, 0), Err("Index out of bounds"));
}
