//! The boundary conversion toolkit: stateless functions that convert between
//! owned values and nullable boundary pointers, interpret null pointers as
//! optional or erroneous inputs, record failures in the error store, and
//! provide small utility conversions.
//!
//! A boundary pointer is modelled as an opaque owning handle: null, or a
//! heap-allocated value whose ownership travels with the handle. Handing a
//! handle out and reclaiming it exactly once is the caller's obligation; the
//! model makes a double reclaim unrepresentable rather than undefined.

use vstd::prelude::*;
use vstd::utf8::{valid_utf8, decode_utf8};

use crate::error::ErrorMessage;
use crate::error::ErrorStore;
use crate::error::formatted_error;
use crate::error::set_last_error;

verus! {

/// The canonical byte encoding of a boolean crossing the boundary.
pub open spec fn spec_bool_to_u8(b: bool) -> u8 {
    if b {
        1u8
    } else {
        0u8
    }
}

/// How a byte coming back across the boundary is decoded: any non-zero byte
/// decodes to true.
pub open spec fn spec_u8_to_bool(v: u8) -> bool {
    v != 0
}

/// Encodes a boolean as a byte, 1 for true and 0 for false.
pub fn bool_to_u8(b: bool) -> (r: u8)
    ensures
        r == spec_bool_to_u8(b),
{
    if b {
        1
    } else {
        0
    }
}

/// Decodes a byte as a boolean; any non-zero byte decodes to true.
pub fn u8_to_bool(v: u8) -> (r: bool)
    ensures
        r == spec_u8_to_bool(v),
{
    v != 0
}

/// Decoding inverts encoding: a boolean survives the trip across the
/// boundary and back unchanged.
pub proof fn lemma_bool_byte_round_trip(b: bool)
    ensures
        spec_u8_to_bool(spec_bool_to_u8(b)) == b,
{
}

/// An owning, nullable boundary pointer to a `T`: what the boundary's callers
/// hold in place of a raw object pointer. Its view is the pointee, or `None`
/// for null.
pub struct ObjectPtr<T> {
    inner: Option<Box<T>>,
}

impl<T> View for ObjectPtr<T> {
    type V = Option<T>;

    closed spec fn view(&self) -> Option<T> {
        match self.inner {
            Some(b) => Some(*b),
            None => None,
        }
    }
}

impl<T> ObjectPtr<T> {
    /// The null pointer: the canonical "operation failed" sentinel for
    /// pointer-returning boundary functions.
    pub fn null() -> (p: Self)
        ensures
            p@ is None,
    {
        ObjectPtr { inner: None }
    }

    /// Whether this is the null pointer.
    pub fn is_null(&self) -> (r: bool)
        ensures
            r == (self@ is None),
    {
        self.inner.is_none()
    }
}

/// Allocates the value on the heap and hands it to the caller as an owning
/// pointer; the caller must later pass the pointer back to `take_ownership`
/// exactly once.
pub fn object_to_ptr<T>(object: T) -> (p: ObjectPtr<T>)
    ensures
        p@ == Some(object),
{
    ObjectPtr { inner: Some(Box::new(object)) }
}

/// Converts a pointer received from the caller back into the owned value.
/// Fails, with no error recorded, exactly when the pointer is null.
pub fn take_ownership<T>(ptr: ObjectPtr<T>) -> (r: Result<T, &'static str>)
    ensures
        ptr@ matches Some(v) ==> (r matches Ok(t) && t == v),
        ptr@ is None ==> (r matches Err(m) && m@ == "Invalid pointer"@),
{
    match ptr.inner {
        Some(b) => Ok(*b),
        None => Err("Invalid pointer"),
    }
}

/// Whether the byte sequence holds a zero byte, which a C string cannot
/// carry: the terminator would cut the string short.
pub open spec fn has_nul_byte(bytes: Seq<u8>) -> bool {
    exists|i: int| 0 <= i < bytes.len() && bytes[i] == 0
}

/// An owning, nullable boundary pointer to a heap-allocated, null-terminated
/// string: what the boundary's callers hold in place of a raw C string
/// pointer. Its view is the string's bytes, terminator excluded, or `None`
/// for null.
pub struct StringPtr {
    inner: Option<Vec<u8>>,
}

impl View for StringPtr {
    type V = Option<Seq<u8>>;

    closed spec fn view(&self) -> Option<Seq<u8>> {
        match self.inner {
            Some(bytes) => Some(bytes@),
            None => None,
        }
    }
}

impl StringPtr {
    /// A non-null string pointer never carries a zero byte: the terminator
    /// stays implicit and unambiguous.
    pub open spec fn wf(&self) -> bool {
        self@ matches Some(bytes) ==> !has_nul_byte(bytes)
    }

    /// The null string pointer: the "operation failed" sentinel for
    /// string-returning boundary functions.
    pub fn null() -> (p: Self)
        ensures
            p@ is None,
            p.wf(),
    {
        StringPtr { inner: None }
    }

    /// Whether this is the null string pointer.
    pub fn is_null(&self) -> (r: bool)
        ensures
            r == (self@ is None),
    {
        self.inner.is_none()
    }
}

/// Whether the byte vector holds a zero byte; a single linear scan.
fn contains_nul(bytes: &Vec<u8>) -> (r: bool)
    ensures
        r == has_nul_byte(bytes@),
{
    let mut i: usize = 0;
    while i < bytes.len()
        invariant
            0 <= i <= bytes@.len(),
            forall|j: int| 0 <= j < i ==> bytes@[j] != 0,
        decreases bytes@.len() - i,
    {
        if bytes[i] == 0 {
            return true;
        }
        i += 1;
    }
    false
}

/// What `string_to_ptr` hands back for the given input bytes: the bytes
/// themselves as a fresh owned string, or null when a zero byte would cut
/// the string short.
pub open spec fn spec_string_to_ptr(bytes: Seq<u8>) -> Option<Seq<u8>> {
    if has_nul_byte(bytes) {
        None
    } else {
        Some(bytes)
    }
}

/// What `take_string_ownership` hands back for a pointer holding the given
/// view: the owned bytes, or nothing for null.
pub open spec fn spec_take_string_ownership(p: Option<Seq<u8>>) -> Option<Seq<u8>> {
    p
}

/// A string built from terminator-free bytes and then reclaimed decodes to
/// the original bytes: the round trip across the boundary is lossless.
pub proof fn lemma_string_round_trip(bytes: Seq<u8>)
    requires
        !has_nul_byte(bytes),
    ensures
        spec_take_string_ownership(spec_string_to_ptr(bytes)) == Some(bytes),
{
}

/// Constructs a null-terminated owned string from the given bytes and hands
/// it to the caller as an owning pointer. Fails, recording `"Invalid
/// string"` under the given context, exactly when the bytes contain an
/// embedded terminator; null is then returned in place of a string.
pub fn string_to_ptr(
    context: &'static str,
    store: &mut ErrorStore,
    string: Vec<u8>,
) -> (p: StringPtr)
    ensures
        p@ == spec_string_to_ptr(string@),
        p.wf(),
        !has_nul_byte(string@) ==> *final(store) == *old(store),
        has_nul_byte(string@) ==> final(store)@ == formatted_error(
            context@,
            "Invalid string"@,
        ),
{
    if contains_nul(&string) {
        set_last_error(store, context, "Invalid string");
        StringPtr::null()
    } else {
        StringPtr { inner: Some(string) }
    }
}

/// Converts a string pointer received from the caller back into the owned
/// bytes, terminator excluded. Fails, with no error recorded, exactly when
/// the pointer is null.
pub fn take_string_ownership(string_ptr: StringPtr) -> (r: Result<Vec<u8>, &'static str>)
    ensures
        string_ptr@ matches Some(bytes) ==> (r matches Ok(v) && v@ == bytes),
        string_ptr@ is None ==> (r matches Err(m) && m@ == "Invalid string pointer"@),
        r matches Ok(v) ==> Some(v@) == spec_take_string_ownership(string_ptr@),
{
    match string_ptr.inner {
        Some(bytes) => Ok(bytes),
        None => Err("Invalid string pointer"),
    }
}

/// On success, the contained value; on failure, the caller-supplied fallback,
/// with the error recorded under the given context. The single funnel through
/// which every fallible boundary operation reports failure without an error
/// channel of its own.
pub fn handle_result<T, E: ErrorMessage>(
    context: &'static str,
    store: &mut ErrorStore,
    error_return_value: T,
    result: Result<T, E>,
) -> (r: T)
    ensures
        result matches Ok(t) ==> (r == t && *final(store) == *old(store)),
        result matches Err(e) ==> (r == error_return_value && final(store)@ == formatted_error(
            context@,
            e.message_view(),
        )),
{
    match result {
        Ok(t) => t,
        Err(e) => {
            set_last_error(store, context, e);
            error_return_value
        },
    }
}

/// On success, the contained value allocated behind a fresh owning pointer;
/// on failure, null, with the error recorded under the given context.
pub fn result_to_ptr<T, E: ErrorMessage>(
    context: &'static str,
    store: &mut ErrorStore,
    result: Result<T, E>,
) -> (p: ObjectPtr<T>)
    ensures
        result matches Ok(t) ==> (p@ == Some(t) && *final(store) == *old(store)),
        result matches Err(e) ==> (p@ is None && final(store)@ == formatted_error(
            context@,
            e.message_view(),
        )),
{
    let mapped: Result<ObjectPtr<T>, E> = match result {
        Ok(t) => Ok(object_to_ptr(t)),
        Err(e) => Err(e),
    };
    handle_result(context, store, ObjectPtr::null(), mapped)
}

/// On success, the contained bytes behind a fresh owning string pointer; on
/// failure of either the original result or the string construction (an
/// embedded terminator), null, with whichever error occurred recorded under
/// the given context.
pub fn string_result_to_ptr<E: ErrorMessage>(
    context: &'static str,
    store: &mut ErrorStore,
    result: Result<Vec<u8>, E>,
) -> (p: StringPtr)
    ensures
        p.wf(),
        result matches Ok(bytes) ==> p@ == spec_string_to_ptr(bytes@),
        result matches Ok(bytes) ==> !has_nul_byte(bytes@) ==> *final(store) == *old(store),
        result matches Ok(bytes) ==> has_nul_byte(bytes@) ==> final(store)@ == formatted_error(
            context@,
            "Invalid string"@,
        ),
        result matches Err(e) ==> (p@ is None && final(store)@ == formatted_error(
            context@,
            e.message_view(),
        )),
{
    match result {
        Ok(bytes) => string_to_ptr(context, store, bytes),
        Err(e) => {
            set_last_error(store, context, e);
            StringPtr::null()
        },
    }
}

/// Collapses a result-of-result with one error type into a single result,
/// preserving whichever layer failed.
pub fn flatten_result<T, E>(result: Result<Result<T, E>, E>) -> (r: Result<T, E>)
    ensures
        result matches Ok(inner) ==> r == inner,
        result matches Err(e) ==> r == Result::<T, E>::Err(e),
{
    match result {
        Ok(r) => r,
        Err(e) => Err(e),
    }
}

/// The unified error kind for a result-of-result whose two layers use
/// distinct error representations: whichever layer failed, tagged with the
/// layer it came from.
pub enum UnifiedError<E1, E2> {
    /// The inner layer failed.
    Inner(E1),
    /// The outer layer failed; the inner result was never produced.
    Outer(E2),
}

impl<E1: ErrorMessage, E2: ErrorMessage> ErrorMessage for UnifiedError<E1, E2> {
    open spec fn message_view(&self) -> Seq<char> {
        match self {
            UnifiedError::Inner(e) => e.message_view(),
            UnifiedError::Outer(e) => e.message_view(),
        }
    }

    fn message(&self) -> (r: String) {
        match self {
            UnifiedError::Inner(e) => e.message(),
            UnifiedError::Outer(e) => e.message(),
        }
    }
}

/// Collapses a result-of-result whose layers use two distinct error kinds
/// into a single result with the unified kind. An outer failure wins without
/// the inner result ever being inspected; an inner failure is converted
/// otherwise.
pub fn flatten_mismatched_result<T, E1, E2>(result: Result<Result<T, E1>, E2>) -> (r: Result<
    T,
    UnifiedError<E1, E2>,
>)
    ensures
        result matches Ok(inner) ==> inner matches Ok(t) ==> (r matches Ok(v) && v == t),
        result matches Ok(inner) ==> inner matches Err(e1) ==> r == Result::<
            T,
            UnifiedError<E1, E2>,
        >::Err(UnifiedError::Inner(e1)),
        result matches Err(e2) ==> r == Result::<T, UnifiedError<E1, E2>>::Err(
            UnifiedError::Outer(e2),
        ),
{
    match result {
        Ok(Ok(t)) => Ok(t),
        Ok(Err(e1)) => Err(UnifiedError::Inner(e1)),
        Err(e2) => Err(UnifiedError::Outer(e2)),
    }
}

/// A reference to the element at `index`, when `index` is within bounds;
/// otherwise fails, with no error recorded and without panicking.
pub fn safe_index<T>(vector: &Vec<T>, index: usize) -> (r: Result<&T, &'static str>)
    ensures
        index < vector@.len() ==> (r matches Ok(e) && *e == vector@[index as int]),
        index >= vector@.len() ==> (r matches Err(m) && m@ == "Index out of bounds"@),
{
    if index < vector.len() {
        Ok(&vector[index])
    } else {
        Err("Index out of bounds")
    }
}

/// If the pointer is non-null, invokes the operation on the pointee by
/// mutable access and returns its result, leaving the error store alone;
/// if null, records `"Invalid pointer"` under the given context and returns
/// the fallback without invoking the operation.
pub fn with<T, R, F: FnOnce(&mut T) -> R>(
    context: &'static str,
    store: &mut ErrorStore,
    t_ptr: &mut ObjectPtr<T>,
    error_return_value: R,
    f: F,
) -> (r: R)
    requires
        forall|x: &mut T|
            old(t_ptr)@ == Some(mut_ref_current(x)) ==> #[trigger] call_requires(f, (x,)),
    ensures
        old(t_ptr)@ is None ==> (r == error_return_value && final(t_ptr)@ is None
            && final(store)@ == formatted_error(context@, "Invalid pointer"@)),
        old(t_ptr)@ is Some ==> (*final(store) == *old(store) && exists|x: &mut T|
            old(t_ptr)@ == Some(mut_ref_current(x)) && final(t_ptr)@ == Some(mut_ref_future(x))
                && #[trigger] call_ensures(f, (x,), r)),
{
    match t_ptr.inner.take() {
        Some(b) => {
            let mut v: T = *b;
            let r = f(&mut v);
            t_ptr.inner = Some(Box::new(v));
            r
        },
        None => {
            set_last_error(store, context, "Invalid pointer");
            error_return_value
        },
    }
}

/// Relies on str::from_utf8: it yields a string slice viewing exactly the
/// given bytes when they are valid UTF-8, and fails otherwise.
#[verifier::external_body]
fn bytes_to_str(bytes: &[u8]) -> (r: Option<&str>)
    ensures
        r is Some <==> valid_utf8(bytes@),
        r matches Some(s) ==> s@ == decode_utf8(bytes@),
{
    match std::str::from_utf8(bytes) {
        Ok(s) => Some(s),
        Err(_) => None,
    }
}

/// If the string pointer is null, invokes the operation on the empty string:
/// null is a valid empty-string input here, not an error. If it is non-null,
/// decodes the bytes as text and invokes the operation on the decoded text;
/// when the bytes are not valid text, records `"Invalid string pointer"`
/// under the given context and returns the fallback instead.
pub fn with_str<R, F: FnOnce(&str) -> R>(
    context: &'static str,
    store: &mut ErrorStore,
    c_str: &StringPtr,
    error_return_value: R,
    f: F,
) -> (r: R)
    requires
        c_str@ is None ==> forall|s: &str|
            s@ == Seq::<char>::empty() ==> #[trigger] call_requires(f, (s,)),
        c_str@ matches Some(bytes) ==> valid_utf8(bytes) ==> forall|s: &str|
            s@ == decode_utf8(bytes) ==> #[trigger] call_requires(f, (s,)),
    ensures
        c_str@ is None ==> (*final(store) == *old(store) && exists|s: &str|
            s@ == Seq::<char>::empty() && #[trigger] call_ensures(f, (s,), r)),
        c_str@ matches Some(bytes) ==> valid_utf8(bytes) ==> (*final(store) == *old(store)
            && exists|s: &str| s@ == decode_utf8(bytes) && #[trigger] call_ensures(f, (s,), r)),
        c_str@ matches Some(bytes) ==> !valid_utf8(bytes) ==> (r == error_return_value
            && final(store)@ == formatted_error(context@, "Invalid string pointer"@)),
{
    match &c_str.inner {
        None => {
            proof {
                reveal_strlit("");
            }
            let empty = "";
            assert(empty@ =~= Seq::<char>::empty());
            f(empty)
        },
        Some(bytes) => match bytes_to_str(bytes.as_slice()) {
            Some(s) => f(s),
            None => {
                set_last_error(store, context, "Invalid string pointer");
                error_return_value
            },
        },
    }
}

} // verus!
