//! The last-error slot: a single mutable string cell holding the most recent
//! formatted error message, written by every failing boundary operation and
//! read (not cleared) by the consumer.
//!
//! Each execution thread is meant to own exactly one `ErrorStore`, so no two
//! threads ever observe the same slot; the surrounding (unverified) binding
//! layer keeps one store per thread and passes it down by mutable reference.

use vstd::prelude::*;

verus! {

/// A value an error message can be read from, in the manner of a displayable
/// error. The consuming API layer implements this for its own error types so
/// they can be funnelled through [`set_last_error`] and `handle_result`.
pub trait ErrorMessage {
    /// The message this error renders to.
    spec fn message_view(&self) -> Seq<char>;

    /// Render the message.
    fn message(&self) -> (r: String)
        ensures
            r@ == self.message_view(),
    ;
}

impl ErrorMessage for &'static str {
    open spec fn message_view(&self) -> Seq<char> {
        self@
    }

    fn message(&self) -> (r: String) {
        (*self).to_owned()
    }
}

impl ErrorMessage for String {
    open spec fn message_view(&self) -> Seq<char> {
        self@
    }

    fn message(&self) -> (r: String) {
        self.clone()
    }
}

/// One thread's last-error slot. Initially empty; overwritten, never
/// appended to, by each failing boundary operation.
pub struct ErrorStore {
    message: String,
}

impl View for ErrorStore {
    type V = Seq<char>;

    closed spec fn view(&self) -> Seq<char> {
        self.message@
    }
}

/// The message recorded for a failure of `error` in the operation labelled
/// `context`.
pub open spec fn formatted_error(context: Seq<char>, message: Seq<char>) -> Seq<char> {
    "Error "@ + context + ": "@ + message
}

/// Every recorded message carries the supplied context label in full,
/// right after the fixed `"Error "` prefix, so a caller reading the slot can
/// always tell which operation failed.
pub proof fn lemma_formatted_error_contains_context(context: Seq<char>, message: Seq<char>)
    ensures
        formatted_error(context, message).len() == context.len() + message.len() + 8,
        formatted_error(context, message).subrange(6, 6 + context.len() as int) == context,
{
    reveal_strlit("Error ");
    reveal_strlit(": ");
    assert(formatted_error(context, message).subrange(6, 6 + context.len() as int)
        =~= context);
}

impl ErrorStore {
    /// A fresh slot, holding the empty message.
    pub fn new() -> (store: Self)
        ensures
            store@ == Seq::<char>::empty(),
    {
        ErrorStore { message: String::new() }
    }
}

/// Formats `"Error {context}: {error}"` and stores it, replacing any prior
/// message in the calling thread's slot.
pub fn set_last_error<E: ErrorMessage>(store: &mut ErrorStore, context: &'static str, error: E)
    ensures
        final(store)@ == formatted_error(context@, error.message_view()),
{
    let mut m = String::from_str("Error ");
    m.append(context);
    m.append(": ");
    let body = error.message();
    m.append(body.as_str());
    store.message = m;
}

/// Returns a copy of the slot's current message (empty if nothing has been
/// recorded); the slot itself is left unchanged.
pub fn get_last_error(store: &ErrorStore) -> (r: String)
    ensures
        r@ == store@,
{
    store.message.clone()
}

} // verus!
