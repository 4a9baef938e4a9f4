//! The last-error slot read over JNI.
//!
//! JNI integer error codes collapse the text that says *why* a native call
//! failed. The failing call stores that text here, and the Kotlin side reads it
//! after a failed call to show it in a banner.

use vstd::prelude::*;

use crate::text::owned;

verus! {

/// Holds the most recent error text; empty when there is none.
pub struct LastError {
    text: String,
}

impl View for LastError {
    type V = Seq<char>;

    closed spec fn view(&self) -> Seq<char> {
        self.text@
    }
}

impl LastError {
    /// An empty slot.
    pub fn new() -> (e: Self)
        ensures
            e@ == Seq::<char>::empty(),
    {
        LastError { text: String::new() }
    }
}

/// Stores a human-readable error for the next caller to pick up, replacing any
/// earlier one.
pub fn set_last_error(slot: &mut LastError, msg: &str)
    ensures
        final(slot)@ == msg@,
{
    slot.text = owned(msg);
}

/// Takes the stored error (empty if none) and clears the slot.
pub fn take_last_error(slot: &mut LastError) -> (s: String)
    ensures
        s@ == old(slot)@,
        final(slot)@ == Seq::<char>::empty(),
{
    let mut taken = String::new();
    std::mem::swap(&mut taken, &mut slot.text);
    taken
}

/// The stored error, without clearing it.
pub fn peek_last_error(slot: &LastError) -> (s: String)
    ensures
        s@ == slot@,
{
    owned(slot.text.as_str())
}

} // verus!
