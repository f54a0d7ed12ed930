//! Layered merging of settings values.
//!
//! Two layers of settings are combined field by field. A left merge keeps what
//! the receiver holds and fills its gaps from the other value; a right merge
//! lets the other value override the receiver wherever it holds something.

use vstd::prelude::*;

verus! {

/// A value that can be layered over or under another value of its type.
pub trait Merge: Sized {
    /// Whether `out` is `self` with `other` merged in beneath it.
    spec fn merges_left(self, other: Self, out: Self) -> bool;

    /// Whether `out` is `self` with `other` merged in above it.
    spec fn merges_right(self, other: Self, out: Self) -> bool;

    /// Keeps what `self` holds and takes from `other` only what `self` lacks.
    fn merge_left(&mut self, other: Self) -> (out: &mut Self)
        ensures
            old(self).merges_left(other, *out),
            *final(self) == *final(out),
    ;

    /// Takes from `other` whatever it holds and keeps the rest of `self`.
    fn merge_right(&mut self, other: Self) -> (out: &mut Self)
        ensures
            old(self).merges_right(other, *out),
            *final(self) == *final(out),
    ;
}

/// The left merge of two optional values: the first, unless it is absent.
pub open spec fn option_merged_left<T>(a: Option<T>, b: Option<T>) -> Option<T> {
    if a is Some {
        a
    } else {
        b
    }
}

/// The right merge of two optional values: the second, unless it is absent.
pub open spec fn option_merged_right<T>(a: Option<T>, b: Option<T>) -> Option<T> {
    if b is Some {
        b
    } else {
        a
    }
}

impl<T> Merge for Option<T> {
    open spec fn merges_left(self, other: Self, out: Self) -> bool {
        out == option_merged_left(self, other)
    }

    open spec fn merges_right(self, other: Self, out: Self) -> bool {
        out == option_merged_right(self, other)
    }

    fn merge_left(&mut self, other: Self) -> (out: &mut Self) {
        if self.is_none() {
            *self = other;
        }
        self
    }

    fn merge_right(&mut self, other: Self) -> (out: &mut Self) {
        if other.is_some() {
            *self = other;
        }
        self
    }
}

/// Lists are merged by appending, whichever side the merge is made from.
impl<T> Merge for Vec<T> {
    open spec fn merges_left(self, other: Self, out: Self) -> bool {
        out@ == self@ + other@
    }

    open spec fn merges_right(self, other: Self, out: Self) -> bool {
        out@ == self@ + other@
    }

    fn merge_left(&mut self, other: Self) -> (out: &mut Self) {
        let mut other = other;
        self.append(&mut other);
        self
    }

    fn merge_right(&mut self, other: Self) -> (out: &mut Self) {
        let mut other = other;
        self.append(&mut other);
        self
    }
}

/// A string slice is a single value: the left merge keeps it, the right merge
/// replaces it.
impl<'a> Merge for &'a str {
    open spec fn merges_left(self, other: Self, out: Self) -> bool {
        out == self
    }

    open spec fn merges_right(self, other: Self, out: Self) -> bool {
        out == other
    }

    fn merge_left(&mut self, _other: Self) -> (out: &mut Self) {
        self
    }

    fn merge_right(&mut self, other: Self) -> (out: &mut Self) {
        *self = other;
        self
    }
}

/// A scalar is a single value: the left merge keeps it, the right merge
/// replaces it.
impl Merge for u8 {
    open spec fn merges_left(self, other: Self, out: Self) -> bool {
        out == self
    }

    open spec fn merges_right(self, other: Self, out: Self) -> bool {
        out == other
    }

    fn merge_left(&mut self, _other: Self) -> (out: &mut Self) {
        self
    }

    fn merge_right(&mut self, other: Self) -> (out: &mut Self) {
        *self = other;
        self
    }
}

/// A scalar is a single value: the left merge keeps it, the right merge
/// replaces it.
impl Merge for u16 {
    open spec fn merges_left(self, other: Self, out: Self) -> bool {
        out == self
    }

    open spec fn merges_right(self, other: Self, out: Self) -> bool {
        out == other
    }

    fn merge_left(&mut self, _other: Self) -> (out: &mut Self) {
        self
    }

    fn merge_right(&mut self, other: Self) -> (out: &mut Self) {
        *self = other;
        self
    }
}

/// A scalar is a single value: the left merge keeps it, the right merge
/// replaces it.
impl Merge for u32 {
    open spec fn merges_left(self, other: Self, out: Self) -> bool {
        out == self
    }

    open spec fn merges_right(self, other: Self, out: Self) -> bool {
        out == other
    }

    fn merge_left(&mut self, _other: Self) -> (out: &mut Self) {
        self
    }

    fn merge_right(&mut self, other: Self) -> (out: &mut Self) {
        *self = other;
        self
    }
}

/// A scalar is a single value: the left merge keeps it, the right merge
/// replaces it.
impl Merge for u64 {
    open spec fn merges_left(self, other: Self, out: Self) -> bool {
        out == self
    }

    open spec fn merges_right(self, other: Self, out: Self) -> bool {
        out == other
    }

    fn merge_left(&mut self, _other: Self) -> (out: &mut Self) {
        self
    }

    fn merge_right(&mut self, other: Self) -> (out: &mut Self) {
        *self = other;
        self
    }
}

/// A scalar is a single value: the left merge keeps it, the right merge
/// replaces it.
impl Merge for u128 {
    open spec fn merges_left(self, other: Self, out: Self) -> bool {
        out == self
    }

    open spec fn merges_right(self, other: Self, out: Self) -> bool {
        out == other
    }

    fn merge_left(&mut self, _other: Self) -> (out: &mut Self) {
        self
    }

    fn merge_right(&mut self, other: Self) -> (out: &mut Self) {
        *self = other;
        self
    }
}

/// A scalar is a single value: the left merge keeps it, the right merge
/// replaces it.
impl Merge for i8 {
    open spec fn merges_left(self, other: Self, out: Self) -> bool {
        out == self
    }

    open spec fn merges_right(self, other: Self, out: Self) -> bool {
        out == other
    }

    fn merge_left(&mut self, _other: Self) -> (out: &mut Self) {
        self
    }

    fn merge_right(&mut self, other: Self) -> (out: &mut Self) {
        *self = other;
        self
    }
}

/// A scalar is a single value: the left merge keeps it, the right merge
/// replaces it.
impl Merge for i16 {
    open spec fn merges_left(self, other: Self, out: Self) -> bool {
        out == self
    }

    open spec fn merges_right(self, other: Self, out: Self) -> bool {
        out == other
    }

    fn merge_left(&mut self, _other: Self) -> (out: &mut Self) {
        self
    }

    fn merge_right(&mut self, other: Self) -> (out: &mut Self) {
        *self = other;
        self
    }
}

/// A scalar is a single value: the left merge keeps it, the right merge
/// replaces it.
impl Merge for i32 {
    open spec fn merges_left(self, other: Self, out: Self) -> bool {
        out == self
    }

    open spec fn merges_right(self, other: Self, out: Self) -> bool {
        out == other
    }

    fn merge_left(&mut self, _other: Self) -> (out: &mut Self) {
        self
    }

    fn merge_right(&mut self, other: Self) -> (out: &mut Self) {
        *self = other;
        self
    }
}

/// A scalar is a single value: the left merge keeps it, the right merge
/// replaces it.
impl Merge for i64 {
    open spec fn merges_left(self, other: Self, out: Self) -> bool {
        out == self
    }

    open spec fn merges_right(self, other: Self, out: Self) -> bool {
        out == other
    }

    fn merge_left(&mut self, _other: Self) -> (out: &mut Self) {
        self
    }

    fn merge_right(&mut self, other: Self) -> (out: &mut Self) {
        *self = other;
        self
    }
}

/// A scalar is a single value: the left merge keeps it, the right merge
/// replaces it.
impl Merge for i128 {
    open spec fn merges_left(self, other: Self, out: Self) -> bool {
        out == self
    }

    open spec fn merges_right(self, other: Self, out: Self) -> bool {
        out == other
    }

    fn merge_left(&mut self, _other: Self) -> (out: &mut Self) {
        self
    }

    fn merge_right(&mut self, other: Self) -> (out: &mut Self) {
        *self = other;
        self
    }
}

/// A scalar is a single value: the left merge keeps it, the right merge
/// replaces it.
impl Merge for () {
    open spec fn merges_left(self, other: Self, out: Self) -> bool {
        out == self
    }

    open spec fn merges_right(self, other: Self, out: Self) -> bool {
        out == other
    }

    fn merge_left(&mut self, _other: Self) -> (out: &mut Self) {
        self
    }

    fn merge_right(&mut self, other: Self) -> (out: &mut Self) {
        *self = other;
        self
    }
}

/// Merging the same value in from the left a second time changes nothing.
pub proof fn lemma_option_merge_left_idempotent<T>(a: Option<T>, b: Option<T>)
    ensures
        option_merged_left(option_merged_left(a, b), b) == option_merged_left(a, b),
{
}

/// A right merge gives the other value where there is one, and the receiver
/// where there is none.
pub proof fn lemma_option_merge_right_prefers_other<T>(a: Option<T>, b: Option<T>)
    ensures
        b is Some ==> option_merged_right(a, b) == b,
        b is None ==> option_merged_right(a, b) == a,
{
}

/// Left and right merges are duals: merging `b` beneath `a` gives what merging
/// `a` above `b` gives.
pub proof fn lemma_option_merge_dual<T>(a: Option<T>, b: Option<T>)
    ensures
        option_merged_left(a, b) == option_merged_right(b, a),
{
}

} // verus!
