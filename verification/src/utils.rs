//! Small helpers: an optional value with a custom message for the case it
//! is read before being set, and character-wise string comparison.

use vstd::prelude::*;
use vstd::string::StrSliceExecFns;

verus! {

/// A wrapper for `Option<T>` with a message naming the value, meant for a
/// value that is absent until an explicit initialization call. Reading it is
/// only allowed once it was set; callers check [`GenericOption::has_value`]
/// first and surface their own error otherwise.
pub struct GenericOption<T> {
    pub value: Option<T>,
    pub panic_message: String,
}

impl<T> GenericOption<T> {
    /// Whether the value was set.
    pub open spec fn is_set(self) -> bool {
        self.value is Some
    }

    /// The value held, where one was set.
    pub open spec fn val(self) -> T
        recommends
            self.is_set(),
    {
        self.value->Some_0
    }

    /// An empty holder, remembering the message that names the value.
    pub fn new(panic_message: String) -> (r: Self)
        ensures
            !r.is_set(),
            r.panic_message@ == panic_message@,
    {
        GenericOption { value: None, panic_message }
    }

    /// Whether the value was set.
    pub fn has_value(&self) -> (r: bool)
        ensures
            r == self.is_set(),
    {
        self.value.is_some()
    }

    /// The value. The caller must know that it was set.
    pub fn value_or_panic(&self) -> (r: &T)
        requires
            self.is_set(),
        ensures
            *r == self.val(),
    {
        match &self.value {
            Some(v) => v,
            None => unreached(),
        }
    }

    /// The value, mutably. The caller must know that it was set.
    pub fn value_or_panic_mut(&mut self) -> (r: &mut T)
        requires
            old(self).is_set(),
        ensures
            *r == old(self).val(),
            final(self).value == Some(*final(r)),
            final(self).panic_message == old(self).panic_message,
    {
        match &mut self.value {
            Some(v) => v,
            None => unreached(),
        }
    }

    /// Stores a value, replacing any earlier one.
    pub fn set(&mut self, new_value: T)
        ensures
            final(self).value == Some(new_value),
            final(self).panic_message == old(self).panic_message,
    {
        self.value = Some(new_value);
    }
}

/// Character-wise equality of two strings.
pub fn str_eq(a: &str, b: &str) -> (r: bool)
    ensures
        r == (a@ == b@),
{
    let a_len = a.unicode_len();
    let b_len = b.unicode_len();
    if a_len != b_len {
        return false;
    }
    let mut i: usize = 0;
    while i < a_len
        invariant
            0 <= i <= a_len,
            a_len == a@.len(),
            a_len == b@.len(),
            forall|j: int| 0 <= j < i ==> a@[j] == b@[j],
        decreases a_len - i,
    {
        if a.get_char(i) != b.get_char(i) {
            return false;
        }
        i = i + 1;
    }
    proof {
        assert(a@ =~= b@);
    }
    true
}

} // verus!
