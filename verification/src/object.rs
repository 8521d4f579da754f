//! Widget identity: a process-wide comparable token naming one widget
//! instance, together with the capability every widget has of reporting it.

use vstd::prelude::*;

verus! {

use vstd::string::StrSliceExecFns;

/// Compares two string slices character by character.
fn str_eq(a: &str, b: &str) -> (r: bool)
    ensures
        r == (a@ == b@),
{
    let a_len = a.unicode_len();
    let b_len = b.unicode_len();
    if a_len != b_len {
        return false;
    }
    let mut i: usize = 0;
    while i < a_len
        invariant
            a_len == a@.len(),
            b_len == b@.len(),
            a_len == b_len,
            i <= a_len,
            forall|j: int| 0 <= j < i ==> a@[j] == b@[j],
        decreases a_len - i,
    {
        if a.get_char(i) != b.get_char(i) {
            return false;
        }
        i += 1;
    }
    proof {
        assert(a@ =~= b@);
    }
    true
}

/// An immutable, copyable token naming one widget instance.
///
/// Equality is structural on the wrapped label: two identities are equal
/// exactly when their labels hold the same characters.
#[derive(Clone, Copy, Debug, Hash)]
pub struct ID(&'static str);

impl View for ID {
    type V = Seq<char>;

    closed spec fn view(&self) -> Seq<char> {
        self.0@
    }
}

impl ID {
    /// Builds the identity wrapping `label`.
    pub fn new(label: &'static str) -> (r: Self)
        ensures
            r@ == label@,
    {
        ID(label)
    }

    /// The label this identity wraps.
    pub fn as_str(&self) -> (r: &'static str)
        ensures
            r@ == self@,
    {
        self.0
    }
}

impl From<&'static str> for ID {
    fn from(value: &'static str) -> (r: Self) {
        ID(value)
    }
}

impl vstd::std_specs::convert::FromSpecImpl<&'static str> for ID {
    open spec fn obeys_from_spec() -> bool {
        true
    }

    closed spec fn from_spec(value: &'static str) -> Self {
        ID(value)
    }
}

impl PartialEq for ID {
    fn eq(&self, other: &Self) -> (r: bool) {
        str_eq(self.0, other.0)
    }
}

impl vstd::std_specs::cmp::PartialEqSpecImpl for ID {
    open spec fn obeys_eq_spec() -> bool {
        true
    }

    open spec fn eq_spec(&self, other: &Self) -> bool {
        self@ == other@
    }
}

impl Eq for ID {
}

/// The identity-bearing capability: every widget can report the immutable
/// identity it was constructed with.
pub trait Object {
    /// The identity's label, as the mathematical model of this widget's name.
    spec fn spec_id(&self) -> Seq<char>;

    /// Returns the widget's identity.
    fn id(&self) -> (r: ID)
        ensures
            r@ == self.spec_id(),
    ;
}

} // verus!
