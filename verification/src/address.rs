use vstd::prelude::*;

verus! {

/// The identity of an account, held as the text that names it.
///
/// Two addresses denote the same account exactly when their texts are equal.
#[derive(Debug, PartialEq, Eq)]
pub struct Address {
    key: String,
}

impl View for Address {
    type V = Seq<char>;

    closed spec fn view(&self) -> Seq<char> {
        self.key@
    }
}

impl Address {
    /// The address named by `key`.
    pub fn new(key: String) -> (address: Address)
        ensures
            address@ == key@,
    {
        Address { key }
    }

    /// The text that names this address.
    pub fn as_str(&self) -> (key: &str)
        ensures
            key@ == self@,
    {
        self.key.as_str()
    }

    /// Whether `self` and `other` denote the same account.
    pub fn same(&self, other: &Address) -> (equal: bool)
        ensures
            equal == (self@ == other@),
    {
        self.key == other.key
    }
}

impl Clone for Address {
    fn clone(&self) -> (copy: Address)
        ensures
            copy@ == self@,
    {
        Address { key: self.key.clone() }
    }
}

} // verus!
