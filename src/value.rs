use vstd::prelude::*;

verus! {

/// Identity of an account or a contract, held as its textual key.
#[derive(Clone, Debug, PartialEq, Eq)]
pub struct Address {
    pub strkey: String,
}

impl Address {
    pub fn new(strkey: String) -> (r: Address)
        ensures
            r.strkey == strkey,
    {
        Address { strkey }
    }
}

/// A value carried by an event, positionally in its data or under a metadata key.
#[derive(Clone, Debug, PartialEq, Eq)]
pub enum Value {
    I128(i128),
    U128(u128),
    U64(u64),
    U32(u32),
    Bool(bool),
    Addr(Address),
    Sym(String),
    Str(String),
}

/// A copy of an address, equal to it.
pub fn copy_address(a: &Address) -> (r: Address)
    ensures
        r == *a,
{
    Address { strkey: a.strkey.clone() }
}

/// A copy of a string, equal to it.
pub fn copy_string(s: &String) -> (r: String)
    ensures
        r == *s,
{
    s.clone()
}

} // verus!
