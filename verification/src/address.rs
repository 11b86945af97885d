//! Network addresses and the fallback used when discovery fails.

use vstd::prelude::*;

verus! {

/// An IP address, used only as a lookup key.
///
/// A version 4 address is its 32 bits, a version 6 address its 128 bits, both
/// in network order (the first octet is the most significant).
#[derive(Clone, Copy, Debug, PartialEq, Eq, Structural)]
pub enum Address {
    V4(u32),
    V6(u128),
}

/// The address substituted when discovery fails: the version 6 loopback, `::1`.
pub open spec fn sentinel_address() -> Address {
    Address::V6(1)
}

/// What address discovery yields for the caller: the discovered address, or
/// the sentinel when discovery failed.
pub open spec fn resolved_address(discovered: Option<Address>) -> Address {
    match discovered {
        Some(address) => address,
        None => sentinel_address(),
    }
}

impl Address {
    /// The sentinel address, `::1`.
    pub fn sentinel() -> (a: Address)
        ensures
            a == sentinel_address(),
    {
        Address::V6(1)
    }

    /// Whether this is the sentinel address.
    pub fn is_sentinel(&self) -> (b: bool)
        ensures
            b == (*self == sentinel_address()),
    {
        match self {
            Address::V6(bits) => *bits == 1,
            Address::V4(_) => false,
        }
    }
}

/// Settles the outcome of one discovery attempt. `discovered` is `None` when
/// the attempt failed for any reason; the pipeline then goes on with the
/// sentinel instead of stopping.
pub fn resolve(discovered: Option<Address>) -> (a: Address)
    ensures
        a == resolved_address(discovered),
        discovered is None ==> a == sentinel_address(),
        discovered is Some ==> a == discovered->0,
{
    match discovered {
        Some(address) => address,
        None => Address::sentinel(),
    }
}

} // verus!
