//! Wallet kinds, the active backend's tag, and account addresses.
use vstd::prelude::*;

verus! {

/// A 20-byte account address.
#[derive(Clone, Copy, Debug, PartialEq, Eq, Hash)]
pub struct Address(pub [u8; 20]);

/// The kinds of wallet a session can connect to.
#[derive(Clone, Copy, Debug, PartialEq, Eq, Structural)]
pub enum WalletType {
    Injected,
    WalletConnect,
}

/// The backend that currently serves the session, `Absent` when none does. Only its
/// kind matters to the session; the handle itself stays with the caller.
#[derive(Clone, Copy, Debug, PartialEq, Eq, Structural)]
pub enum WebProvider {
    Absent,
    Injected,
    WalletConnect,
}

impl WebProvider {
    /// The kind of wallet behind the backend, if any.
    pub open spec fn kind(self) -> Option<WalletType> {
        match self {
            WebProvider::Absent => None,
            WebProvider::Injected => Some(WalletType::Injected),
            WebProvider::WalletConnect => Some(WalletType::WalletConnect),
        }
    }

    pub fn is_some(&self) -> (r: bool)
        ensures
            r == (*self != WebProvider::Absent),
    {
        match self {
            WebProvider::Absent => false,
            _ => true,
        }
    }
}

/// Copies a list of addresses.
pub fn copy_addresses(v: &Vec<Address>) -> (r: Vec<Address>)
    ensures
        r@ == v@,
{
    let mut r: Vec<Address> = Vec::new();
    let mut i: usize = 0;
    while i < v.len()
        invariant
            i <= v@.len(),
            r@ == v@.subrange(0, i as int),
        decreases v@.len() - i,
    {
        r.push(v[i]);
        i = i + 1;
        assert(r@ =~= v@.subrange(0, i as int));
    }
    assert(v@.subrange(0, v@.len() as int) =~= v@);
    r
}

/// Copies an optional list of addresses.
pub fn copy_accounts(a: &Option<Vec<Address>>) -> (r: Option<Vec<Address>>)
    ensures
        crate::event::accounts_view(r) == crate::event::accounts_view(*a),
{
    match a {
        Some(v) => Some(copy_addresses(v)),
        None => None,
    }
}

} // verus!
