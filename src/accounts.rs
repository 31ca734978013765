//! The accounts supplied to one invocation, and a cursor that hands them out
//! in their protocol-defined order.

use vstd::prelude::*;
use crate::error::EngineError;

verus! {

/// A 32-byte account address or program identity.
pub type Address = [u8; 32];

/// An addressable unit of persisted state, with its metadata.
#[derive(Debug, Clone, PartialEq, Eq)]
pub struct Account {
    pub key: Address,
    pub owner: Address,
    pub is_signer: bool,
    pub is_writable: bool,
    pub lamports: u64,
    pub data: Vec<u8>,
}

/// What an account holds, as plain values.
pub struct AccountView {
    pub key: Seq<u8>,
    pub owner: Seq<u8>,
    pub is_signer: bool,
    pub is_writable: bool,
    pub lamports: u64,
    pub data: Seq<u8>,
}

impl View for Account {
    type V = AccountView;

    open spec fn view(&self) -> AccountView {
        AccountView {
            key: self.key@,
            owner: self.owner@,
            is_signer: self.is_signer,
            is_writable: self.is_writable,
            lamports: self.lamports,
            data: self.data@,
        }
    }
}

/// The views of a list of accounts.
pub open spec fn views(accounts: Seq<Account>) -> Seq<AccountView> {
    accounts.map_values(|a: Account| a@)
}

/// `a` with its data replaced by `data`.
pub open spec fn with_data(a: AccountView, data: Seq<u8>) -> AccountView {
    AccountView { data: data, ..a }
}

impl Account {
    /// A copy of this account whose data is `data`.
    pub fn with_data(&self, data: Vec<u8>) -> (r: Account)
        ensures
            r@ == with_data(self@, data@),
    {
        Account {
            key: self.key,
            owner: self.owner,
            is_signer: self.is_signer,
            is_writable: self.is_writable,
            lamports: self.lamports,
            data,
        }
    }
}

/// Replaces the data of the account at `index`, leaving every other account as it was.
pub fn store_data(accounts: &mut Vec<Account>, index: usize, data: Vec<u8>)
    requires
        index < old(accounts)@.len(),
    ensures
        views(final(accounts)@) == views(old(accounts)@).update(
            index as int,
            with_data(old(accounts)@[index as int]@, data@),
        ),
{
    let updated = accounts[index].with_data(data);
    accounts.set(index, updated);
    assert(views(accounts@) =~= views(old(accounts)@).update(
        index as int,
        with_data(old(accounts)@[index as int]@, data@),
    ));
}

/// Whether two addresses are the same.
pub fn same_address(a: &Address, b: &Address) -> (r: bool)
    ensures
        r == (a@ == b@),
{
    let mut i: usize = 0;
    while i < 32
        invariant
            i <= 32,
            a@.len() == 32,
            b@.len() == 32,
            forall|j: int| 0 <= j < i ==> a@[j] == b@[j],
        decreases 32 - i,
    {
        if a[i] != b[i] {
            return false;
        }
        i = i + 1;
    }
    assert(a@ =~= b@);
    true
}

/// The bytes of an address.
pub fn address_bytes(a: &Address) -> (r: Vec<u8>)
    ensures
        r.deep_view() == a@,
{
    let mut out: Vec<u8> = Vec::new();
    let mut i: usize = 0;
    while i < 32
        invariant
            i <= 32,
            a@.len() == 32,
            out@ == a@.subrange(0, i as int),
        decreases 32 - i,
    {
        out.push(a[i]);
        assert(out@ =~= a@.subrange(0, i + 1));
        i = i + 1;
    }
    assert(out.deep_view() =~= a@);
    out
}

/// Hands out the accounts of an invocation one at a time, in order.
pub struct AccountCursor {
    pub position: usize,
}

impl AccountCursor {
    /// A cursor before the first account.
    pub fn new() -> (r: AccountCursor)
        ensures
            r.position == 0,
    {
        AccountCursor { position: 0 }
    }

    /// The index of the next account, or `MissingAccount` past the end.
    pub fn next_account_info(&mut self, accounts: &[Account]) -> (r: Result<usize, EngineError>)
        ensures
            old(self).position < accounts@.len() ==> r == Ok::<usize, EngineError>(
                old(self).position,
            ) && final(self).position == old(self).position + 1,
            old(self).position >= accounts@.len() ==> r == Err::<usize, EngineError>(
                EngineError::MissingAccount,
            ) && final(self).position == old(self).position,
    {
        if self.position < accounts.len() {
            let index = self.position;
            self.position = self.position + 1;
            Ok(index)
        } else {
            Err(EngineError::MissingAccount)
        }
    }
}

} // verus!
