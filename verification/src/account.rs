use vstd::prelude::*;
use crate::pubkey::Pubkey;

verus! {

/// One account of an invocation, as the host hands it in: its address, who
/// owns it, what the request may do with it, its balance and its bytes.
#[derive(Debug, PartialEq, Eq)]
pub struct Account {
    /// Address of the account.
    pub key: Pubkey,
    /// Whether the account signed the request.
    pub is_signer: bool,
    /// Whether the request may change the account.
    pub is_writable: bool,
    /// Balance of the account.
    pub lamports: u64,
    /// Bytes of the account. Their number is the account's capacity.
    pub data: Vec<u8>,
    /// Program that owns the account.
    pub owner: Pubkey,
}

/// What an account holds, with its bytes as a sequence.
pub ghost struct AccountView {
    pub key: Pubkey,
    pub is_signer: bool,
    pub is_writable: bool,
    pub lamports: u64,
    pub data: Seq<u8>,
    pub owner: Pubkey,
}

impl View for Account {
    type V = AccountView;

    open spec fn view(&self) -> AccountView {
        AccountView {
            key: self.key,
            is_signer: self.is_signer,
            is_writable: self.is_writable,
            lamports: self.lamports,
            data: self.data@,
            owner: self.owner,
        }
    }
}

/// What each account of a list holds.
pub open spec fn account_views(accounts: Seq<Account>) -> Seq<AccountView> {
    accounts.map_values(|a: Account| a@)
}

impl AccountView {
    /// The account with `bytes` written over the start of its own.
    pub open spec fn with_prefix(self, bytes: Seq<u8>) -> AccountView
        recommends
            bytes.len() <= self.data.len(),
    {
        AccountView { data: bytes + self.data.subrange(bytes.len() as int, self.data.len() as int), ..self }
    }
}

impl Account {
    /// An account with the given contents.
    pub fn new(
        key: Pubkey,
        is_signer: bool,
        is_writable: bool,
        lamports: u64,
        data: Vec<u8>,
        owner: Pubkey,
    ) -> (r: Account)
        ensures
            r@ == (AccountView { key, is_signer, is_writable, lamports, data: data@, owner }),
    {
        Account { key, is_signer, is_writable, lamports, data, owner }
    }

    /// Writes `bytes` over the start of the account's bytes. The capacity and
    /// the bytes behind them stay as they are.
    pub fn write_prefix(&mut self, bytes: &[u8])
        requires
            bytes@.len() <= old(self)@.data.len(),
        ensures
            final(self)@ == old(self)@.with_prefix(bytes@),
    {
        let n: usize = bytes.len();
        let mut i: usize = 0;
        while i < n
            invariant
                i <= n,
                n == bytes@.len(),
                n <= self.data@.len(),
                self.data@.len() == old(self).data@.len(),
                self.key == old(self).key,
                self.owner == old(self).owner,
                self.is_signer == old(self).is_signer,
                self.is_writable == old(self).is_writable,
                self.lamports == old(self).lamports,
                forall|j: int| 0 <= j < i ==> self.data@[j] == bytes@[j],
                forall|j: int| i <= j < self.data@.len() ==> self.data@[j] == old(self).data@[j],
            decreases n - i,
        {
            self.data[i] = bytes[i];
            i += 1;
        }
        assert(self@.data =~= old(self)@.with_prefix(bytes@).data);
    }
}

impl Clone for Account {
    /// An account that holds the same.
    fn clone(&self) -> (r: Account)
        ensures
            r@ == self@,
    {
        Account {
            key: self.key,
            is_signer: self.is_signer,
            is_writable: self.is_writable,
            lamports: self.lamports,
            data: self.data.clone(),
            owner: self.owner,
        }
    }
}

} // verus!
