use vstd::prelude::*;

verus! {

/// The 32-byte public key that identifies an account holder.
#[derive(Clone, Copy, Debug)]
pub struct UserKey {
    pub bytes: [u8; 32],
}

impl PartialEq for UserKey {
    fn eq(&self, o: &UserKey) -> (r: bool) {
        let mut i: usize = 0;
        while i < 32
            invariant
                0 <= i <= 32,
                forall|j: int| 0 <= j < i ==> self.bytes[j] == o.bytes[j],
            decreases 32 - i,
        {
            if self.bytes[i] != o.bytes[i] {
                assert(!(self.bytes =~= o.bytes));
                return false;
            }
            i = i + 1;
        }
        assert(self.bytes =~= o.bytes);
        true
    }
}

impl Eq for UserKey {
}

impl vstd::std_specs::cmp::PartialEqSpecImpl for UserKey {
    open spec fn obeys_eq_spec() -> bool {
        true
    }

    open spec fn eq_spec(&self, o: &UserKey) -> bool {
        *self == *o
    }
}

/// Per-owner custodial record of principal funds.
#[derive(Clone, Copy, Debug)]
pub struct Vault {
    pub user: UserKey,
    pub balance: u64,
    pub bump: u8,
    pub last_update_time: i64,
}

/// Per-owner record of the reward credited so far.
#[derive(Clone, Copy, Debug)]
pub struct RewardBox {
    pub balance: u64,
    pub bump: u8,
}

/// An account that can hold and receive funds: its key and its lamport balance.
#[derive(Clone, Copy, Debug)]
pub struct Wallet {
    pub key: UserKey,
    pub lamports: u64,
}

/// Why an operation was refused. A refused operation changes nothing.
#[derive(Clone, Copy, Debug, PartialEq, Eq, Structural)]
pub enum VaultError {
    Unauthorized,
    InsufficientFunds,
    AlreadyInitialized,
    ClockRegression,
    ArithmeticOverflow,
}

/// The outcome of an operation whose refusal, if any, is `e`.
pub open spec fn outcome(e: Option<VaultError>) -> Result<(), VaultError> {
    match e {
        Some(err) => Err(err),
        None => Ok(()),
    }
}

} // verus!
