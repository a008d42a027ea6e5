//! Escrow accounts and the two requests that move value through them.
use crate::derivation::{canonical_escrow, check_derivation, program_address, seeds_view, signer_seed_list, signer_seeds, verify_escrow_address};
use crate::key::Key;
use vstd::prelude::*;

verus! {

/// Who an escrow account belongs to: nobody until the first deposit, then the
/// identity that made it, for good.
#[derive(Clone, Copy, Debug)]
pub enum Owner {
    Unclaimed,
    OwnedBy(Key),
}

/// `owner` is the identity `caller`.
pub open spec fn owned_by(owner: Owner, caller: Seq<u8>) -> bool {
    match owner {
        Owner::OwnedBy(k) => k@ == caller,
        Owner::Unclaimed => false,
    }
}

impl Owner {
    /// Whether the account belongs to `caller`.
    pub fn is_owned_by(&self, caller: &Key) -> (r: bool)
        ensures
            r == owned_by(*self, caller@),
    {
        match self {
            Owner::OwnedBy(k) => k.same(caller),
            Owner::Unclaimed => false,
        }
    }

    /// Whether nobody has claimed the account yet.
    pub fn is_unclaimed(&self) -> (r: bool)
        ensures
            r == (*self is Unclaimed),
    {
        match self {
            Owner::Unclaimed => true,
            Owner::OwnedBy(_) => false,
        }
    }
}

/// The record that an escrow account stores.
#[derive(Clone, Copy, Debug)]
pub struct UserAccount {
    pub owner: Owner,
}

/// Why a request was rejected.
#[derive(Clone, Copy, Debug, PartialEq, Eq, Structural)]
pub enum ErrorCode {
    /// The withdrawal exceeds what lies above the reserve.
    InsufficientFunds,
    /// The caller is not the account's owner.
    Unauthorized,
    /// The account's address is not the one derived from the caller.
    SeedsMismatch,
}

impl ErrorCode {
    /// The message that goes with the error.
    pub fn message(&self) -> (r: &'static str)
        ensures
            r@ == match self {
                ErrorCode::InsufficientFunds => "Insufficient funds"@,
                ErrorCode::Unauthorized => "Unauthorized"@,
                ErrorCode::SeedsMismatch => "A seeds constraint was violated"@,
            },
    {
        match self {
            ErrorCode::InsufficientFunds => "Insufficient funds",
            ErrorCode::Unauthorized => "Unauthorized",
            ErrorCode::SeedsMismatch => "A seeds constraint was violated",
        }
    }
}

/// An escrow account as the vault sees it.
#[derive(Clone, Copy, Debug)]
pub struct EscrowAccount {
    /// Where the account lives.
    pub address: Key,
    /// The nonce its address was derived with.
    pub bump: u8,
    /// Its stored record.
    pub data: UserAccount,
    /// The native value it holds.
    pub held: u64,
    /// The least value it must keep to stay stored.
    pub reserve: u64,
}

/// The account keeps at least its reserve.
pub open spec fn above_reserve(acct: EscrowAccount) -> bool {
    acct.held >= acct.reserve
}

/// What a deposit of `amount` by `caller` makes of `acct`: the first deposit
/// claims the account, a later one must come from its owner.
pub open spec fn deposit_step(acct: EscrowAccount, caller: Key, amount: u64) -> Result<EscrowAccount, ErrorCode> {
    if acct.data.owner is Unclaimed {
        Ok(EscrowAccount {
            data: UserAccount { owner: Owner::OwnedBy(caller) },
            held: (acct.held + amount) as u64,
            ..acct
        })
    } else if owned_by(acct.data.owner, caller@) {
        Ok(EscrowAccount { held: (acct.held + amount) as u64, ..acct })
    } else {
        Err(ErrorCode::Unauthorized)
    }
}

/// What a withdrawal of `amount` by `caller` makes of `acct`: only the owner
/// withdraws, and never below the reserve.
pub open spec fn withdraw_step(acct: EscrowAccount, caller: Key, amount: u64) -> Result<EscrowAccount, ErrorCode> {
    if !owned_by(acct.data.owner, caller@) {
        Err(ErrorCode::Unauthorized)
    } else if acct.held < acct.reserve || acct.held - acct.reserve < amount {
        Err(ErrorCode::InsufficientFunds)
    } else {
        Ok(EscrowAccount { held: (acct.held - amount) as u64, ..acct })
    }
}

/// A movement of native value that the ledger is to carry out.
#[derive(Clone, Debug)]
pub struct Transfer {
    pub from: Key,
    pub to: Key,
    pub amount: u64,
    /// For a transfer out of an escrow account: the seeds that re-derive its
    /// address, which stand in for a signature.
    pub signer_seeds: Option<Vec<Vec<u8>>>,
}

/// The accounts of a deposit.
#[derive(Clone, Copy, Debug)]
pub struct Deposit {
    pub program_id: Key,
    /// The depositor, who signed the request.
    pub user: Key,
    /// The depositor's escrow.
    pub user_account: EscrowAccount,
}

/// The accounts of a withdrawal.
#[derive(Clone, Copy, Debug)]
pub struct Withdraw {
    pub program_id: Key,
    /// The caller, who signed the request and receives the value.
    pub user: Key,
    /// The caller's escrow.
    pub user_account: EscrowAccount,
}

impl Deposit {
    /// The escrow is the canonical derived account of the depositor.
    pub open spec fn wf(&self) -> bool {
        canonical_escrow(self.program_id@, self.user@, self.user_account.address@, self.user_account.bump)
    }

    /// Gathers the accounts of a deposit. `stored` is the record and the value
    /// of the account at `address`, if it exists; otherwise it is created with
    /// no owner and funded with `reserve`. `None` when `address` is not the
    /// canonical escrow of `user`.
    pub fn try_accounts(program_id: Key, user: Key, address: Key, stored: Option<(UserAccount, u64)>, reserve: u64) -> (r: Option<Deposit>)
        ensures
            match r {
                Some(d) => {
                    &&& d.wf()
                    &&& d.program_id == program_id
                    &&& d.user == user
                    &&& d.user_account.address == address
                    &&& d.user_account.reserve == reserve
                    &&& match stored {
                        Some((data, held)) => d.user_account.data == data && d.user_account.held == held,
                        None => d.user_account.data.owner is Unclaimed && d.user_account.held == reserve,
                    }
                },
                None => forall|b: u8| !canonical_escrow(program_id@, user@, address@, b),
            },
    {
        match verify_escrow_address(&program_id, &user, &address) {
            Some(bump) => {
                let (data, held) = match stored {
                    Some((data, held)) => (data, held),
                    None => (UserAccount { owner: Owner::Unclaimed }, reserve),
                };
                Some(Deposit {
                    program_id,
                    user,
                    user_account: EscrowAccount { address, bump, data, held, reserve },
                })
            },
            None => None,
        }
    }
}

impl Withdraw {
    /// The escrow is the canonical derived account of the caller.
    pub open spec fn wf(&self) -> bool {
        canonical_escrow(self.program_id@, self.user@, self.user_account.address@, self.user_account.bump)
    }

    /// Gathers the accounts of a withdrawal from the existing account at
    /// `address`, which stores `data` and holds `held`. `None` when `address`
    /// is not the canonical escrow of `user`.
    pub fn try_accounts(program_id: Key, user: Key, address: Key, data: UserAccount, held: u64, reserve: u64) -> (r: Option<Withdraw>)
        ensures
            match r {
                Some(w) => {
                    &&& w.wf()
                    &&& w.program_id == program_id
                    &&& w.user == user
                    &&& w.user_account.address == address
                    &&& w.user_account.data == data
                    &&& w.user_account.held == held
                    &&& w.user_account.reserve == reserve
                },
                None => forall|b: u8| !canonical_escrow(program_id@, user@, address@, b),
            },
    {
        match verify_escrow_address(&program_id, &user, &address) {
            Some(bump) => Some(Withdraw {
                program_id,
                user,
                user_account: EscrowAccount { address, bump, data, held, reserve },
            }),
            None => None,
        }
    }
}

/// What a deposit makes of the escrow: a deposit into a claimed account by
/// anyone but its owner is unauthorized; otherwise the escrow must be the
/// caller's derived account, which the deposit then claims and credits.
pub open spec fn deposit_outcome(ctx: Deposit, amount: u64) -> Result<EscrowAccount, ErrorCode> {
    match deposit_step(ctx.user_account, ctx.user, amount) {
        Err(e) => Err(e),
        Ok(a) => if ctx.wf() {
            Ok(a)
        } else {
            Err(ErrorCode::SeedsMismatch)
        },
    }
}

/// What a withdrawal makes of the escrow: only the owner withdraws, only from
/// the account derived from the owner's identity, and never below the
/// reserve.
pub open spec fn withdraw_outcome(ctx: Withdraw, amount: u64) -> Result<EscrowAccount, ErrorCode> {
    if !owned_by(ctx.user_account.data.owner, ctx.user@) {
        Err(ErrorCode::Unauthorized)
    } else if !ctx.wf() {
        Err(ErrorCode::SeedsMismatch)
    } else {
        withdraw_step(ctx.user_account, ctx.user, amount)
    }
}

/// Deposits `amount` from the caller into their escrow, claiming it on first
/// use. The escrow must be the account derived from the caller's identity.
/// On success the account holds `amount` more and the returned transfer
/// moves it there; on failure nothing changes.
pub fn deposit(ctx: &mut Deposit, amount: u64) -> (r: Result<Transfer, ErrorCode>)
    requires
        old(ctx).user_account.held + amount <= u64::MAX,
    ensures
        final(ctx).program_id == old(ctx).program_id,
        final(ctx).user == old(ctx).user,
        !old(ctx).wf() ==> r is Err && *final(ctx) == *old(ctx),
        above_reserve(old(ctx).user_account) ==> above_reserve(final(ctx).user_account),
        match r {
            Ok(t) => {
                &&& deposit_outcome(*old(ctx), amount) == Ok::<EscrowAccount, ErrorCode>(final(ctx).user_account)
                &&& t.from == old(ctx).user
                &&& t.to == old(ctx).user_account.address
                &&& t.amount == amount
                &&& t.signer_seeds is None
            },
            Err(e) => {
                &&& deposit_outcome(*old(ctx), amount) == Err::<EscrowAccount, ErrorCode>(e)
                &&& final(ctx).user_account == old(ctx).user_account
            },
        },
{
    let unclaimed = ctx.user_account.data.owner.is_unclaimed();
    if !unclaimed && !ctx.user_account.data.owner.is_owned_by(&ctx.user) {
        return Err(ErrorCode::Unauthorized);
    }
    if !check_derivation(&ctx.program_id, &ctx.user, &ctx.user_account.address, ctx.user_account.bump) {
        return Err(ErrorCode::SeedsMismatch);
    }
    if unclaimed {
        ctx.user_account.data.owner = Owner::OwnedBy(ctx.user);
    }
    ctx.user_account.held = ctx.user_account.held + amount;
    Ok(Transfer { from: ctx.user, to: ctx.user_account.address, amount, signer_seeds: None })
}

/// Withdraws `amount` from the caller's escrow back to the caller. Only the
/// owner may withdraw, only from the account derived from the owner's
/// identity, and at most what lies above the reserve. The returned
/// transfer is authorised by the seeds that re-derive the escrow's address
/// from the caller's identity.
pub fn withdraw(ctx: &mut Withdraw, amount: u64) -> (r: Result<Transfer, ErrorCode>)
    ensures
        final(ctx).program_id == old(ctx).program_id,
        final(ctx).user == old(ctx).user,
        !old(ctx).wf() ==> r is Err && *final(ctx) == *old(ctx),
        r is Ok ==> above_reserve(final(ctx).user_account),
        above_reserve(old(ctx).user_account) ==> above_reserve(final(ctx).user_account),
        match r {
            Ok(t) => {
                &&& withdraw_outcome(*old(ctx), amount) == Ok::<EscrowAccount, ErrorCode>(final(ctx).user_account)
                &&& t.from == old(ctx).user_account.address
                &&& t.to == old(ctx).user
                &&& t.amount == amount
                &&& t.signer_seeds is Some
                &&& seeds_view(t.signer_seeds->0@) == signer_seeds(old(ctx).user@, old(ctx).user_account.bump)
                &&& program_address(seeds_view(t.signer_seeds->0@), old(ctx).program_id@) == Some(t.from@)
            },
            Err(e) => {
                &&& withdraw_outcome(*old(ctx), amount) == Err::<EscrowAccount, ErrorCode>(e)
                &&& final(ctx).user_account == old(ctx).user_account
            },
        },
{
    if !ctx.user_account.data.owner.is_owned_by(&ctx.user) {
        return Err(ErrorCode::Unauthorized);
    }
    if !check_derivation(&ctx.program_id, &ctx.user, &ctx.user_account.address, ctx.user_account.bump) {
        return Err(ErrorCode::SeedsMismatch);
    }
    let available = match ctx.user_account.held.checked_sub(ctx.user_account.reserve) {
        Some(a) => a,
        None => return Err(ErrorCode::InsufficientFunds),
    };
    if available < amount {
        return Err(ErrorCode::InsufficientFunds);
    }
    let seeds = signer_seed_list(&ctx.user, ctx.user_account.bump);
    ctx.user_account.held = ctx.user_account.held - amount;
    Ok(Transfer { from: ctx.user_account.address, to: ctx.user, amount, signer_seeds: Some(seeds) })
}

} // verus!
