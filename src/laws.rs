//! What holds of every escrow account across deposits and withdrawals.
use crate::key::Key;
use crate::vault::{above_reserve, deposit_outcome, owned_by, withdraw_outcome, Deposit, EscrowAccount, ErrorCode, Withdraw};
use vstd::prelude::*;

verus! {

/// What a request asks of the vault.
#[derive(Clone, Copy, Debug)]
pub enum Instruction {
    Deposit { amount: u64 },
    Withdraw { amount: u64 },
}

/// A request: a signed caller and what it asks.
#[derive(Clone, Copy, Debug)]
pub struct Request {
    pub caller: Key,
    pub instruction: Instruction,
}

/// The account after `req`, made under `program_id`: a rejected request
/// leaves it as it was.
pub open spec fn apply(program_id: Key, acct: EscrowAccount, req: Request) -> EscrowAccount {
    let r = match req.instruction {
        Instruction::Deposit { amount } => deposit_outcome(
            (Deposit { program_id, user: req.caller, user_account: acct }),
            amount,
        ),
        Instruction::Withdraw { amount } => withdraw_outcome(
            (Withdraw { program_id, user: req.caller, user_account: acct }),
            amount,
        ),
    };
    match r {
        Ok(a) => a,
        Err(_) => acct,
    }
}

/// The account after the requests `reqs`, one at a time.
pub open spec fn run(program_id: Key, acct: EscrowAccount, reqs: Seq<Request>) -> EscrowAccount
    decreases reqs.len(),
{
    if reqs.len() == 0 {
        acct
    } else {
        run(program_id, apply(program_id, acct, reqs[0]), reqs.drop_first())
    }
}

/// No deposit among `reqs` would take the account past the largest value.
pub open spec fn fits(program_id: Key, acct: EscrowAccount, reqs: Seq<Request>) -> bool
    decreases reqs.len(),
{
    if reqs.len() == 0 {
        true
    } else {
        &&& match reqs[0].instruction {
            Instruction::Deposit { amount } => acct.held + amount <= u64::MAX,
            Instruction::Withdraw { .. } => true,
        }
        &&& fits(program_id, apply(program_id, acct, reqs[0]), reqs.drop_first())
    }
}

/// The first deposit into an unclaimed account derived from the depositor
/// binds it to the depositor; afterwards a deposit from anyone else is
/// refused as unauthorized, and the owner's own deposits leave the owner as
/// it is.
pub proof fn lemma_first_claim(ctx: Deposit, second: Key, a1: u64, a2: u64)
    requires
        ctx.wf(),
        ctx.user_account.data.owner is Unclaimed,
        ctx.user@ != second@,
        ctx.user_account.held + a1 <= u64::MAX,
    ensures
        deposit_outcome(ctx, a1) is Ok,
        owned_by(deposit_outcome(ctx, a1)->Ok_0.data.owner, ctx.user@),
        deposit_outcome(ctx, a1)->Ok_0.held == ctx.user_account.held + a1,
        deposit_outcome(
            (Deposit { user: second, user_account: deposit_outcome(ctx, a1)->Ok_0, ..ctx }),
            a2,
        ) == Err::<EscrowAccount, ErrorCode>(ErrorCode::Unauthorized),
        deposit_outcome((Deposit { user_account: deposit_outcome(ctx, a1)->Ok_0, ..ctx }), a2) is Ok,
        deposit_outcome((Deposit { user_account: deposit_outcome(ctx, a1)->Ok_0, ..ctx }), a2)->Ok_0.data.owner
            == deposit_outcome(ctx, a1)->Ok_0.data.owner,
{
}

/// Once an account has an owner, no request changes it.
pub proof fn lemma_owner_is_fixed(program_id: Key, acct: EscrowAccount, reqs: Seq<Request>)
    requires
        acct.data.owner is OwnedBy,
    ensures
        run(program_id, acct, reqs).data.owner == acct.data.owner,
    decreases reqs.len(),
{
    if reqs.len() > 0 {
        lemma_owner_is_fixed(program_id, apply(program_id, acct, reqs[0]), reqs.drop_first());
    }
}

/// A deposit of `amount` that is accepted adds exactly `amount`.
pub proof fn lemma_deposit_adds(ctx: Deposit, amount: u64)
    requires
        ctx.user_account.held + amount <= u64::MAX,
        deposit_outcome(ctx, amount) is Ok,
    ensures
        deposit_outcome(ctx, amount)->Ok_0.held == ctx.user_account.held + amount,
{
}

/// An account that starts at or above its reserve stays there through any
/// sequence of deposits and withdrawals; a withdrawal by the owner that would
/// take it below is refused (see `lemma_overdraw_refused`).
pub proof fn lemma_reserve_floor(program_id: Key, acct: EscrowAccount, reqs: Seq<Request>)
    requires
        above_reserve(acct),
        fits(program_id, acct, reqs),
    ensures
        above_reserve(run(program_id, acct, reqs)),
        run(program_id, acct, reqs).reserve == acct.reserve,
    decreases reqs.len(),
{
    if reqs.len() > 0 {
        lemma_reserve_floor(program_id, apply(program_id, acct, reqs[0]), reqs.drop_first());
    }
}

/// The owner's withdrawal of more than lies above the reserve is refused
/// with `InsufficientFunds`.
pub proof fn lemma_overdraw_refused(ctx: Withdraw, amount: u64)
    requires
        ctx.wf(),
        owned_by(ctx.user_account.data.owner, ctx.user@),
        ctx.user_account.held < ctx.user_account.reserve + amount,
    ensures
        withdraw_outcome(ctx, amount) == Err::<EscrowAccount, ErrorCode>(ErrorCode::InsufficientFunds),
{
}

/// A withdrawal by anyone but the owner is refused with `Unauthorized`,
/// whatever the amount, the address, and what the account holds.
pub proof fn lemma_withdraw_needs_owner(ctx: Withdraw, amount: u64)
    requires
        !owned_by(ctx.user_account.data.owner, ctx.user@),
    ensures
        withdraw_outcome(ctx, amount) == Err::<EscrowAccount, ErrorCode>(ErrorCode::Unauthorized),
{
}

/// The owner may withdraw exactly what lies above the reserve, which leaves
/// the account at its reserve, and not one unit more.
pub proof fn lemma_exact_boundary(ctx: Withdraw)
    requires
        ctx.wf(),
        owned_by(ctx.user_account.data.owner, ctx.user@),
        ctx.user_account.held >= ctx.user_account.reserve,
    ensures
        withdraw_outcome(ctx, (ctx.user_account.held - ctx.user_account.reserve) as u64) is Ok,
        withdraw_outcome(ctx, (ctx.user_account.held - ctx.user_account.reserve) as u64)->Ok_0.held
            == ctx.user_account.reserve,
        ctx.user_account.held - ctx.user_account.reserve < u64::MAX ==> withdraw_outcome(
            ctx,
            (ctx.user_account.held - ctx.user_account.reserve + 1) as u64,
        ) == Err::<EscrowAccount, ErrorCode>(ErrorCode::InsufficientFunds),
{
}

/// Two identities that each claim their own derived account own theirs, with
/// the value each deposited; and no request of either touches the other's
/// account.
pub proof fn lemma_independence(d1: Deposit, d2: Deposit, x1: u64, x2: u64, reqs: Seq<Request>)
    requires
        d1.wf(),
        d2.wf(),
        d1.program_id == d2.program_id,
        d1.user@ != d2.user@,
        d1.user_account.data.owner is Unclaimed,
        d2.user_account.data.owner is Unclaimed,
        d1.user_account.held + x1 <= u64::MAX,
        d2.user_account.held + x2 <= u64::MAX,
    ensures
        owned_by(deposit_outcome(d1, x1)->Ok_0.data.owner, d1.user@),
        owned_by(deposit_outcome(d2, x2)->Ok_0.data.owner, d2.user@),
        deposit_outcome(d1, x1)->Ok_0.held == d1.user_account.held + x1,
        deposit_outcome(d2, x2)->Ok_0.held == d2.user_account.held + x2,
        (forall|i: int| 0 <= i < reqs.len() ==> (#[trigger] reqs[i]).caller@ == d2.user@)
            ==> run(d1.program_id, deposit_outcome(d1, x1)->Ok_0, reqs) == deposit_outcome(d1, x1)->Ok_0,
        (forall|i: int| 0 <= i < reqs.len() ==> (#[trigger] reqs[i]).caller@ == d1.user@)
            ==> run(d2.program_id, deposit_outcome(d2, x2)->Ok_0, reqs) == deposit_outcome(d2, x2)->Ok_0,
{
    let b1 = deposit_outcome(d1, x1)->Ok_0;
    let b2 = deposit_outcome(d2, x2)->Ok_0;
    if forall|i: int| 0 <= i < reqs.len() ==> (#[trigger] reqs[i]).caller@ == d2.user@ {
        lemma_untouched_by(d1.program_id, b1, d2.user, reqs);
    }
    if forall|i: int| 0 <= i < reqs.len() ==> (#[trigger] reqs[i]).caller@ == d1.user@ {
        lemma_untouched_by(d2.program_id, b2, d1.user, reqs);
    }
}

/// Requests that all come from someone other than the owner leave the
/// account unchanged.
pub proof fn lemma_untouched_by(program_id: Key, acct: EscrowAccount, other: Key, reqs: Seq<Request>)
    requires
        acct.data.owner is OwnedBy,
        !owned_by(acct.data.owner, other@),
        forall|i: int| 0 <= i < reqs.len() ==> (#[trigger] reqs[i]).caller@ == other@,
    ensures
        run(program_id, acct, reqs) == acct,
    decreases reqs.len(),
{
    if reqs.len() > 0 {
        assert(reqs[0].caller@ == other@);
        assert(apply(program_id, acct, reqs[0]) == acct);
        assert forall|i: int| 0 <= i < reqs.drop_first().len() implies (#[trigger] reqs.drop_first()[i]).caller@ == other@ by {
            assert(reqs.drop_first()[i] == reqs[i + 1]);
        }
        lemma_untouched_by(program_id, acct, other, reqs.drop_first());
    }
}

} // verus!
