use vstd::prelude::*;
use crate::address::Address;
use crate::error::ErrorCode;
use crate::project::{Project, ProjectView};

verus! {

/// What a progress update works on: the record and the caller.
#[derive(Clone, Debug, PartialEq, Eq)]
pub struct UpdateTaskCompletion {
    pub project: Project,
    pub authority: Address,
}

/// What a deposit works on: the record and the one who pays.
#[derive(Clone, Debug, PartialEq, Eq)]
pub struct FundTreasury {
    pub project: Project,
    pub funder: Address,
}

/// What a withdrawal works on: the record, the caller, and the one who is
/// paid.
#[derive(Clone, Debug, PartialEq, Eq)]
pub struct WithdrawFunds {
    pub project: Project,
    pub authority: Address,
    pub recipient: Address,
}

/// A movement of funds that goes with a change of the treasury. The funds
/// pool makes it together with the change of the record, or not at all.
#[derive(Clone, Copy, Debug, PartialEq, Eq)]
pub enum Transfer {
    /// `amount` goes from `from` to the holding of the project.
    Deposit { from: Address, amount: u64 },
    /// `amount` goes from the holding of the project to `to`.
    Payout { to: Address, amount: u64 },
}

/// What a progress update by `who` to `count` answers: the caller is looked
/// at first, then the count.
pub open spec fn progress_verdict(p: ProjectView, who: Address, count: u8) -> Result<
    (),
    ErrorCode,
> {
    if !p.authorizes(who) {
        Err(ErrorCode::Unauthorized)
    } else if count > p.total_tasks {
        Err(ErrorCode::InvalidTaskCount)
    } else {
        Ok(())
    }
}

/// What a deposit of `amount` by `funder` answers: the movement to make, or
/// an error where the amount is zero or too much for the balance to take.
pub open spec fn funding_verdict(p: ProjectView, funder: Address, amount: u64) -> Result<
    Transfer,
    ErrorCode,
> {
    if amount == 0 || p.treasury_balance + amount > u64::MAX {
        Err(ErrorCode::InvalidFundingAmount)
    } else {
        Ok(Transfer::Deposit { from: funder, amount })
    }
}

/// What a withdrawal of `amount` by `who` in favour of `recipient` answers:
/// the movement to make, or an error. The caller is looked at first, then
/// the amount, then the balance; the recipient is not looked at.
pub open spec fn withdrawal_verdict(
    p: ProjectView,
    who: Address,
    recipient: Address,
    amount: u64,
) -> Result<Transfer, ErrorCode> {
    if !p.authorizes(who) {
        Err(ErrorCode::UnauthorizedWithdrawal)
    } else if amount == 0 {
        Err(ErrorCode::InvalidFundingAmount)
    } else if amount > p.treasury_balance {
        Err(ErrorCode::WithdrawalExceedsBalance)
    } else {
        Ok(Transfer::Payout { to: recipient, amount })
    }
}

/// The record with its progress set to `count`.
pub open spec fn with_progress(p: ProjectView, count: u8) -> ProjectView {
    ProjectView { tasks_completed: count, ..p }
}

/// The record with `amount` more in its treasury.
pub open spec fn with_deposit(p: ProjectView, amount: u64) -> ProjectView {
    ProjectView { treasury_balance: (p.treasury_balance + amount) as u64, ..p }
}

/// The record with `amount` less in its treasury.
pub open spec fn with_withdrawal(p: ProjectView, amount: u64) -> ProjectView {
    ProjectView { treasury_balance: (p.treasury_balance - amount) as u64, ..p }
}

/// A request to change a project.
pub enum Request {
    /// `who` sets the number of completed tasks to `count`.
    Progress { who: Address, count: u8 },
    /// `from` pays `amount` into the treasury.
    Fund { from: Address, amount: u64 },
    /// `who` takes `amount` out of the treasury, in favour of `to`.
    Withdraw { who: Address, to: Address, amount: u64 },
}

/// Whether a request is granted on a project.
pub open spec fn granted(p: ProjectView, request: Request) -> bool {
    match request {
        Request::Progress { who, count } => progress_verdict(p, who, count) is Ok,
        Request::Fund { from, amount } => funding_verdict(p, from, amount) is Ok,
        Request::Withdraw { who, to, amount } => withdrawal_verdict(p, who, to, amount) is Ok,
    }
}

/// The project after a request: changed where the request is granted, as
/// before where it is refused.
pub open spec fn applied(p: ProjectView, request: Request) -> ProjectView {
    if !granted(p, request) {
        p
    } else {
        match request {
            Request::Progress { who, count } => with_progress(p, count),
            Request::Fund { from, amount } => with_deposit(p, amount),
            Request::Withdraw { who, to, amount } => with_withdrawal(p, amount),
        }
    }
}

/// Sets the number of completed tasks. Only the creator and the admins may,
/// and the count may not exceed the project's total. The count may go up or
/// down; nothing else changes, and nothing at all where the call fails.
pub fn update_task_completion(ctx: &mut UpdateTaskCompletion, tasks_completed: u8) -> (r: Result<
    (),
    ErrorCode,
>)
    ensures
        r == progress_verdict(old(ctx).project@, old(ctx).authority, tasks_completed),
        final(ctx).project@ == applied(
            old(ctx).project@,
            Request::Progress { who: old(ctx).authority, count: tasks_completed },
        ),
        r is Err ==> *final(ctx) == *old(ctx),
        final(ctx).authority == old(ctx).authority,
        old(ctx).project@.valid() ==> final(ctx).project@.valid(),
{
    if !ctx.project.authorizes(&ctx.authority) {
        return Err(ErrorCode::Unauthorized);
    }
    if tasks_completed > ctx.project.total_tasks {
        return Err(ErrorCode::InvalidTaskCount);
    }
    ctx.project.tasks_completed = tasks_completed;
    Ok(())
}

/// Adds `amount` to the treasury and names the movement that brings it from
/// the funder. Anyone may pay in. The amount must be positive and the sum
/// must fit the balance; where the call fails nothing changes and nothing is
/// to be moved.
pub fn fund_treasury(ctx: &mut FundTreasury, amount: u64) -> (r: Result<Transfer, ErrorCode>)
    ensures
        r == funding_verdict(old(ctx).project@, old(ctx).funder, amount),
        final(ctx).project@ == applied(
            old(ctx).project@,
            Request::Fund { from: old(ctx).funder, amount },
        ),
        r is Err ==> *final(ctx) == *old(ctx),
        final(ctx).funder == old(ctx).funder,
        old(ctx).project@.valid() ==> final(ctx).project@.valid(),
{
    if amount == 0 {
        return Err(ErrorCode::InvalidFundingAmount);
    }
    match ctx.project.treasury_balance.checked_add(amount) {
        Some(sum) => {
            ctx.project.treasury_balance = sum;
            Ok(Transfer::Deposit { from: ctx.funder, amount })
        },
        None => Err(ErrorCode::InvalidFundingAmount),
    }
}

/// Takes `amount` out of the treasury and names the movement that brings it
/// to the recipient. Only the creator and the admins may; the amount must be
/// positive and no more than the balance. Who is paid is for the caller to
/// choose. Where the call fails nothing changes and nothing is to be moved.
pub fn withdraw_funds(ctx: &mut WithdrawFunds, amount: u64) -> (r: Result<Transfer, ErrorCode>)
    ensures
        r == withdrawal_verdict(
            old(ctx).project@,
            old(ctx).authority,
            old(ctx).recipient,
            amount,
        ),
        final(ctx).project@ == applied(
            old(ctx).project@,
            Request::Withdraw { who: old(ctx).authority, to: old(ctx).recipient, amount },
        ),
        r is Err ==> *final(ctx) == *old(ctx),
        final(ctx).authority == old(ctx).authority,
        final(ctx).recipient == old(ctx).recipient,
        old(ctx).project@.valid() ==> final(ctx).project@.valid(),
{
    if !ctx.project.authorizes(&ctx.authority) {
        return Err(ErrorCode::UnauthorizedWithdrawal);
    }
    if amount == 0 {
        return Err(ErrorCode::InvalidFundingAmount);
    }
    if amount > ctx.project.treasury_balance {
        return Err(ErrorCode::WithdrawalExceedsBalance);
    }
    match ctx.project.treasury_balance.checked_sub(amount) {
        Some(rest) => {
            ctx.project.treasury_balance = rest;
            Ok(Transfer::Payout { to: ctx.recipient, amount })
        },
        None => Err(ErrorCode::WithdrawalExceedsBalance),
    }
}

} // verus!
