use garden_sol::{
    fund_treasury, update_task_completion, withdraw_funds, Address, ErrorCode, FundTreasury,
    Project, Transfer, UpdateTaskCompletion, WithdrawFunds,
};

fn addr(n: u8) -> Address {
    Address::new([n; 32])
}

fn project(creator: Address, admins: Vec<Address>, balance: u64) -> Project {
    Project {
        name: String::from("Garden"),
        creator,
        admins,
        members: vec![addr(30)],
        github_enabled: true,
        jira_enabled: false,
        created_at: 99,
        tasks_completed: 10,
        total_tasks: 100,
        treasury_balance: balance,
        bump: 253,
    }
}

#[test]
fn admins_and_creator_are_authorized() {
    let p = project(addr(1), vec![addr(1), addr(2)], 0);
    assert!(p.authorizes(&addr(1)));
    assert!(p.authorizes(&addr(2)));
    assert!(!p.authorizes(&addr(30)));
    assert!(!p.authorizes(&Address::zero()));
    let q = project(addr(1), vec![addr(2)], 0);
    assert!(q.authorizes(&addr(1)));
}

#[test]
fn progress_may_go_up_and_down() {
    let start = project(addr(1), vec![addr(1), addr(2)], 5);
    let mut ctx = UpdateTaskCompletion { project: start.clone(), authority: addr(2) };
    assert_eq!(update_task_completion(&mut ctx, 100), Ok(()));
    assert_eq!(ctx.project.tasks_completed, 100);
    assert_eq!(update_task_completion(&mut ctx, 0), Ok(()));
    assert_eq!(ctx.project.tasks_completed, 0);
    assert_eq!(update_task_completion(&mut ctx, 10), Ok(()));
    assert_eq!(ctx.project, start);
    assert_eq!(ctx.authority, addr(2));
}

#[test]
fn progress_is_bounded_by_the_total() {
    let mut ctx =
        UpdateTaskCompletion { project: project(addr(1), vec![addr(1)], 0), authority: addr(1) };
    let before = ctx.clone();
    assert_eq!(update_task_completion(&mut ctx, 101), Err(ErrorCode::InvalidTaskCount));
    assert_eq!(update_task_completion(&mut ctx, 255), Err(ErrorCode::InvalidTaskCount));
    assert_eq!(ctx, before);
}

#[test]
fn outsiders_cannot_update_whatever_the_count() {
    for who in [addr(3), addr(30), Address::zero()] {
        for count in [0u8, 10, 50, 100, 101, 255] {
            let mut ctx = UpdateTaskCompletion {
                project: project(addr(1), vec![addr(1), addr(2)], 0),
                authority: who,
            };
            let before = ctx.clone();
            assert_eq!(update_task_completion(&mut ctx, count), Err(ErrorCode::Unauthorized));
            assert_eq!(ctx, before);
        }
    }
}

#[test]
fn anyone_may_fund() {
    let mut ctx = FundTreasury { project: project(addr(1), vec![addr(1)], 5), funder: addr(77) };
    assert_eq!(fund_treasury(&mut ctx, 1), Ok(Transfer::Deposit { from: addr(77), amount: 1 }));
    assert_eq!(ctx.project, project(addr(1), vec![addr(1)], 6));
    assert_eq!(ctx.funder, addr(77));
}

#[test]
fn funding_is_checked_for_overflow() {
    let mut ctx = FundTreasury {
        project: project(addr(1), vec![addr(1)], u64::MAX - 1),
        funder: addr(1),
    };
    let before = ctx.clone();
    assert_eq!(fund_treasury(&mut ctx, 2), Err(ErrorCode::InvalidFundingAmount));
    assert_eq!(fund_treasury(&mut ctx, u64::MAX), Err(ErrorCode::InvalidFundingAmount));
    assert_eq!(ctx, before);
    assert_eq!(fund_treasury(&mut ctx, 1), Ok(Transfer::Deposit { from: addr(1), amount: 1 }));
    assert_eq!(ctx.project.treasury_balance, u64::MAX);
    assert_eq!(fund_treasury(&mut ctx, 1), Err(ErrorCode::InvalidFundingAmount));
    assert_eq!(ctx.project.treasury_balance, u64::MAX);
}

#[test]
fn withdrawal_checks_the_caller_first() {
    let p = project(addr(1), vec![addr(1)], 1000);
    for amount in [0u64, 1, 1000, 1001] {
        let mut ctx = WithdrawFunds { project: p.clone(), authority: addr(30), recipient: addr(30) };
        assert_eq!(withdraw_funds(&mut ctx, amount), Err(ErrorCode::UnauthorizedWithdrawal));
        assert_eq!(ctx.project, p);
    }
}

#[test]
fn withdrawal_checks_the_amount_then_the_balance() {
    let p = project(addr(1), vec![addr(1), addr(2)], 1000);
    let mut ctx = WithdrawFunds { project: p.clone(), authority: addr(2), recipient: addr(50) };
    assert_eq!(withdraw_funds(&mut ctx, 0), Err(ErrorCode::InvalidFundingAmount));
    assert_eq!(withdraw_funds(&mut ctx, 1001), Err(ErrorCode::WithdrawalExceedsBalance));
    assert_eq!(ctx.project, p);
    assert_eq!(withdraw_funds(&mut ctx, 1000), Ok(Transfer::Payout { to: addr(50), amount: 1000 }));
    assert_eq!(ctx.project, project(addr(1), vec![addr(1), addr(2)], 0));
    assert_eq!(withdraw_funds(&mut ctx, 1), Err(ErrorCode::WithdrawalExceedsBalance));
    assert_eq!(withdraw_funds(&mut ctx, 0), Err(ErrorCode::InvalidFundingAmount));
}

#[test]
fn withdrawal_from_an_empty_treasury() {
    let mut ctx = WithdrawFunds {
        project: project(addr(1), vec![addr(1)], 0),
        authority: addr(1),
        recipient: Address::zero(),
    };
    assert_eq!(withdraw_funds(&mut ctx, 1), Err(ErrorCode::WithdrawalExceedsBalance));
    assert_eq!(ctx.project.treasury_balance, 0);
}

#[test]
fn balance_is_deposits_minus_withdrawals() {
    let a = addr(1);
    let mut p = project(a, vec![a], 0);
    let mut deposited: u64 = 0;
    let mut withdrawn: u64 = 0;
    let steps: [(bool, u64, u8); 8] = [
        (true, 500, 1),
        (false, 200, 1),
        (true, 0, 1),
        (false, 400, 1),
        (false, 100, 9),
        (true, 70, 9),
        (false, 370, 1),
        (false, 1, 1),
    ];
    for (deposit, amount, who) in steps {
        if deposit {
            let mut ctx = FundTreasury { project: p, funder: addr(who) };
            if fund_treasury(&mut ctx, amount).is_ok() {
                deposited += amount;
            }
            p = ctx.project;
        } else {
            let mut ctx = WithdrawFunds { project: p, authority: addr(who), recipient: addr(60) };
            if withdraw_funds(&mut ctx, amount).is_ok() {
                withdrawn += amount;
            }
            p = ctx.project;
        }
        assert_eq!(p.treasury_balance, deposited - withdrawn);
        assert!(p.tasks_completed <= p.total_tasks);
    }
    assert_eq!(deposited, 570);
    assert_eq!(withdrawn, 570);
    assert_eq!(p.treasury_balance, 0);
}

#[test]
fn every_error_has_its_message() {
    assert_eq!(
        ErrorCode::InvalidTaskCount.message(),
        "Invalid task count: cannot exceed total tasks"
    );
    assert_eq!(ErrorCode::EmptyProjectName.message(), "Project name cannot be empty");
    assert_eq!(
        ErrorCode::NameTooLong.message(),
        "Project name exceeds maximum length of 50 characters"
    );
    assert_eq!(ErrorCode::NoAdmins.message(), "Admin list cannot be empty");
    assert_eq!(ErrorCode::TooManyAdmins.message(), "Admin list exceeds maximum of 10 entries");
    assert_eq!(ErrorCode::TooManyMembers.message(), "Member list exceeds maximum of 50 entries");
    assert_eq!(ErrorCode::DuplicateAddress.message(), "Duplicate addresses not allowed");
    assert_eq!(ErrorCode::ZeroAddress.message(), "Zero address not allowed");
    assert_eq!(ErrorCode::CreatorNotInAdmins.message(), "Creator must be in admins list");
    assert_eq!(
        ErrorCode::Unauthorized.message(),
        "Unauthorized: only admins can perform this action"
    );
    assert_eq!(
        ErrorCode::InvalidFundingAmount.message(),
        "Invalid funding amount: must be greater than 0"
    );
    assert_eq!(
        ErrorCode::InsufficientTreasuryBalance.message(),
        "Insufficient treasury balance"
    );
    assert_eq!(
        ErrorCode::WithdrawalExceedsBalance.message(),
        "Withdrawal amount exceeds available balance"
    );
    assert_eq!(ErrorCode::UnauthorizedWithdrawal.message(), "Only admins can withdraw funds");
    assert_eq!(
        ErrorCode::AlreadyExists.message(),
        "A project already exists under this name and creator"
    );
    assert_eq!(
        ErrorCode::NoProjectAddress.message(),
        "No address can be derived for this project"
    );
}

#[test]
fn the_recipient_is_not_restricted() {
    let p = project(addr(1), vec![addr(1)], 10);
    for to in [addr(1), addr(30), addr(200), Address::zero()] {
        let mut ctx = WithdrawFunds { project: p.clone(), authority: addr(1), recipient: to };
        assert_eq!(withdraw_funds(&mut ctx, 4), Ok(Transfer::Payout { to, amount: 4 }));
        assert_eq!(ctx.project.treasury_balance, 6);
    }
}
