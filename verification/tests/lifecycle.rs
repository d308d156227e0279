use garden_sol::registry::Registry;
use garden_sol::{
    fund_treasury, initialize_project, project_address, update_task_completion, withdraw_funds,
    Address, ErrorCode, FundTreasury, InitializeProject, Project, Transfer,
    UpdateTaskCompletion, WithdrawFunds,
};

fn addr(n: u8) -> Address {
    Address::new([n; 32])
}

fn garden(creator: Address) -> Project {
    let mut ctx = InitializeProject { project: None, creator, unix_timestamp: 1_700_000_000, bump: 254 };
    let made = initialize_project(
        &mut ctx,
        String::from("Garden"),
        vec![creator],
        vec![],
        false,
        false,
    );
    assert_eq!(made, Ok(()));
    ctx.project.unwrap()
}

#[test]
fn a_new_garden_starts_empty() {
    let a = addr(1);
    let p = garden(a);
    assert_eq!(p.name, "Garden");
    assert_eq!(p.creator, a);
    assert_eq!(p.admins, vec![a]);
    assert!(p.members.is_empty());
    assert!(!p.github_enabled);
    assert!(!p.jira_enabled);
    assert_eq!(p.created_at, 1_700_000_000);
    assert_eq!(p.tasks_completed, 0);
    assert_eq!(p.total_tasks, 100);
    assert_eq!(p.treasury_balance, 0);
    assert_eq!(p.bump, 254);
}

#[test]
fn a_new_garden_is_found_in_the_registry() {
    let a = addr(1);
    let mut registry = Registry::new(addr(9));
    let id = registry
        .create(String::from("Garden"), vec![a], vec![], false, false, a, 12)
        .unwrap();
    assert!(registry.contains(&id));
    let p = registry.get(&id).unwrap();
    assert_eq!(p.tasks_completed, 0);
    assert_eq!(p.total_tasks, 100);
    assert_eq!(p.treasury_balance, 0);
    assert_eq!(p.created_at, 12);
    assert_eq!(p.creator, a);
    let (derived, bump) = project_address("Garden", &a, &addr(9)).unwrap();
    assert_eq!(derived, id);
    assert_eq!(p.bump, bump);
}

#[test]
fn a_deposit_of_nothing_is_refused() {
    let a = addr(1);
    let mut ctx = FundTreasury { project: garden(a), funder: a };
    assert_eq!(fund_treasury(&mut ctx, 1000), Ok(Transfer::Deposit { from: a, amount: 1000 }));
    assert_eq!(ctx.project.treasury_balance, 1000);
    let before = ctx.clone();
    assert_eq!(fund_treasury(&mut ctx, 0), Err(ErrorCode::InvalidFundingAmount));
    assert_eq!(ctx.project.treasury_balance, 1000);
    assert_eq!(ctx, before);
}

#[test]
fn a_withdrawal_is_bounded_by_the_balance() {
    let a = addr(1);
    let r = addr(7);
    let mut project = garden(a);
    project.treasury_balance = 1000;
    let mut ctx = WithdrawFunds { project, authority: a, recipient: r };
    let before = ctx.clone();
    assert_eq!(withdraw_funds(&mut ctx, 1500), Err(ErrorCode::WithdrawalExceedsBalance));
    assert_eq!(ctx.project.treasury_balance, 1000);
    assert_eq!(ctx, before);
    assert_eq!(withdraw_funds(&mut ctx, 600), Ok(Transfer::Payout { to: r, amount: 600 }));
    assert_eq!(ctx.project.treasury_balance, 400);
    assert_eq!(ctx.recipient, r);
    assert_eq!(ctx.authority, a);
}

#[test]
fn progress_is_set_by_admins_within_the_total() {
    let a = addr(1);
    let x = addr(2);
    let mut outsider = UpdateTaskCompletion { project: garden(a), authority: x };
    assert_eq!(update_task_completion(&mut outsider, 50), Err(ErrorCode::Unauthorized));
    assert_eq!(outsider.project.tasks_completed, 0);
    let mut ctx = UpdateTaskCompletion { project: outsider.project, authority: a };
    assert_eq!(update_task_completion(&mut ctx, 150), Err(ErrorCode::InvalidTaskCount));
    assert_eq!(ctx.project.tasks_completed, 0);
    assert_eq!(update_task_completion(&mut ctx, 50), Ok(()));
    assert_eq!(ctx.project.tasks_completed, 50);
}

#[test]
fn an_admin_listed_twice_is_refused() {
    let a = addr(1);
    let mut ctx = InitializeProject { project: None, creator: a, unix_timestamp: 1, bump: 255 };
    let made =
        initialize_project(&mut ctx, String::from("Garden"), vec![a, a], vec![], false, false);
    assert_eq!(made, Err(ErrorCode::DuplicateAddress));
    assert_eq!(ctx.project, None);
    let mut registry = Registry::new(addr(9));
    let made = registry.create(String::from("Garden"), vec![a, a], vec![], false, false, a, 1);
    assert_eq!(made, Err(ErrorCode::DuplicateAddress));
    let (id, _) = project_address("Garden", &a, &addr(9)).unwrap();
    assert!(!registry.contains(&id));
    assert!(registry.get(&id).is_none());
}

#[test]
fn a_project_stays_within_its_bounds() {
    let a = addr(1);
    let admins: Vec<Address> = (1..=10).map(addr).collect();
    let members: Vec<Address> = (1..=50).map(addr).collect();
    let mut ctx = InitializeProject { project: None, creator: a, unix_timestamp: 8, bump: 255 };
    let made = initialize_project(
        &mut ctx,
        String::from("Garden"),
        admins.clone(),
        members.clone(),
        true,
        true,
    );
    assert_eq!(made, Ok(()));
    let mut p = ctx.project.unwrap();
    for step in 0u64..6 {
        let mut update =
            UpdateTaskCompletion { project: p, authority: addr(1 + (step as u8) * 3) };
        let _ = update_task_completion(&mut update, (step * 37 % 130) as u8);
        let mut fund = FundTreasury { project: update.project, funder: addr(90) };
        let _ = fund_treasury(&mut fund, step * 100);
        let mut withdraw =
            WithdrawFunds { project: fund.project, authority: addr(10), recipient: addr(91) };
        let _ = withdraw_funds(&mut withdraw, step * 60);
        p = withdraw.project;
        assert!(p.tasks_completed <= p.total_tasks);
        assert_eq!(p.total_tasks, 100);
        assert_eq!(p.name, "Garden");
        assert_eq!(p.creator, a);
        assert_eq!(p.admins, admins);
        assert_eq!(p.members, members);
        assert!((1..=10).contains(&p.admins.len()));
        assert!(p.members.len() <= 50);
        assert_eq!(garden_sol::address::validate_addresses(&p.admins), Ok(()));
        assert_eq!(garden_sol::address::validate_addresses(&p.members), Ok(()));
    }
    assert_eq!(p.treasury_balance, (100 + 200 + 300 + 400 + 500) - (60 + 120 + 180 + 240 + 300));
    assert_eq!(p.tasks_completed, 74);
}
