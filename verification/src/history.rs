use vstd::prelude::*;
use crate::address::Address;
use crate::engine::{applied, funding_verdict, progress_verdict, withdrawal_verdict, Request};
use crate::error::ErrorCode;
use crate::project::{founded, founding_verdict, lemma_founding_ok, ProjectView};

verus! {

/// The project after a sequence of requests, taken in order.
pub open spec fn replay(p: ProjectView, requests: Seq<Request>) -> ProjectView
    decreases requests.len(),
{
    if requests.len() == 0 {
        p
    } else {
        applied(replay(p, requests.drop_last()), requests.last())
    }
}

/// The sum of the deposits that were granted in a sequence of requests.
pub open spec fn deposited(p: ProjectView, requests: Seq<Request>) -> int
    decreases requests.len(),
{
    if requests.len() == 0 {
        0
    } else {
        let before = replay(p, requests.drop_last());
        let earlier = deposited(p, requests.drop_last());
        match requests.last() {
            Request::Fund { from, amount } => if funding_verdict(before, from, amount) is Ok {
                earlier + amount
            } else {
                earlier
            },
            _ => earlier,
        }
    }
}

/// The sum of the withdrawals that were granted in a sequence of requests.
pub open spec fn withdrawn(p: ProjectView, requests: Seq<Request>) -> int
    decreases requests.len(),
{
    if requests.len() == 0 {
        0
    } else {
        let before = replay(p, requests.drop_last());
        let earlier = withdrawn(p, requests.drop_last());
        match requests.last() {
            Request::Withdraw { who, to, amount } => if withdrawal_verdict(
                before,
                who,
                to,
                amount,
            ) is Ok {
                earlier + amount
            } else {
                earlier
            },
            _ => earlier,
        }
    }
}

/// A project made by an accepted request is valid: its name and
/// its lists are within their bounds, no list holds the zero address or an
/// address twice, no task is completed and the treasury is empty.
pub proof fn law_founded_is_valid(
    name: Seq<char>,
    creator: Address,
    admins: Seq<Address>,
    members: Seq<Address>,
    github_enabled: bool,
    jira_enabled: bool,
    created_at: i64,
    bump: u8,
)
    requires
        founding_verdict(name, admins, members, creator) is Ok,
    ensures
        founded(
            name,
            creator,
            admins,
            members,
            github_enabled,
            jira_enabled,
            created_at,
            bump,
        ).valid(),
{
    lemma_founding_ok(name, admins, members, creator);
}

/// Whatever is asked of a valid project, granted or refused, it stays
/// valid, and its name, creator, admins and members stay what they are.
pub proof fn law_validity_is_kept(p: ProjectView, requests: Seq<Request>)
    requires
        p.valid(),
    ensures
        replay(p, requests).valid(),
        replay(p, requests).name == p.name,
        replay(p, requests).creator == p.creator,
        replay(p, requests).admins == p.admins,
        replay(p, requests).members == p.members,
        replay(p, requests).total_tasks == p.total_tasks,
    decreases requests.len(),
{
    if requests.len() > 0 {
        law_validity_is_kept(p, requests.drop_last());
    }
}

/// The balance of the treasury is what it was, plus every deposit that was
/// granted, minus every withdrawal that was granted.
pub proof fn law_conservation(p: ProjectView, requests: Seq<Request>)
    ensures
        replay(p, requests).treasury_balance == p.treasury_balance + deposited(p, requests)
            - withdrawn(p, requests),
    decreases requests.len(),
{
    if requests.len() > 0 {
        law_conservation(p, requests.drop_last());
    }
}

/// The treasury of a project holds the deposits that were granted since its
/// creation minus the withdrawals that were granted.
pub proof fn law_conservation_since_creation(
    name: Seq<char>,
    creator: Address,
    admins: Seq<Address>,
    members: Seq<Address>,
    github_enabled: bool,
    jira_enabled: bool,
    created_at: i64,
    bump: u8,
    requests: Seq<Request>,
)
    ensures
        ({
            let p = founded(
                name,
                creator,
                admins,
                members,
                github_enabled,
                jira_enabled,
                created_at,
                bump,
            );
            replay(p, requests).treasury_balance == deposited(p, requests) - withdrawn(
                p,
                requests,
            )
        }),
{
    law_conservation(
        founded(name, creator, admins, members, github_enabled, jira_enabled, created_at, bump),
        requests,
    );
}

/// Someone who is neither the creator nor an admin cannot set the progress
/// of a project, whatever the count: the answer is `Unauthorized`, and the
/// project is as before.
pub proof fn law_outsider_cannot_update(p: ProjectView, who: Address, count: u8)
    requires
        p.creator != who,
        !p.admins.contains(who),
    ensures
        progress_verdict(p, who, count) == Err::<(), ErrorCode>(ErrorCode::Unauthorized),
        applied(p, Request::Progress { who, count }) == p,
{
}

} // verus!
