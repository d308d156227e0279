use vstd::prelude::*;
use vstd::utf8::encode_utf8;
use crate::address::{addresses_verdict, contains_address, distinct_nonzero, lemma_verdict_ok,
    validate_addresses, Address};
use crate::error::ErrorCode;

verus! {

/// Longest project name, in bytes.
pub const MAX_NAME_LEN: usize = 50;

/// Largest number of admins of a project.
pub const MAX_ADMINS: usize = 10;

/// Largest number of members of a project.
pub const MAX_MEMBERS: usize = 50;

/// Number of tasks of every project: the cells of its grid.
pub const TOTAL_TASKS: u8 = 100;

/// The record of one project.
#[derive(Clone, Debug, PartialEq, Eq)]
pub struct Project {
    pub name: String,
    pub creator: Address,
    pub admins: Vec<Address>,
    pub members: Vec<Address>,
    pub github_enabled: bool,
    pub jira_enabled: bool,
    pub created_at: i64,
    pub tasks_completed: u8,
    pub total_tasks: u8,
    pub treasury_balance: u64,
    pub bump: u8,
}

/// A project record as a mathematical value.
pub struct ProjectView {
    pub name: Seq<char>,
    pub creator: Address,
    pub admins: Seq<Address>,
    pub members: Seq<Address>,
    pub github_enabled: bool,
    pub jira_enabled: bool,
    pub created_at: i64,
    pub tasks_completed: u8,
    pub total_tasks: u8,
    pub treasury_balance: u64,
    pub bump: u8,
}

impl View for Project {
    type V = ProjectView;

    open spec fn view(&self) -> ProjectView {
        ProjectView {
            name: self.name@,
            creator: self.creator,
            admins: self.admins@,
            members: self.members@,
            github_enabled: self.github_enabled,
            jira_enabled: self.jira_enabled,
            created_at: self.created_at,
            tasks_completed: self.tasks_completed,
            total_tasks: self.total_tasks,
            treasury_balance: self.treasury_balance,
            bump: self.bump,
        }
    }
}

/// Length of a name in bytes, as it is stored.
pub open spec fn name_len(name: Seq<char>) -> nat {
    encode_utf8(name).len()
}

impl ProjectView {
    /// Whether `who` may change the project: its creator and its admins may.
    pub open spec fn authorizes(self, who: Address) -> bool {
        self.creator == who || self.admins.contains(who)
    }

    /// What holds of the name and the two lists of every project.
    pub open spec fn valid_roster(self) -> bool {
        &&& self.name.len() > 0
        &&& name_len(self.name) <= MAX_NAME_LEN
        &&& 1 <= self.admins.len() <= MAX_ADMINS
        &&& self.members.len() <= MAX_MEMBERS
        &&& distinct_nonzero(self.admins)
        &&& distinct_nonzero(self.members)
    }

    /// What holds of the counters of every project.
    pub open spec fn valid_progress(self) -> bool {
        &&& self.total_tasks == TOTAL_TASKS
        &&& 0 <= self.tasks_completed <= self.total_tasks
        &&& 0 <= self.treasury_balance
    }

    /// The invariant of a project record.
    pub open spec fn valid(self) -> bool {
        self.valid_roster() && self.valid_progress()
    }
}

/// What the validation of a creation request answers. The rules are taken in a
/// fixed order and the first one that is broken decides.
pub open spec fn founding_verdict(
    name: Seq<char>,
    admins: Seq<Address>,
    members: Seq<Address>,
    creator: Address,
) -> Result<(), ErrorCode> {
    if name.len() == 0 {
        Err(ErrorCode::EmptyProjectName)
    } else if name_len(name) > MAX_NAME_LEN {
        Err(ErrorCode::NameTooLong)
    } else if admins.len() == 0 {
        Err(ErrorCode::NoAdmins)
    } else if admins.len() > MAX_ADMINS {
        Err(ErrorCode::TooManyAdmins)
    } else if members.len() > MAX_MEMBERS {
        Err(ErrorCode::TooManyMembers)
    } else if addresses_verdict(admins) is Err {
        addresses_verdict(admins)
    } else if addresses_verdict(members) is Err {
        addresses_verdict(members)
    } else if !admins.contains(creator) {
        Err(ErrorCode::CreatorNotInAdmins)
    } else {
        Ok(())
    }
}

/// The record that a creation request leads to.
pub open spec fn founded(
    name: Seq<char>,
    creator: Address,
    admins: Seq<Address>,
    members: Seq<Address>,
    github_enabled: bool,
    jira_enabled: bool,
    created_at: i64,
    bump: u8,
) -> ProjectView {
    ProjectView {
        name,
        creator,
        admins,
        members,
        github_enabled,
        jira_enabled,
        created_at,
        tasks_completed: 0,
        total_tasks: TOTAL_TASKS,
        treasury_balance: 0,
        bump,
    }
}

/// A request is accepted exactly if its name has between 1 and
/// `MAX_NAME_LEN` bytes, its lists have the right sizes and hold neither the
/// zero address nor an address twice, and the creator is an admin.
pub proof fn lemma_founding_ok(
    name: Seq<char>,
    admins: Seq<Address>,
    members: Seq<Address>,
    creator: Address,
)
    ensures
        founding_verdict(name, admins, members, creator) is Ok <==> {
            &&& name.len() > 0
            &&& name_len(name) <= MAX_NAME_LEN
            &&& 1 <= admins.len() <= MAX_ADMINS
            &&& members.len() <= MAX_MEMBERS
            &&& distinct_nonzero(admins)
            &&& distinct_nonzero(members)
            &&& admins.contains(creator)
        },
{
    lemma_verdict_ok(admins);
    lemma_verdict_ok(members);
}

/// Checks a creation request: the name, the sizes of the two lists, their
/// addresses, and that the creator is an admin, in this order.
pub fn validate_founding(
    name: &str,
    admins: &[Address],
    members: &[Address],
    creator: &Address,
) -> (r: Result<(), ErrorCode>)
    ensures
        r == founding_verdict(name@, admins@, members@, *creator),
{
    if name.is_empty() {
        return Err(ErrorCode::EmptyProjectName);
    }
    if name.as_bytes().len() > MAX_NAME_LEN {
        return Err(ErrorCode::NameTooLong);
    }
    if admins.len() == 0 {
        return Err(ErrorCode::NoAdmins);
    }
    if admins.len() > MAX_ADMINS {
        return Err(ErrorCode::TooManyAdmins);
    }
    if members.len() > MAX_MEMBERS {
        return Err(ErrorCode::TooManyMembers);
    }
    let checked = validate_addresses(admins);
    if checked.is_err() {
        return checked;
    }
    let checked = validate_addresses(members);
    if checked.is_err() {
        return checked;
    }
    if !contains_address(admins, creator) {
        return Err(ErrorCode::CreatorNotInAdmins);
    }
    Ok(())
}

impl Project {
    /// Tells whether `who` may change the project.
    pub fn authorizes(&self, who: &Address) -> (r: bool)
        ensures
            r == self@.authorizes(*who),
    {
        self.creator == *who || contains_address(self.admins.as_slice(), who)
    }
}

} // verus!
