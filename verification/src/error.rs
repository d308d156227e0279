use vstd::prelude::*;

verus! {

/// Why an operation on a project was turned down.
#[derive(Clone, Copy, Debug, PartialEq, Eq, Structural)]
pub enum ErrorCode {
    /// A progress count above the project's total.
    InvalidTaskCount,
    /// A project name without any character.
    EmptyProjectName,
    /// A project name of more than `MAX_NAME_LEN` bytes.
    NameTooLong,
    /// An empty admin list.
    NoAdmins,
    /// More than `MAX_ADMINS` admins.
    TooManyAdmins,
    /// More than `MAX_MEMBERS` members.
    TooManyMembers,
    /// An address that stands twice in one list.
    DuplicateAddress,
    /// The all-zero address in a list.
    ZeroAddress,
    /// A creator who is not among the admins.
    CreatorNotInAdmins,
    /// A progress update by someone who is neither creator nor admin.
    Unauthorized,
    /// A funding amount of zero, or one that the treasury cannot take.
    InvalidFundingAmount,
    /// The treasury holds too little.
    InsufficientTreasuryBalance,
    /// A withdrawal of more than the treasury holds.
    WithdrawalExceedsBalance,
    /// A withdrawal by someone who is neither creator nor admin.
    UnauthorizedWithdrawal,
    /// A record already stands at the identifier of the project to create.
    AlreadyExists,
    /// No identifier can be derived for the project to create.
    NoProjectAddress,
}

impl ErrorCode {
    /// The message of each error, as a sequence of characters.
    pub open spec fn text(self) -> Seq<char> {
        match self {
            ErrorCode::InvalidTaskCount => "Invalid task count: cannot exceed total tasks"@,
            ErrorCode::EmptyProjectName => "Project name cannot be empty"@,
            ErrorCode::NameTooLong => "Project name exceeds maximum length of 50 characters"@,
            ErrorCode::NoAdmins => "Admin list cannot be empty"@,
            ErrorCode::TooManyAdmins => "Admin list exceeds maximum of 10 entries"@,
            ErrorCode::TooManyMembers => "Member list exceeds maximum of 50 entries"@,
            ErrorCode::DuplicateAddress => "Duplicate addresses not allowed"@,
            ErrorCode::ZeroAddress => "Zero address not allowed"@,
            ErrorCode::CreatorNotInAdmins => "Creator must be in admins list"@,
            ErrorCode::Unauthorized => "Unauthorized: only admins can perform this action"@,
            ErrorCode::InvalidFundingAmount => "Invalid funding amount: must be greater than 0"@,
            ErrorCode::InsufficientTreasuryBalance => "Insufficient treasury balance"@,
            ErrorCode::WithdrawalExceedsBalance => "Withdrawal amount exceeds available balance"@,
            ErrorCode::UnauthorizedWithdrawal => "Only admins can withdraw funds"@,
            ErrorCode::AlreadyExists => "A project already exists under this name and creator"@,
            ErrorCode::NoProjectAddress => "No address can be derived for this project"@,
        }
    }

    /// The message that goes with the error.
    pub fn message(&self) -> (r: String)
        ensures
            r@ == self.text(),
    {
        match self {
            ErrorCode::InvalidTaskCount => "Invalid task count: cannot exceed total tasks".to_owned(),
            ErrorCode::EmptyProjectName => "Project name cannot be empty".to_owned(),
            ErrorCode::NameTooLong => "Project name exceeds maximum length of 50 characters".to_owned(),
            ErrorCode::NoAdmins => "Admin list cannot be empty".to_owned(),
            ErrorCode::TooManyAdmins => "Admin list exceeds maximum of 10 entries".to_owned(),
            ErrorCode::TooManyMembers => "Member list exceeds maximum of 50 entries".to_owned(),
            ErrorCode::DuplicateAddress => "Duplicate addresses not allowed".to_owned(),
            ErrorCode::ZeroAddress => "Zero address not allowed".to_owned(),
            ErrorCode::CreatorNotInAdmins => "Creator must be in admins list".to_owned(),
            ErrorCode::Unauthorized => "Unauthorized: only admins can perform this action".to_owned(),
            ErrorCode::InvalidFundingAmount => "Invalid funding amount: must be greater than 0".to_owned(),
            ErrorCode::InsufficientTreasuryBalance => "Insufficient treasury balance".to_owned(),
            ErrorCode::WithdrawalExceedsBalance => "Withdrawal amount exceeds available balance".to_owned(),
            ErrorCode::UnauthorizedWithdrawal => "Only admins can withdraw funds".to_owned(),
            ErrorCode::AlreadyExists => "A project already exists under this name and creator".to_owned(),
            ErrorCode::NoProjectAddress => "No address can be derived for this project".to_owned(),
        }
    }
}

} // verus!
