//! Projects with a progress counter and a treasury, changed only by their
//! creator and admins.

pub mod address;
pub mod engine;
pub mod error;
pub mod history;
pub mod identifier;
pub mod project;
pub mod registry;

pub use address::Address;
pub use engine::{fund_treasury, update_task_completion, withdraw_funds, FundTreasury,
    Transfer, UpdateTaskCompletion, WithdrawFunds};
pub use error::ErrorCode;
pub use identifier::project_address;
pub use project::Project;
pub use registry::{initialize_project, InitializeProject, Registry};
