//! Decisions behind the RPC documentation generator: which commands to run,
//! what their output means, and how the generated documents are named.
//!
//! Nothing here spawns a process or touches the file system.  The caller runs
//! the commands this crate describes and hands the outcome back.

pub mod command;
pub mod docs;
pub mod git;
pub mod sync;
pub mod text;
pub mod version;

pub use command::{command_output, Command, ProcessOutput};
pub use docs::{all_rpc_docs, rpc_modules, RpcModule};
pub use git::{get_current_git_branch, get_git_remote_url, is_git_repo_dirty};
pub use sync::{SyncAction, SyncEvent, SyncStep, OPENRPC_DIR, OPENRPC_DIR_REPO};
pub use version::get_version;
