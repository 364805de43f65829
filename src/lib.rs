//! Startup decisions of a command-line build tool: whether the binary acts
//! as its own installer, which notices it prints, how a background version
//! check hands its result over, and how the crash reporter is installed.
pub mod command;
pub mod crash;
pub mod invocation;
pub mod text;
pub mod update;

pub use command::{
    conclude, deprecation_notice, error_report, startup, ErrorChain, Outcome, Startup,
    StartupAction,
};
pub use crash::{format_authors, CrashMetadata, CrashReporter, HandlerState};
pub use invocation::{classify, classify_stem, IdentityError, InvocationIdentity};
pub use update::{is_actionable, update_notice, UpdateNotifier, VersionPair};
