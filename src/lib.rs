//! Locates an application project in a directory listing, and decides the
//! steps that archive it with the build tool and upload the archive with the
//! upload tool.
pub mod invocation;
pub mod laws;
pub mod locate;
pub mod pipeline;

pub use invocation::{archive_args, archive_path, upload_args, Credentials, Invocation};
pub use locate::{find_project_name, is_project_descriptor};
pub use pipeline::{Action, Outcome, Pipeline, ToolStatus};
