use vstd::prelude::*;
use vstd::string::*;

use crate::invocation::{
    archive_invocation, build_tool, spec_archive_args, spec_upload_args, upload_invocation,
    upload_tool, Credentials, Invocation,
};

verus! {

/// How a run of an outside tool ended.
pub enum ToolStatus {
    /// The tool exited with this code.
    Exited(u32),
    /// The tool ended without an exit code (a signal, or a status that could
    /// not be read).
    Abnormal,
    /// The tool could not be started.
    NotLaunched,
}

impl ToolStatus {
    /// A run succeeds when the tool exits with code zero, and only then.
    pub open spec fn spec_succeeded(self) -> bool {
        self == ToolStatus::Exited(0)
    }

    /// Tells whether the tool exited with code zero.
    pub fn succeeded(&self) -> (r: bool)
        ensures
            r == self.spec_succeeded(),
    {
        match self {
            ToolStatus::Exited(code) => *code == 0,
            _ => false,
        }
    }
}

/// How the whole run ends.
#[derive(PartialEq, Eq, Structural, Clone, Copy, Debug)]
pub enum Outcome {
    /// The archive was built and uploaded.
    Completed,
    /// The working directory holds no project descriptor.
    ProjectNotFound,
    /// The build tool failed; nothing was uploaded.
    ArchiveFailed,
    /// The upload tool failed.
    UploadFailed,
}

/// The process exit code for an outcome: zero on success, one on any failure.
pub open spec fn spec_exit_code(o: Outcome) -> i32 {
    match o {
        Outcome::Completed => 0,
        _ => 1,
    }
}

/// The diagnostic printed to the error stream for an outcome, if any.
pub open spec fn spec_diagnostic(o: Outcome) -> Option<Seq<char>> {
    match o {
        Outcome::Completed => None,
        Outcome::ProjectNotFound => Some("Project name not found"@),
        Outcome::ArchiveFailed => Some("Error: xcodebuild archive fail"@),
        Outcome::UploadFailed => Some("Error: altool upload failed"@),
    }
}

impl Outcome {
    /// The code the process exits with.
    pub fn exit_code(&self) -> (r: i32)
        ensures
            r == spec_exit_code(*self),
    {
        match self {
            Outcome::Completed => 0,
            _ => 1,
        }
    }

    /// The line to print on the error stream, for a failed run.
    pub fn diagnostic(&self) -> (r: Option<String>)
        ensures
            match r {
                None => spec_diagnostic(*self) is None,
                Some(m) => spec_diagnostic(*self) == Some(m@),
            },
    {
        proof {
            reveal_strlit("Project name not found");
            reveal_strlit("Error: xcodebuild archive fail");
            reveal_strlit("Error: altool upload failed");
        }
        match self {
            Outcome::Completed => None,
            Outcome::ProjectNotFound => Some(String::from_str("Project name not found")),
            Outcome::ArchiveFailed => Some(String::from_str("Error: xcodebuild archive fail")),
            Outcome::UploadFailed => Some(String::from_str("Error: altool upload failed")),
        }
    }
}

/// What the caller does next.
pub enum Action {
    /// Run this command, wait for it, and report how it ended.
    Run(Invocation),
    /// Stop, with this outcome.
    Finish(Outcome),
}

/// Where a run stands between two outside steps.
pub enum Pipeline {
    /// The build tool is archiving `project`.
    Archiving { project: String, credentials: Credentials },
    /// The upload tool is sending the archive of `project`.
    Uploading { project: String },
    /// The run is over.
    Finished { outcome: Outcome },
}

/// `act` runs the build tool on `project` and `scheme`.
pub open spec fn runs_archive(act: Action, project: Seq<char>, scheme: Seq<char>) -> bool {
    &&& act is Run
    &&& act->Run_0.runs(build_tool(), spec_archive_args(project, scheme))
}

/// `act` runs the upload tool on the archive of `project`.
pub open spec fn runs_upload(
    act: Action,
    project: Seq<char>,
    key: Seq<char>,
    issuer: Seq<char>,
) -> bool {
    &&& act is Run
    &&& act->Run_0.runs(upload_tool(), spec_upload_args(project, key, issuer))
}

/// The first decision of a run, from what the locator found.
pub open spec fn starts(
    found: Option<Seq<char>>,
    scheme: Seq<char>,
    credentials: Credentials,
    next: Pipeline,
    act: Action,
) -> bool {
    match found {
        None => {
            &&& next == (Pipeline::Finished { outcome: Outcome::ProjectNotFound })
            &&& act == Action::Finish(Outcome::ProjectNotFound)
        },
        Some(p) => {
            &&& next is Archiving
            &&& next->Archiving_project@ == p
            &&& next->Archiving_credentials == credentials
            &&& runs_archive(act, p, scheme)
        },
    }
}

/// One decision of a run, from the state it was in and how the tool that
/// state ran ended.
pub open spec fn steps(before: Pipeline, status: ToolStatus, next: Pipeline, act: Action) -> bool {
    match before {
        Pipeline::Archiving { project, credentials } => if status.spec_succeeded() {
            &&& next is Uploading
            &&& next->Uploading_project == project
            &&& runs_upload(act, project@, credentials.api_key@, credentials.api_issuer@)
        } else {
            &&& next == (Pipeline::Finished { outcome: Outcome::ArchiveFailed })
            &&& act == Action::Finish(Outcome::ArchiveFailed)
        },
        Pipeline::Uploading { .. } => {
            let outcome = if status.spec_succeeded() {
                Outcome::Completed
            } else {
                Outcome::UploadFailed
            };
            &&& next == (Pipeline::Finished { outcome })
            &&& act == Action::Finish(outcome)
        },
        Pipeline::Finished { outcome } => {
            &&& next == (Pipeline::Finished { outcome })
            &&& act == Action::Finish(outcome)
        },
    }
}

impl Pipeline {
    /// Starts a run from what the locator found: the build tool is run on
    /// the project, or the run ends at once when there is none.
    pub fn start(found: Option<String>, scheme: &str, credentials: Credentials) -> (r: (
        Pipeline,
        Action,
    ))
        ensures
            starts(
                match found {
                    Some(p) => Some(p@),
                    None => None,
                },
                scheme@,
                credentials,
                r.0,
                r.1,
            ),
    {
        match found {
            None => (
                Pipeline::Finished { outcome: Outcome::ProjectNotFound },
                Action::Finish(Outcome::ProjectNotFound),
            ),
            Some(project) => {
                let act = Action::Run(archive_invocation(project.as_str(), scheme));
                (Pipeline::Archiving { project, credentials }, act)
            },
        }
    }

    /// Takes the next decision once the tool run by the current state has
    /// ended: a successful archive leads to the upload, any failure ends the
    /// run, and a finished run stays finished.
    pub fn on_tool_exit(self, status: ToolStatus) -> (r: (Pipeline, Action))
        ensures
            steps(self, status, r.0, r.1),
    {
        let ok = status.succeeded();
        match self {
            Pipeline::Archiving { project, credentials } => {
                if ok {
                    let act = Action::Run(upload_invocation(project.as_str(), &credentials));
                    (Pipeline::Uploading { project }, act)
                } else {
                    (
                        Pipeline::Finished { outcome: Outcome::ArchiveFailed },
                        Action::Finish(Outcome::ArchiveFailed),
                    )
                }
            },
            Pipeline::Uploading { .. } => {
                let outcome = if ok {
                    Outcome::Completed
                } else {
                    Outcome::UploadFailed
                };
                (Pipeline::Finished { outcome }, Action::Finish(outcome))
            },
            Pipeline::Finished { outcome } => (
                Pipeline::Finished { outcome },
                Action::Finish(outcome),
            ),
        }
    }
}

} // verus!
