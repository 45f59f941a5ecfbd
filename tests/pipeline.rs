use testflight_deploy::{find_project_name, Action, Credentials, Invocation, Outcome, Pipeline, ToolStatus};

fn creds() -> Credentials {
    Credentials { api_key: "<API_KEY>".to_string(), api_issuer: "<API_ISSUER>".to_string() }
}

fn expect_run(act: Action) -> Invocation {
    match act {
        Action::Run(inv) => inv,
        Action::Finish(o) => panic!("expected a run, got finish with {:?}", o),
    }
}

fn expect_finish(act: Action) -> Outcome {
    match act {
        Action::Run(inv) => panic!("expected a finish, got a run of {}", inv.program),
        Action::Finish(o) => o,
    }
}

/// Drives a whole run with tools whose results are fixed in advance, and
/// returns the commands run and the outcome.
fn drive(entries: &[&str], scheme: &str, results: &[ToolStatus]) -> (Vec<Invocation>, Outcome) {
    let listing: Vec<String> = entries.iter().map(|s| s.to_string()).collect();
    let (mut state, mut act) = Pipeline::start(find_project_name(&listing), scheme, creds());
    let mut runs = Vec::new();
    let mut next_result = 0;
    loop {
        match act {
            Action::Finish(o) => return (runs, o),
            Action::Run(inv) => {
                runs.push(inv);
                let status = match &results[next_result] {
                    ToolStatus::Exited(c) => ToolStatus::Exited(*c),
                    ToolStatus::Abnormal => ToolStatus::Abnormal,
                    ToolStatus::NotLaunched => ToolStatus::NotLaunched,
                };
                next_result += 1;
                let (s, a) = state.on_tool_exit(status);
                state = s;
                act = a;
            }
        }
    }
}

#[test]
fn end_to_end_success() {
    let (runs, outcome) = drive(
        &["MyApp.xcodeproj", "README.md"],
        "Debug",
        &[ToolStatus::Exited(0), ToolStatus::Exited(0)],
    );
    assert_eq!(outcome, Outcome::Completed);
    assert_eq!(outcome.exit_code(), 0);
    assert_eq!(outcome.diagnostic(), None);
    assert_eq!(runs.len(), 2);
    assert_eq!(runs[0].program, "xcodebuild");
    assert_eq!(
        runs[0].args,
        vec!["-scheme", "Debug", "-archivePath", "build/MyApp.xcodeproj.xcarchive", "archive"]
    );
    assert_eq!(runs[1].program, "xcrun");
    assert_eq!(runs[1].args[2], "-f");
    assert_eq!(runs[1].args[3], "build/MyApp.xcodeproj.xcarchive");
}

#[test]
fn missing_project_exits_one() {
    let (runs, outcome) = drive(&["README.md", "Sources"], "Debug", &[]);
    assert!(runs.is_empty());
    assert_eq!(outcome, Outcome::ProjectNotFound);
    assert_eq!(outcome.exit_code(), 1);
    assert_eq!(outcome.diagnostic(), Some("Project name not found".to_string()));
}

#[test]
fn failed_build_skips_upload() {
    let (runs, outcome) = drive(&["Foo.xcodeproj"], "Release", &[ToolStatus::Exited(1)]);
    assert_eq!(runs.len(), 1);
    assert_eq!(runs[0].program, "xcodebuild");
    assert_eq!(outcome, Outcome::ArchiveFailed);
    assert_eq!(outcome.exit_code(), 1);
    assert_eq!(outcome.diagnostic(), Some("Error: xcodebuild archive fail".to_string()));
}

#[test]
fn build_that_cannot_start_or_is_killed_fails() {
    let (runs, outcome) = drive(&["Foo.xcodeproj"], "Release", &[ToolStatus::NotLaunched]);
    assert_eq!(runs.len(), 1);
    assert_eq!(outcome, Outcome::ArchiveFailed);
    let (runs, outcome) = drive(&["Foo.xcodeproj"], "Release", &[ToolStatus::Abnormal]);
    assert_eq!(runs.len(), 1);
    assert_eq!(outcome, Outcome::ArchiveFailed);
}

#[test]
fn successful_build_uploads_same_archive() {
    let (runs, outcome) = drive(&["Foo.xcodeproj"], "Release", &[ToolStatus::Exited(0), ToolStatus::Exited(0)]);
    assert_eq!(outcome, Outcome::Completed);
    assert_eq!(runs[0].args[3], "build/Foo.xcodeproj.xcarchive");
    assert_eq!(runs[1].args[3], runs[0].args[3]);
}

#[test]
fn failed_upload_exits_one() {
    let (runs, outcome) = drive(&["Foo.xcodeproj"], "Release", &[ToolStatus::Exited(0), ToolStatus::Exited(2)]);
    assert_eq!(runs.len(), 2);
    assert_eq!(outcome, Outcome::UploadFailed);
    assert_eq!(outcome.exit_code(), 1);
    assert_eq!(outcome.diagnostic(), Some("Error: altool upload failed".to_string()));
}

#[test]
fn finished_run_stays_finished() {
    let (state, act) = Pipeline::start(None, "Debug", creds());
    assert_eq!(expect_finish(act), Outcome::ProjectNotFound);
    let (_, act) = state.on_tool_exit(ToolStatus::Exited(0));
    assert_eq!(expect_finish(act), Outcome::ProjectNotFound);
}

#[test]
fn start_runs_build_tool() {
    let (_, act) = Pipeline::start(Some("Foo".to_string()), "Release", creds());
    let inv = expect_run(act);
    assert_eq!(inv.program, "xcodebuild");
    assert_eq!(inv.args, vec!["-scheme", "Release", "-archivePath", "build/Foo.xcarchive", "archive"]);
}

#[test]
fn exit_status_success_only_on_zero() {
    assert!(ToolStatus::Exited(0).succeeded());
    assert!(!ToolStatus::Exited(1).succeeded());
    assert!(!ToolStatus::Exited(255).succeeded());
    assert!(!ToolStatus::Abnormal.succeeded());
    assert!(!ToolStatus::NotLaunched.succeeded());
}
