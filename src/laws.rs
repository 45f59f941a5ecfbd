use vstd::prelude::*;

use crate::invocation::{spec_archive_path, Credentials};
use crate::locate::{is_descriptor_name, located};
use crate::pipeline::{
    runs_archive, runs_upload, spec_diagnostic, spec_exit_code, starts, steps, Action, Outcome,
    Pipeline, ToolStatus,
};

verus! {

/// A listing that holds exactly one project descriptor yields that
/// descriptor's name.
pub proof fn lemma_sole_descriptor_located(names: Seq<Seq<char>>, i: int)
    requires
        0 <= i < names.len(),
        is_descriptor_name(names[i]),
        forall|j: int| 0 <= j < names.len() && j != i ==> !is_descriptor_name(#[trigger] names[j]),
    ensures
        located(names) == Some(names[i]),
    decreases names.len(),
{
    if i > 0 {
        let rest = names.drop_first();
        assert forall|j: int| 0 <= j < rest.len() && j != i - 1 implies !is_descriptor_name(
            #[trigger] rest[j],
        ) by {
            assert(rest[j] == names[j + 1]);
        }
        assert(!is_descriptor_name(names[0]));
        lemma_sole_descriptor_located(rest, i - 1);
    }
}

/// A listing without any project descriptor yields nothing.
pub proof fn lemma_no_descriptor_not_located(names: Seq<Seq<char>>)
    requires
        forall|j: int| 0 <= j < names.len() ==> !is_descriptor_name(#[trigger] names[j]),
    ensures
        located(names) is None,
    decreases names.len(),
{
    if names.len() > 0 {
        let rest = names.drop_first();
        assert forall|j: int| 0 <= j < rest.len() implies !is_descriptor_name(#[trigger] rest[j]) by {
            assert(rest[j] == names[j + 1]);
        }
        assert(!is_descriptor_name(names[0]));
        lemma_no_descriptor_not_located(rest);
    }
}

/// A listing that holds one or more project descriptors yields a name, and
/// that name is one of the descriptors listed.
pub proof fn lemma_located_is_a_listed_descriptor(names: Seq<Seq<char>>, i: int)
    requires
        0 <= i < names.len(),
        is_descriptor_name(names[i]),
    ensures
        located(names) is Some,
        is_descriptor_name(located(names)->0),
        exists|k: int| 0 <= k < names.len() && names[k] == located(names)->0,
    decreases names.len(),
{
    if !is_descriptor_name(names[0]) {
        let rest = names.drop_first();
        assert(rest[i - 1] == names[i]);
        lemma_located_is_a_listed_descriptor(rest, i - 1);
        let k = choose|k: int| 0 <= k < rest.len() && rest[k] == located(rest)->0;
        assert(names[k + 1] == located(names)->0);
    } else {
        assert(names[0] == located(names)->0);
    }
}

/// A directory without a project descriptor ends the run at once: the
/// outcome is "project not found", reported with a diagnostic, and the exit
/// code is one.
pub proof fn lemma_missing_project_ends_run(
    names: Seq<Seq<char>>,
    scheme: Seq<char>,
    credentials: Credentials,
    next: Pipeline,
    act: Action,
)
    requires
        forall|j: int| 0 <= j < names.len() ==> !is_descriptor_name(#[trigger] names[j]),
        starts(located(names), scheme, credentials, next, act),
    ensures
        located(names) is None,
        act == Action::Finish(Outcome::ProjectNotFound),
        spec_exit_code(Outcome::ProjectNotFound) == 1,
        spec_diagnostic(Outcome::ProjectNotFound) == Some("Project name not found"@),
{
    lemma_no_descriptor_not_located(names);
}

/// When the build tool fails, the run ends with exit code one, and no later
/// decision ever runs the upload tool.
pub proof fn lemma_failed_archive_never_uploads(
    before: Pipeline,
    status: ToolStatus,
    next: Pipeline,
    act: Action,
)
    requires
        before is Archiving,
        !status.spec_succeeded(),
        steps(before, status, next, act),
    ensures
        act == Action::Finish(Outcome::ArchiveFailed),
        spec_exit_code(Outcome::ArchiveFailed) == 1,
        forall|s: ToolStatus, later: Pipeline, later_act: Action|
            #[trigger] steps(next, s, later, later_act) ==> later_act == Action::Finish(
                Outcome::ArchiveFailed,
            ) && later == next,
{
}

/// When the build tool succeeds, the upload tool is run next, on the archive
/// path that was handed to the build tool, built from the same project name.
pub proof fn lemma_upload_follows_archive_on_same_path(
    project: Seq<char>,
    scheme: Seq<char>,
    credentials: Credentials,
    archiving: Pipeline,
    archive_act: Action,
    status: ToolStatus,
    uploading: Pipeline,
    upload_act: Action,
)
    requires
        starts(Some(project), scheme, credentials, archiving, archive_act),
        status.spec_succeeded(),
        steps(archiving, status, uploading, upload_act),
    ensures
        runs_archive(archive_act, project, scheme),
        runs_upload(upload_act, project, credentials.api_key@, credentials.api_issuer@),
        archive_act->Run_0.args.deep_view()[3] == spec_archive_path(project),
        upload_act->Run_0.args.deep_view()[3] == spec_archive_path(project),
{
}

} // verus!
