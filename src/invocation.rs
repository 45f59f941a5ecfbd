use vstd::prelude::*;
use vstd::string::*;

verus! {

/// A command to run: the program's name, looked up on the search path, and
/// its arguments.
pub struct Invocation {
    pub program: String,
    pub args: Vec<String>,
}

/// API credentials handed to the upload tool.
pub struct Credentials {
    pub api_key: String,
    pub api_issuer: String,
}

impl Invocation {
    /// `self` runs `program` with exactly the arguments `args`.
    pub open spec fn runs(&self, program: Seq<char>, args: Seq<Seq<char>>) -> bool {
        self.program@ == program && self.args.deep_view() == args
    }
}

/// The path of the archive made for project `name`: `build/<name>.xcarchive`.
pub open spec fn spec_archive_path(name: Seq<char>) -> Seq<char> {
    "build/"@ + name + ".xcarchive"@
}

/// The arguments that make the build tool archive scheme `scheme` of project
/// `name`.
pub open spec fn spec_archive_args(name: Seq<char>, scheme: Seq<char>) -> Seq<Seq<char>> {
    seq!["-scheme"@, scheme, "-archivePath"@, spec_archive_path(name), "archive"@]
}

/// The arguments that make the upload tool send the archive of project
/// `name` to the distribution service.
pub open spec fn spec_upload_args(name: Seq<char>, key: Seq<char>, issuer: Seq<char>) -> Seq<
    Seq<char>,
> {
    seq![
        "altool"@,
        "--upload-app"@,
        "-f"@,
        spec_archive_path(name),
        "-t"@,
        "ios"@,
        "--apiKey"@,
        key,
        "--apiIssuer"@,
        issuer,
    ]
}

/// The build tool's program name.
pub open spec fn build_tool() -> Seq<char> {
    "xcodebuild"@
}

/// The program that hosts the upload tool.
pub open spec fn upload_tool() -> Seq<char> {
    "xcrun"@
}

/// Computes the path of the archive for a project. Both the build and the
/// upload step take it from here, so that they name the same file.
pub fn archive_path(project_name: &str) -> (r: String)
    ensures
        r@ == spec_archive_path(project_name@),
{
    proof {
        reveal_strlit("build/");
        reveal_strlit(".xcarchive");
    }
    let mut r = String::from_str("build/");
    r.append(project_name);
    r.append(".xcarchive");
    r
}

/// The arguments of the build tool for archiving `scheme` of project
/// `project_name`.
pub fn archive_args(project_name: &str, scheme: &str) -> (r: Vec<String>)
    ensures
        r.deep_view() == spec_archive_args(project_name@, scheme@),
{
    proof {
        reveal_strlit("-scheme");
        reveal_strlit("-archivePath");
        reveal_strlit("archive");
    }
    let mut r: Vec<String> = Vec::new();
    r.push(String::from_str("-scheme"));
    r.push(String::from_str(scheme));
    r.push(String::from_str("-archivePath"));
    r.push(archive_path(project_name));
    r.push(String::from_str("archive"));
    assert(r.deep_view() =~= spec_archive_args(project_name@, scheme@));
    r
}

/// The arguments of the upload tool for sending the archive of project
/// `project_name` with the given credentials.
pub fn upload_args(project_name: &str, credentials: &Credentials) -> (r: Vec<String>)
    ensures
        r.deep_view() == spec_upload_args(
            project_name@,
            credentials.api_key@,
            credentials.api_issuer@,
        ),
{
    proof {
        reveal_strlit("altool");
        reveal_strlit("--upload-app");
        reveal_strlit("-f");
        reveal_strlit("-t");
        reveal_strlit("ios");
        reveal_strlit("--apiKey");
        reveal_strlit("--apiIssuer");
    }
    let mut r: Vec<String> = Vec::new();
    r.push(String::from_str("altool"));
    r.push(String::from_str("--upload-app"));
    r.push(String::from_str("-f"));
    r.push(archive_path(project_name));
    r.push(String::from_str("-t"));
    r.push(String::from_str("ios"));
    r.push(String::from_str("--apiKey"));
    r.push(credentials.api_key.clone());
    r.push(String::from_str("--apiIssuer"));
    r.push(credentials.api_issuer.clone());
    assert(r.deep_view() =~= spec_upload_args(
        project_name@,
        credentials.api_key@,
        credentials.api_issuer@,
    ));
    r
}

/// The build tool's invocation for archiving `scheme` of project
/// `project_name`.
pub fn archive_invocation(project_name: &str, scheme: &str) -> (r: Invocation)
    ensures
        r.runs(build_tool(), spec_archive_args(project_name@, scheme@)),
{
    proof {
        reveal_strlit("xcodebuild");
    }
    Invocation { program: String::from_str("xcodebuild"), args: archive_args(project_name, scheme) }
}

/// The upload tool's invocation for sending the archive of project
/// `project_name`.
pub fn upload_invocation(project_name: &str, credentials: &Credentials) -> (r: Invocation)
    ensures
        r.runs(
            upload_tool(),
            spec_upload_args(project_name@, credentials.api_key@, credentials.api_issuer@),
        ),
{
    proof {
        reveal_strlit("xcrun");
    }
    Invocation { program: String::from_str("xcrun"), args: upload_args(project_name, credentials) }
}

} // verus!
