//! Where a template comes from, and where its workspace goes.
//!
//! A location is remote when it starts with the prefix of the repository
//! host, and local when it is an existing directory. Either way the
//! template is copied into a workspace of its own, below the directory of
//! temporary files, under a name that ends in a fresh unique suffix.

use crate::errors::{ErrorView, KindView, ProplateError, ProplateErrorKind, TemplateErrorKind};
use crate::path::{join, join_spec};
use crate::text::{starts_with, to_chars};
use uuid::Uuid;
use vstd::prelude::*;
use vstd::string::*;

verus! {

/// What every remote location starts with.
pub const REMOTE_PREFIX: &'static str = "https://github.com/";

/// The directory below which the workspaces are made.
pub const TEMP_DIR: &'static str = ".temp";

/// Whether `location` names a remote repository.
pub open spec fn is_remote(location: Seq<char>) -> bool {
    REMOTE_PREFIX@.is_prefix_of(location)
}

/// A name made of a path: every separator replaced by a hyphen.
pub open spec fn slug(path: Seq<char>) -> Seq<char> {
    path.map_values(
        |c: char|
            if c == '/' {
                '-'
            } else {
                c
            },
    )
}

/// A character of a unique suffix: a lower-case hexadecimal digit or a hyphen.
pub open spec fn is_suffix_char(c: char) -> bool {
    ('0' <= c && c <= '9') || ('a' <= c && c <= 'f') || c == '-'
}

/// What a unique suffix looks like: 36 characters, hexadecimal digits and hyphens.
pub open spec fn is_suffix(s: Seq<char>) -> bool {
    s.len() == 36 && forall|i: int| 0 <= i < s.len() ==> is_suffix_char(#[trigger] s[i])
}

/// How a template is to be acquired.
#[derive(Debug)]
pub struct Acquisition {
    /// The identifier of the template: the slug of the repository for a
    /// remote location, the location itself for a local one.
    pub id: String,
    /// The path of the workspace to create.
    pub workspace: String,
    /// The repository to clone, or `None` where a local directory is copied.
    pub fork_source: Option<String>,
}

/// An acquisition as plain values.
pub struct AcquisitionView {
    pub id: Seq<char>,
    pub workspace: Seq<char>,
    pub fork_source: Option<Seq<char>>,
}

impl View for Acquisition {
    type V = AcquisitionView;

    open spec fn view(&self) -> AcquisitionView {
        AcquisitionView {
            id: self.id@,
            workspace: self.workspace@,
            fork_source: match self.fork_source {
                Some(s) => Some(s@),
                None => None,
            },
        }
    }
}

/// The path of the workspace named `name` with the unique `suffix`.
pub open spec fn workspace_path(name: Seq<char>, suffix: Seq<char>) -> Seq<char> {
    join_spec(TEMP_DIR@, name + "-"@ + suffix)
}

/// The acquisition of the template at a valid `location`, for a project at
/// `dest`: the workspace of a remote template is named by the slug of its
/// repository, that of a local one by the destination.
pub open spec fn acquisition_of(
    location: Seq<char>,
    dest: Seq<char>,
    suffix: Seq<char>,
) -> AcquisitionView {
    if is_remote(location) {
        let id = slug(location.subrange(REMOTE_PREFIX@.len() as int, location.len() as int));
        AcquisitionView {
            id,
            workspace: workspace_path(id, suffix),
            fork_source: Some(location),
        }
    } else {
        AcquisitionView {
            id: location,
            workspace: workspace_path(dest, suffix),
            fork_source: None,
        }
    }
}

/// The failure of a location that is neither remote nor a local directory.
pub open spec fn invalid_location(location: Seq<char>) -> ErrorView {
    ErrorView {
        kind: KindView::TemplateNotFound { is_remote: false, location },
        cause: Some("The location is neither a local nor a git repo"@),
        ctx: Some("template:clone"@),
    }
}

/// The failure of a clone of the repository `uri`.
pub open spec fn clone_failure(uri: Seq<char>) -> ErrorView {
    ErrorView {
        kind: KindView::TemplateNotFound { is_remote: true, location: uri },
        cause: Some("git clone failed"@),
        ctx: Some("template:remote:clone"@),
    }
}

/// The failure of the copy of a local template into its workspace.
pub open spec fn copy_failure(from: Seq<char>, workspace: Seq<char>, report: Seq<char>) -> ErrorView {
    ErrorView {
        kind: KindView::Fs { concerned_paths: seq![from, workspace], operation: "copy_fdir"@ },
        cause: Some(report),
        ctx: Some("template:local:clone"@),
    }
}

/// The failure to list the top of a workspace.
pub open spec fn listing_failure(workspace: Seq<char>, report: Seq<char>) -> ErrorView {
    ErrorView {
        kind: KindView::Fs { concerned_paths: seq![workspace], operation: "read_dir"@ },
        cause: Some(report),
        ctx: Some("template:create"@),
    }
}

/// `Uuid::new_v4` of uuid, in its default text form: a random identifier
/// written as 36 characters, lower-case hexadecimal digits in five groups
/// with a hyphen between them. Nothing is claimed of which identifier comes.
#[verifier::external_body]
fn unique_suffix() -> (suffix: String)
    ensures
        is_suffix(suffix@),
{
    Uuid::new_v4().to_string()
}

/// Where the built-in templates stand, given the directory of the program.
pub fn local_template_path(program_dir: &str) -> (path: String)
    ensures
        path@ == join_spec(join_spec(program_dir@, "builtins"@), "templates"@),
{
    let builtins = join(program_dir, "builtins");
    join(builtins.as_str(), "templates")
}

/// Whether `uri` names a remote repository.
pub fn is_remote_uri(uri: &str) -> (remote: bool)
    ensures
        remote == is_remote(uri@),
{
    starts_with(uri, REMOTE_PREFIX)
}

/// Whether a template can be acquired from `location`, given whether a
/// directory stands there.
pub fn is_valid_location(location: &str, is_local_dir: bool) -> (valid: bool)
    ensures
        valid == (is_remote(location@) || is_local_dir),
{
    is_remote_uri(location) || is_local_dir
}

fn slug_of(chars: &Vec<char>, from: usize) -> (name: String)
    requires
        from <= chars.len(),
    ensures
        name@ == slug(chars@.subrange(from as int, chars@.len() as int)),
{
    let mut name = String::new();
    let mut i: usize = from;
    while i < chars.len()
        invariant
            from <= i <= chars.len(),
            name@ == slug(chars@.subrange(from as int, i as int)),
        decreases chars.len() - i,
    {
        let c = chars[i];
        let ghost before = name@;
        if c == '/' {
            name.push('-');
        } else {
            name.push(c);
        }
        assert(name@ =~= slug(chars@.subrange(from as int, i + 1)));
        i += 1;
    }
    name
}

fn workspace_for(name: &str, suffix: &str) -> (path: String)
    ensures
        path@ == workspace_path(name@, suffix@),
{
    let mut leaf = name.to_owned();
    leaf.append("-");
    leaf.append(suffix);
    join(TEMP_DIR, leaf.as_str())
}

/// Plans the acquisition of the template at `location` for a project at
/// `dest`, given whether a directory stands at `location` and the unique
/// suffix to use. Fails exactly where the location is neither remote nor a
/// local directory.
pub fn plan_acquisition(location: &str, dest: &str, is_local_dir: bool, suffix: &str) -> (plan:
    Result<Acquisition, ProplateError>)
    ensures
        match plan {
            Ok(a) => (is_remote(location@) || is_local_dir) && a@ == acquisition_of(
                location@,
                dest@,
                suffix@,
            ),
            Err(e) => !is_remote(location@) && !is_local_dir && e@ == invalid_location(location@),
        },
{
    if !is_valid_location(location, is_local_dir) {
        return Err(
            ProplateError::create(
                ProplateErrorKind::Template {
                    kind: TemplateErrorKind::NotFound { is_remote: false },
                    location: location.to_owned(),
                },
            ).with_ctx("template:clone").with_cause(
                "The location is neither a local nor a git repo",
            ),
        );
    }
    if is_remote_uri(location) {
        let chars = to_chars(location);
        let skip: usize = REMOTE_PREFIX.unicode_len();
        let id = slug_of(&chars, skip);
        let workspace = workspace_for(id.as_str(), suffix);
        Ok(Acquisition { id, workspace, fork_source: Some(location.to_owned()) })
    } else {
        let workspace = workspace_for(dest, suffix);
        Ok(Acquisition { id: location.to_owned(), workspace, fork_source: None })
    }
}

/// Plans the acquisition of the template at `location` for a project at
/// `dest`, under a fresh unique suffix. `is_local_dir` says whether a
/// directory stands at `location`.
pub fn clone_template(location: &str, dest: &str, is_local_dir: bool) -> (plan: Result<
    Acquisition,
    ProplateError,
>)
    ensures
        match plan {
            Ok(a) => (is_remote(location@) || is_local_dir) && exists|suffix: Seq<char>|
                is_suffix(suffix) && a@ == #[trigger] acquisition_of(location@, dest@, suffix),
            Err(e) => !is_remote(location@) && !is_local_dir && e@ == invalid_location(location@),
        },
{
    let suffix = unique_suffix();
    plan_acquisition(location, dest, is_local_dir, suffix.as_str())
}

/// The failure to report where the clone of `uri` did not succeed.
pub fn remote_clone_failed(uri: &str) -> (e: ProplateError)
    ensures
        e@ == clone_failure(uri@),
{
    ProplateError::create(
        ProplateErrorKind::Template {
            kind: TemplateErrorKind::NotFound { is_remote: true },
            location: uri.to_owned(),
        },
    ).with_ctx("template:remote:clone").with_cause("git clone failed")
}

/// The failure to report where the local template `from` could not be
/// copied into `workspace`.
pub fn local_copy_failed(from: &str, workspace: &str, report: &str) -> (e: ProplateError)
    ensures
        e@ == copy_failure(from@, workspace@, report@),
{
    let mut paths: Vec<String> = Vec::new();
    paths.push(from.to_owned());
    paths.push(workspace.to_owned());
    assert(paths.deep_view() =~= seq![from@, workspace@]);
    ProplateError::fs("copy_fdir", paths).with_ctx("template:local:clone").with_cause(report)
}

/// The failure to report where the top of `workspace` could not be listed.
pub fn listing_failed(workspace: &str, report: &str) -> (e: ProplateError)
    ensures
        e@ == listing_failure(workspace@, report@),
{
    let mut paths: Vec<String> = Vec::new();
    paths.push(workspace.to_owned());
    assert(paths.deep_view() =~= seq![workspace@]);
    ProplateError::fs("read_dir", paths).with_ctx("template:create").with_cause(report)
}

} // verus!
