//! A template: one scaffolding source, held as a disposable copy.

use crate::config::{normalize, normalized, ConfView, TemplateConf, META_CONF};
use crate::errors::{ErrorView, KindView, ProplateError, ProplateErrorKind, TemplateErrorKind};
use crate::fs::walk::WalkError;
use crate::fs::FsNode;
use crate::text::contains_text;
use vstd::prelude::*;

verus! {

/// A template in its workspace.
#[derive(Debug)]
pub struct Template {
    /// The identifier, derived from the path or from the repository.
    pub id: String,
    /// The workspace: a copy of the template that this value owns and that
    /// is deleted when the run ends.
    pub base_path: String,
    /// The entries at the top of the workspace when it was acquired.
    pub base_file_list: Vec<String>,
    /// Where the template was cloned from; `None` for a local template.
    pub fork_source: Option<String>,
    /// The normalized manifest.
    pub conf: TemplateConf,
}

/// Where a template is said to come from when it is reported: its remote
/// origin, or its identifier where it has none.
pub open spec fn origin(id: Seq<char>, fork_source: Option<String>) -> Seq<char> {
    match fork_source {
        Some(source) => source@,
        None => id,
    }
}

/// The failure of a template without a manifest.
pub open spec fn no_config(location: Seq<char>) -> ErrorView {
    ErrorView {
        kind: KindView::TemplateNoConfig { location },
        cause: None,
        ctx: Some("template:validate"@),
    }
}

/// The failure of a template whose workspace could not be walked.
pub open spec fn unreadable(base_path: Seq<char>) -> ErrorView {
    ErrorView {
        kind: KindView::Fs { concerned_paths: seq![base_path], operation: "walk_dir"@ },
        cause: None,
        ctx: Some("template:load"@),
    }
}

impl Template {
    /// Builds the template that stands in the workspace `base_path`, from
    /// the entries at its top, the manifest as it was parsed, and `tree`,
    /// the snapshot of the workspace. Fails where the entries hold no
    /// manifest, and where the manifest cannot be normalized.
    pub fn build(
        id: String,
        base_path: String,
        base_file_list: Vec<String>,
        fork_source: Option<String>,
        conf: TemplateConf,
        tree: &FsNode,
    ) -> (built: Result<Template, ProplateError>)
        ensures
            match built {
                Ok(t) => {
                    &&& base_file_list.deep_view().contains(META_CONF@)
                    &&& normalized(conf@, base_path@, *tree) == Ok::<ConfView, WalkError>(t.conf@)
                    &&& t.id == id
                    &&& t.base_path == base_path
                    &&& t.base_file_list == base_file_list
                    &&& t.fork_source == fork_source
                },
                Err(e) => if !base_file_list.deep_view().contains(META_CONF@) {
                    e@ == no_config(origin(id@, fork_source))
                } else {
                    normalized(conf@, base_path@, *tree) is Err && e@ == unreadable(base_path@)
                },
            },
    {
        match Template::validate_template_filebase(
            &base_file_list,
            match &fork_source {
                Some(source) => source.as_str(),
                None => id.as_str(),
            },
        ) {
            Ok(()) => {},
            Err(e) => { return Err(e); },
        }
        let mut conf = conf;
        match normalize(&mut conf, base_path.as_str(), tree) {
            Ok(()) => Ok(Template { id, base_path, base_file_list, fork_source, conf }),
            Err(_) => {
                let mut paths: Vec<String> = Vec::new();
                paths.push(base_path.clone());
                assert(paths.deep_view() =~= seq![base_path@]);
                Err(ProplateError::fs("walk_dir", paths).with_ctx("template:load"))
            },
        }
    }

    /// Checks that the entries at the top of a template hold the manifest.
    pub fn validate_template_filebase(files: &Vec<String>, location: &str) -> (valid: Result<
        (),
        ProplateError,
    >)
        ensures
            match valid {
                Ok(()) => files.deep_view().contains(META_CONF@),
                Err(e) => !files.deep_view().contains(META_CONF@) && e@ == no_config(location@),
            },
    {
        if contains_text(files, META_CONF) {
            Ok(())
        } else {
            Err(
                ProplateError::create(
                    ProplateErrorKind::Template {
                        kind: TemplateErrorKind::NoConfig,
                        location: location.to_owned(),
                    },
                ).with_ctx("template:validate"),
            )
        }
    }
}

} // verus!
