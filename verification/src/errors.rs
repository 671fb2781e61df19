//! What can go wrong in a run, and how it is shown.

use crate::ui::{emphasized, error, styled, AsError};
use vstd::prelude::*;
use vstd::string::*;

verus! {

/// Why a template could not be used.
#[derive(Debug)]
pub enum TemplateErrorKind {
    /// Nothing usable stands at the location.
    NotFound { is_remote: bool },
    /// The manifest is missing or malformed.
    Invalid,
    /// The template has no manifest.
    NoConfig,
}

/// Why the command line failed.
#[derive(Debug)]
pub enum CliErrorKind {
    /// A prompt did not yield a value.
    Prompt,
}

/// The kinds of failure.
#[derive(Debug)]
pub enum ProplateErrorKind {
    Cli(CliErrorKind),
    Template { kind: TemplateErrorKind, location: String },
    Fs { concerned_paths: Vec<String>, operation: String },
    Git { cmd: String, raw_stderr: String },
}

/// A kind of failure, as plain values.
pub enum KindView {
    Prompt,
    TemplateNotFound { is_remote: bool, location: Seq<char> },
    TemplateInvalid { location: Seq<char> },
    TemplateNoConfig { location: Seq<char> },
    Fs { concerned_paths: Seq<Seq<char>>, operation: Seq<char> },
    Git { cmd: Seq<char>, raw_stderr: Seq<char> },
}

impl View for ProplateErrorKind {
    type V = KindView;

    open spec fn view(&self) -> KindView {
        match self {
            ProplateErrorKind::Cli(_) => KindView::Prompt,
            ProplateErrorKind::Template { kind, location } => match kind {
                TemplateErrorKind::NotFound { is_remote } => KindView::TemplateNotFound {
                    is_remote: *is_remote,
                    location: location@,
                },
                TemplateErrorKind::Invalid => KindView::TemplateInvalid { location: location@ },
                TemplateErrorKind::NoConfig => KindView::TemplateNoConfig { location: location@ },
            },
            ProplateErrorKind::Fs { concerned_paths, operation } => KindView::Fs {
                concerned_paths: concerned_paths.deep_view(),
                operation: operation@,
            },
            ProplateErrorKind::Git { cmd, raw_stderr } => KindView::Git {
                cmd: cmd@,
                raw_stderr: raw_stderr@,
            },
        }
    }
}

/// The name under which a kind of failure is shown.
pub open spec fn kind_name(kind: KindView) -> Seq<char> {
    match kind {
        KindView::Prompt => "Cli"@,
        KindView::TemplateNotFound { .. } => "Template"@,
        KindView::TemplateInvalid { .. } => "Template"@,
        KindView::TemplateNoConfig { .. } => "Template"@,
        KindView::Fs { .. } => "Fs"@,
        KindView::Git { .. } => "Git"@,
    }
}

/// The first `n` paths, one per line, each behind a dash.
pub open spec fn bullet_list(paths: Seq<Seq<char>>, n: nat) -> Seq<char>
    decreases n,
{
    if n == 0 || n > paths.len() {
        Seq::empty()
    } else if n == 1 {
        "- "@ + paths[0]
    } else {
        bullet_list(paths, (n - 1) as nat) + "\n"@ + "- "@ + paths[n - 1]
    }
}

/// What a kind of failure says of itself.
pub open spec fn describe(kind: KindView) -> Seq<char> {
    match kind {
        KindView::Prompt => "a problem occured when prompting the user"@,
        KindView::TemplateNotFound { is_remote, location } => if is_remote {
            "remote template '"@ + location + "' cannot be found"@
        } else {
            "template '"@ + location + "' cannot be found"@
        },
        KindView::TemplateInvalid { location } => "template at '"@ + location
            + "' config (meta.json) is not valid"@,
        KindView::TemplateNoConfig { location } => "template at '"@ + location
            + "' has no config file"@,
        KindView::Fs { concerned_paths, operation } => "op '"@ + operation
            + "' cannot be done\n\nConcerned paths are:\n\n"@ + bullet_list(
            concerned_paths,
            concerned_paths.len(),
        ),
        KindView::Git { cmd, raw_stderr } => "command '"@ + cmd + "' failed with git err:\n\n"@
            + raw_stderr,
    }
}

/// A failure as plain values: its kind, its cause and where it arose.
pub struct ErrorView {
    pub kind: KindView,
    pub cause: Option<Seq<char>>,
    pub ctx: Option<Seq<char>>,
}

/// The message of a failure before it is coloured as a whole: the kind, what
/// the kind says of itself, where it arose in bold, and the cause in red.
pub open spec fn message(e: ErrorView) -> Seq<char> {
    "\nError: `"@ + kind_name(e.kind) + "`\n"@ + describe(e.kind) + match e.ctx {
        Some(ctx) => "\n\nCtx: "@ + styled("\x1b[1m"@, ctx, "\x1b[0m"@),
        None => Seq::<char>::empty(),
    } + match e.cause {
        Some(cause) => styled("\x1b[31m"@, "\n\nCause:\n"@ + cause, "\x1b[39m"@),
        None => Seq::<char>::empty(),
    }
}

/// A failure as the terminal shows it: the message, in red.
pub open spec fn render(e: ErrorView) -> Seq<char> {
    styled("\x1b[31m"@, message(e), "\x1b[39m"@)
}

impl ProplateErrorKind {
    /// The name under which this kind is shown.
    pub fn name(&self) -> (r: String)
        ensures
            r@ == kind_name(self@),
    {
        match self {
            ProplateErrorKind::Cli(_) => String::from_str("Cli"),
            ProplateErrorKind::Template { .. } => String::from_str("Template"),
            ProplateErrorKind::Fs { .. } => String::from_str("Fs"),
            ProplateErrorKind::Git { .. } => String::from_str("Git"),
        }
    }

    /// What this kind says of itself.
    pub fn description(&self) -> (r: String)
        ensures
            r@ == describe(self@),
    {
        match self {
            ProplateErrorKind::Cli(_) => String::from_str(
                "a problem occured when prompting the user",
            ),
            ProplateErrorKind::Template { kind, location } => match kind {
                TemplateErrorKind::NotFound { is_remote } => {
                    let mut out = if *is_remote {
                        String::from_str("remote template '")
                    } else {
                        String::from_str("template '")
                    };
                    out.append(location.as_str());
                    out.append("' cannot be found");
                    out
                },
                TemplateErrorKind::Invalid => {
                    let mut out = String::from_str("template at '");
                    out.append(location.as_str());
                    out.append("' config (meta.json) is not valid");
                    out
                },
                TemplateErrorKind::NoConfig => {
                    let mut out = String::from_str("template at '");
                    out.append(location.as_str());
                    out.append("' has no config file");
                    out
                },
            },
            ProplateErrorKind::Fs { concerned_paths, operation } => {
                let mut out = String::from_str("op '");
                out.append(operation.as_str());
                out.append("' cannot be done\n\nConcerned paths are:\n\n");
                let ghost head = out@;
                let ghost paths = concerned_paths.deep_view();
                let mut i: usize = 0;
                while i < concerned_paths.len()
                    invariant
                        i <= concerned_paths.len(),
                        paths == concerned_paths.deep_view(),
                        out@ == head + bullet_list(paths, i as nat),
                    decreases concerned_paths.len() - i,
                {
                    let ghost before = out@;
                    if i > 0 {
                        out.append("\n");
                    }
                    out.append("- ");
                    out.append(concerned_paths[i].as_str());
                    proof {
                        assert(paths[i as int] == concerned_paths[i as int]@);
                        if i > 0 {
                            assert(out@ =~= head + (bullet_list(paths, i as nat) + "\n"@ + "- "@
                                + paths[i as int]));
                        } else {
                            assert(bullet_list(paths, 0) =~= Seq::<char>::empty());
                            assert(out@ =~= head + ("- "@ + paths[0]));
                        }
                    }
                    i += 1;
                }
                out
            },
            ProplateErrorKind::Git { cmd, raw_stderr } => {
                let mut out = String::from_str("command '");
                out.append(cmd.as_str());
                out.append("' failed with git err:\n\n");
                out.append(raw_stderr.as_str());
                out
            },
        }
    }
}

/// A failure: its kind, and optionally its cause and the place where it arose.
#[derive(Debug)]
pub struct ProplateError {
    kind: ProplateErrorKind,
    cause: Option<String>,
    ctx: Option<String>,
}

pub type ProplateResult<T> = Result<T, ProplateError>;

impl View for ProplateError {
    type V = ErrorView;

    closed spec fn view(&self) -> ErrorView {
        ErrorView {
            kind: self.kind@,
            cause: match self.cause {
                Some(c) => Some(c@),
                None => None,
            },
            ctx: match self.ctx {
                Some(c) => Some(c@),
                None => None,
            },
        }
    }
}

impl ProplateError {
    /// A failure of the given kind, with no cause and no place yet.
    pub fn create(kind: ProplateErrorKind) -> (e: ProplateError)
        ensures
            e@ == (ErrorView { kind: kind@, cause: None, ctx: None }),
    {
        Self { kind, cause: None, ctx: None }
    }

    /// A failure of a file operation on the given paths.
    pub fn fs(operation: &str, concerned_paths: Vec<String>) -> (e: ProplateError)
        ensures
            e@ == (ErrorView {
                kind: KindView::Fs {
                    concerned_paths: concerned_paths.deep_view(),
                    operation: operation@,
                },
                cause: None,
                ctx: None,
            }),
    {
        Self::create(ProplateErrorKind::Fs { concerned_paths, operation: operation.to_owned() })
    }

    /// The same failure, arisen at `ctx`.
    pub fn with_ctx(self, ctx: &str) -> (e: ProplateError)
        ensures
            e@ == (ErrorView { ctx: Some(ctx@), ..self@ }),
    {
        let mut e = self;
        e.ctx = Some(ctx.to_owned());
        e
    }

    /// The same failure, caused by `cause`.
    pub fn with_cause(self, cause: &str) -> (e: ProplateError)
        ensures
            e@ == (ErrorView { cause: Some(cause@), ..self@ }),
    {
        let mut e = self;
        e.cause = Some(cause.to_owned());
        e
    }

    /// Whether the place where the failure arose is known.
    pub fn has_ctx(&self) -> (b: bool)
        ensures
            b == self@.ctx.is_some(),
    {
        self.ctx.is_some()
    }

    /// Whether the cause of the failure is known.
    pub fn has_cause(&self) -> (b: bool)
        ensures
            b == self@.cause.is_some(),
    {
        self.cause.is_some()
    }

    /// The kind of the failure.
    pub fn kind(&self) -> (k: &ProplateErrorKind)
        ensures
            k@ == self@.kind,
    {
        &self.kind
    }

    /// A copy of the failure.
    pub fn duplicate(&self) -> (e: ProplateError)
        ensures
            e@ == self@,
    {
        let kind = match &self.kind {
            ProplateErrorKind::Cli(CliErrorKind::Prompt) => ProplateErrorKind::Cli(
                CliErrorKind::Prompt,
            ),
            ProplateErrorKind::Template { kind, location } => ProplateErrorKind::Template {
                kind: match kind {
                    TemplateErrorKind::NotFound { is_remote } => TemplateErrorKind::NotFound {
                        is_remote: *is_remote,
                    },
                    TemplateErrorKind::Invalid => TemplateErrorKind::Invalid,
                    TemplateErrorKind::NoConfig => TemplateErrorKind::NoConfig,
                },
                location: location.clone(),
            },
            ProplateErrorKind::Fs { concerned_paths, operation } => ProplateErrorKind::Fs {
                concerned_paths: crate::text::copy_texts(concerned_paths),
                operation: operation.clone(),
            },
            ProplateErrorKind::Git { cmd, raw_stderr } => ProplateErrorKind::Git {
                cmd: cmd.clone(),
                raw_stderr: raw_stderr.clone(),
            },
        };
        let cause = match &self.cause {
            Some(c) => Some(c.clone()),
            None => None,
        };
        let ctx = match &self.ctx {
            Some(c) => Some(c.clone()),
            None => None,
        };
        ProplateError { kind, cause, ctx }
    }
}

impl AsError for ProplateError {
    open spec fn rendered(&self) -> Seq<char> {
        render(self@)
    }

    fn print_err(&self) -> (r: String)
        ensures
            r@ == render(self@),
    {
        let mut out = String::from_str("\nError: `");
        let name = self.kind.name();
        out.append(name.as_str());
        out.append("`\n");
        let contextual = self.kind.description();
        out.append(contextual.as_str());
        match &self.ctx {
            Some(ctx) => {
                out.append("\n\nCtx: ");
                let strong = emphasized(ctx.as_str());
                out.append(strong.as_str());
            },
            None => {},
        }
        let ghost before_cause = out@;
        match &self.cause {
            Some(cause) => {
                let mut text = String::from_str("\n\nCause:\n");
                text.append(cause.as_str());
                let coloured = error(text.as_str());
                out.append(coloured.as_str());
            },
            None => {
                assert(out@ + Seq::<char>::empty() =~= out@);
            },
        }
        proof {
            assert(out@ =~= message(self@));
        }
        error(out.as_str())
    }
}

} // verus!
