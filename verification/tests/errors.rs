use owo_colors::OwoColorize;
use proplate::errors::{
    CliErrorKind, ProplateError, ProplateErrorKind, TemplateErrorKind,
};
use proplate::ui::{emphasized, error, step, success, title, AsError};

fn fs_kind() -> ProplateErrorKind {
    ProplateErrorKind::Fs {
        concerned_paths: vec!["/a".to_string(), "/b/c".to_string()],
        operation: "copy".to_string(),
    }
}

fn not_found(is_remote: bool) -> ProplateErrorKind {
    ProplateErrorKind::Template {
        kind: TemplateErrorKind::NotFound { is_remote },
        location: "here".to_string(),
    }
}

#[test]
fn a_new_failure_has_neither_cause_nor_place() {
    let e = ProplateError::create(fs_kind());
    assert!(!e.has_ctx());
    assert!(!e.has_cause());
    assert!(matches!(e.kind(), ProplateErrorKind::Fs { .. }));
}

#[test]
fn a_failure_takes_its_place_and_its_cause() {
    let e = ProplateError::create(fs_kind()).with_ctx("template:clone");
    assert!(e.has_ctx());
    assert!(!e.has_cause());
    let e = e.with_cause("disk full");
    assert!(e.has_ctx());
    assert!(e.has_cause());
    let e = ProplateError::create(fs_kind()).with_cause("disk full");
    assert!(!e.has_ctx());
    assert!(e.has_cause());
}

#[test]
fn a_copy_of_a_failure_shows_the_same() {
    let e = ProplateError::create(fs_kind()).with_ctx("x").with_cause("y");
    assert_eq!(e.duplicate().print_err(), e.print_err());
    let e = ProplateError::create(not_found(true));
    assert_eq!(e.duplicate().print_err(), e.print_err());
}

#[test]
fn the_kinds_are_shown_under_their_names() {
    assert_eq!(ProplateErrorKind::Cli(CliErrorKind::Prompt).name(), "Cli");
    assert_eq!(not_found(false).name(), "Template");
    assert_eq!(fs_kind().name(), "Fs");
    let git = ProplateErrorKind::Git { cmd: "clone".to_string(), raw_stderr: "fatal".to_string() };
    assert_eq!(git.name(), "Git");
}

#[test]
fn each_kind_says_what_went_wrong() {
    assert_eq!(
        ProplateErrorKind::Cli(CliErrorKind::Prompt).description(),
        "a problem occured when prompting the user"
    );
    assert_eq!(not_found(true).description(), "remote template 'here' cannot be found");
    assert_eq!(not_found(false).description(), "template 'here' cannot be found");
    let invalid = ProplateErrorKind::Template {
        kind: TemplateErrorKind::Invalid,
        location: "here".to_string(),
    };
    assert_eq!(invalid.description(), "template at 'here' config (meta.json) is not valid");
    let no_config = ProplateErrorKind::Template {
        kind: TemplateErrorKind::NoConfig,
        location: "here".to_string(),
    };
    assert_eq!(no_config.description(), "template at 'here' has no config file");
    assert_eq!(
        fs_kind().description(),
        "op 'copy' cannot be done\n\nConcerned paths are:\n\n- /a\n- /b/c"
    );
    let none = ProplateErrorKind::Fs { concerned_paths: Vec::new(), operation: "x".to_string() };
    assert_eq!(none.description(), "op 'x' cannot be done\n\nConcerned paths are:\n\n");
    let git = ProplateErrorKind::Git { cmd: "clone".to_string(), raw_stderr: "fatal".to_string() };
    assert_eq!(git.description(), "command 'clone' failed with git err:\n\nfatal");
}

#[test]
fn a_bare_failure_is_shown_in_red() {
    let e = ProplateError::create(not_found(false));
    assert_eq!(
        e.print_err(),
        "\u{1b}[31m\nError: `Template`\ntemplate 'here' cannot be found\u{1b}[39m"
    );
}

#[test]
fn a_full_failure_shows_its_place_in_bold_and_its_cause_in_red() {
    let e = ProplateError::create(fs_kind()).with_ctx("template:clone").with_cause("disk full");
    assert_eq!(
        e.print_err(),
        "\u{1b}[31m\nError: `Fs`\nop 'copy' cannot be done\n\nConcerned paths are:\n\n- /a\n- /b/c\
         \n\nCtx: \u{1b}[1mtemplate:clone\u{1b}[0m\
         \u{1b}[31m\n\nCause:\ndisk full\u{1b}[39m\u{1b}[39m"
    );
}

#[test]
fn a_failure_is_shown_as_the_styling_crate_renders_it() {
    let e = ProplateError::create(not_found(true)).with_ctx("c").with_cause("k");
    let ctx = format!("\n\nCtx: {}", "c".bold());
    let cause = format!("\n\nCause:\n{}", "k").red().to_string();
    let message = format!("\nError: `Template`\nremote template 'here' cannot be found{}{}", ctx, cause);
    assert_eq!(e.print_err(), format!("{}", message.red()));
}

#[test]
fn the_lines_of_the_terminal() {
    assert_eq!(title("Setup"), "\n\u{1b}[93m\u{1b}[1mSetup\u{1b}[0m\u{1b}[39m");
    assert_eq!(step("Copying..."), "\u{1b}[34m>\u{1b}[39m \u{1b}[37mCopying...\u{1b}[39m");
    assert_eq!(error("bad"), "\u{1b}[31mbad\u{1b}[39m");
    assert_eq!(success("ok"), "\n\u{1b}[92mok\u{1b}[39m");
    assert_eq!(emphasized("x"), "\u{1b}[1mx\u{1b}[0m");
}

#[test]
fn the_lines_are_what_the_styling_crate_renders() {
    assert_eq!(title("Setup"), format!("\n{}", "Setup".bold().bright_yellow()));
    assert_eq!(step("Copying..."), format!("{} {}", ">".blue(), "Copying...".white()));
    assert_eq!(error("bad"), format!("{}", "bad".red()));
    assert_eq!(success("ok"), format!("\n{}", "ok".bright_green()));
    assert_eq!(emphasized("x"), format!("{}", "x".bold()));
    assert_eq!(title(""), format!("\n{}", "".bold().bright_yellow()));
}
