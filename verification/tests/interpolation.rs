use proplate::context::Context;
use proplate::interpolation::{interpolate, Interpolate};
use regex::Regex;

fn ctx_of(pairs: &[(&str, &str)]) -> Context {
    let mut ctx = Context::new();
    for (k, v) in pairs {
        ctx.insert(k.to_string(), v.to_string());
    }
    ctx
}

#[test]
fn substitutes_a_bound_identifier() {
    let ctx = ctx_of(&[("x", "1")]);
    assert_eq!(interpolate("a$x b", &ctx), "a1 b");
}

#[test]
fn an_odd_run_of_backslashes_escapes_the_token() {
    let ctx = ctx_of(&[("x", "1")]);
    assert_eq!(interpolate("a\\$x", &ctx), "a$x");
    assert_eq!(interpolate("a\\\\\\$x", &ctx), "a\\\\$x");
}

#[test]
fn an_even_run_of_backslashes_stays_and_the_token_is_replaced() {
    let ctx = ctx_of(&[("x", "1")]);
    assert_eq!(interpolate("a\\\\$x", &ctx), "a\\\\1");
    assert_eq!(interpolate("\\\\\\\\$x", &ctx), "\\\\\\\\1");
}

#[test]
fn an_unbound_identifier_expands_to_nothing() {
    let ctx = Context::new();
    assert_eq!(interpolate("$missing", &ctx), "");
    assert_eq!(interpolate("a $missing b", &ctx), "a  b");
}

#[test]
fn text_without_a_token_is_left_alone() {
    let ctx = ctx_of(&[("x", "1")]);
    for text in ["", "plain", "cost: 5$", "$ 1", "$1", "a\\b", "\\", "$", "\\\\$", "100% $-"] {
        assert_eq!(interpolate(text, &ctx), text);
    }
}

#[test]
fn a_second_pass_over_finished_text_changes_nothing() {
    let ctx = ctx_of(&[("name", "demo"), ("ver", "1.0.0")]);
    let once = interpolate("{\"name\": \"$name\", \"version\": \"$ver\"}", &ctx);
    assert_eq!(once, "{\"name\": \"demo\", \"version\": \"1.0.0\"}");
    assert_eq!(interpolate(&once, &ctx), once);
}

#[test]
fn what_was_substituted_is_not_scanned_again() {
    let ctx = ctx_of(&[("a", "$b"), ("b", "deep")]);
    assert_eq!(interpolate("$a", &ctx), "$b");
    assert_eq!(interpolate("$a$b", &ctx), "$bdeep");
}

#[test]
fn an_identifier_runs_as_far_as_it_can() {
    let ctx = ctx_of(&[("x", "1"), ("x_2", "two"), ("_", "under")]);
    assert_eq!(interpolate("$x_2", &ctx), "two");
    assert_eq!(interpolate("$x-2", &ctx), "1-2");
    assert_eq!(interpolate("$x.$x", &ctx), "1.1");
    assert_eq!(interpolate("$_", &ctx), "under");
    assert_eq!(interpolate("$x$x_2", &ctx), "1two");
    assert_eq!(interpolate("$2x", &ctx), "$2x");
}

#[test]
fn text_beyond_ascii_is_kept() {
    let ctx = ctx_of(&[("who", "w\u{f6}rld")]);
    assert_eq!(interpolate("h\u{e9}llo $who \u{2713}", &ctx), "h\u{e9}llo w\u{f6}rld \u{2713}");
}

#[test]
fn a_string_interpolates_itself() {
    let ctx = ctx_of(&[("name", "proplate")]);
    let text = "Hello $name".to_string();
    assert_eq!(Interpolate::interpolate(&text, &ctx), "Hello proplate");
}

/// The same substitution through a pattern of the regex crate.
fn by_pattern(source: &str, pairs: &[(&str, &str)]) -> String {
    let pattern = Regex::new(r"(\\*)\$([a-zA-Z_][a-zA-Z0-9_]*)").unwrap();
    let mut out = String::new();
    let mut at = 0;
    for found in pattern.captures_iter(source) {
        let whole = found.get(0).unwrap();
        let slashes = &found[1];
        let name = &found[2];
        out.push_str(&source[at..whole.start()]);
        if slashes.len() % 2 == 1 {
            out.push_str(&slashes[1..]);
            out.push('$');
            out.push_str(name);
        } else {
            out.push_str(slashes);
            if let Some((_, value)) = pairs.iter().find(|(k, _)| *k == name) {
                out.push_str(value);
            }
        }
        at = whole.end();
    }
    out.push_str(&source[at..]);
    out
}

#[test]
fn agrees_with_the_token_pattern() {
    let pairs = [("x", "1"), ("name", "demo"), ("_a9", "$x"), ("empty", "")];
    let ctx = ctx_of(&pairs);
    let pieces = ["", "a", "$", "\\", "$x", "$name", "$_a9", "$empty", "$nope", " ", "9", "_", "\\\\", "$$", "\n", "\u{e9}"];
    let mut samples: Vec<String> = Vec::new();
    for a in pieces {
        for b in pieces {
            for c in pieces {
                samples.push(format!("{}{}{}", a, b, c));
            }
        }
    }
    for text in &samples {
        assert_eq!(interpolate(text, &ctx), by_pattern(text, &pairs), "on {:?}", text);
    }
}
