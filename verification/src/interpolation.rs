//! Escape-aware substitution of `$identifier` tokens.
//!
//! A token is a run of backslashes, a dollar sign and an identifier. An odd
//! number of backslashes escapes the token: one backslash is consumed and the
//! `$identifier` stays as written. An even number (zero included) leaves the
//! backslashes in place and replaces `$identifier` by the value bound to the
//! identifier, or by nothing where the identifier is unbound. Everything else
//! is kept, and what was substituted is never scanned again.

use crate::context::{value_of, Context};
use crate::text::{push_range, to_chars};
use vstd::prelude::*;
use vstd::string::*;

verus! {

/// A character that may start an identifier: an ASCII letter or `_`.
pub open spec fn is_ident_start(c: char) -> bool {
    ('a' <= c && c <= 'z') || ('A' <= c && c <= 'Z') || c == '_'
}

/// A character that may continue an identifier: an ASCII letter, digit or `_`.
pub open spec fn is_ident_char(c: char) -> bool {
    is_ident_start(c) || ('0' <= c && c <= '9')
}

/// The end of the run of backslashes that starts at `i`: the first position
/// from `i` on that holds no backslash.
pub open spec fn run_end(text: Seq<char>, i: int) -> int
    decreases text.len() - i,
{
    if 0 <= i < text.len() && text[i] == '\\' {
        run_end(text, i + 1)
    } else {
        i
    }
}

/// The end of the identifier characters that start at `i`: the first position
/// from `i` on that holds no identifier character.
pub open spec fn ident_end(text: Seq<char>, i: int) -> int
    decreases text.len() - i,
{
    if 0 <= i < text.len() && is_ident_char(text[i]) {
        ident_end(text, i + 1)
    } else {
        i
    }
}

/// Whether a dollar sign followed by the start of an identifier stands at `d`.
pub open spec fn token_at(text: Seq<char>, d: int) -> bool {
    0 <= d && d + 1 < text.len() && text[d] == '$' && is_ident_start(text[d + 1])
}

/// Whether `text` holds a `$identifier` anywhere.
pub open spec fn has_token(text: Seq<char>) -> bool {
    exists|d: int| token_at(text, d)
}

/// What a token becomes: `backslashes` is the run before the dollar sign and
/// `name` the identifier after it.
pub open spec fn expand_token(
    backslashes: Seq<char>,
    name: Seq<char>,
    ctx: Map<Seq<char>, Seq<char>>,
) -> Seq<char> {
    if backslashes.len() % 2 == 1 {
        backslashes.drop_last() + seq!['$'] + name
    } else {
        backslashes + value_of(ctx, name)
    }
}

/// The interpolation of `text[i..]`, read left to right in one pass.
pub open spec fn expand_from(text: Seq<char>, ctx: Map<Seq<char>, Seq<char>>, i: int) -> Seq<char>
    decreases text.len() - i,
{
    if i < 0 || i >= text.len() {
        Seq::empty()
    } else {
        let d = run_end(text, i);
        proof {
            lemma_run_end_bounds(text, i);
        }
        if token_at(text, d) {
            let e = ident_end(text, d + 2);
            proof {
                lemma_ident_end_bounds(text, d + 2);
            }
            expand_token(text.subrange(i, d), text.subrange(d + 1, e), ctx) + expand_from(
                text,
                ctx,
                e,
            )
        } else if d > i {
            text.subrange(i, d) + expand_from(text, ctx, d)
        } else {
            seq![text[i]] + expand_from(text, ctx, i + 1)
        }
    }
}

/// `text` with every token replaced as `ctx` says.
pub open spec fn interpolate_spec(text: Seq<char>, ctx: Map<Seq<char>, Seq<char>>) -> Seq<char> {
    expand_from(text, ctx, 0)
}

/// A run of backslashes ends at or after its start and within the text.
pub proof fn lemma_run_end_bounds(text: Seq<char>, i: int)
    requires
        0 <= i <= text.len(),
    ensures
        i <= run_end(text, i) <= text.len(),
        run_end(text, i) < text.len() ==> text[run_end(text, i)] != '\\',
        forall|j: int| i <= j < run_end(text, i) ==> text[j] == '\\',
    decreases text.len() - i,
{
    if i < text.len() && text[i] == '\\' {
        lemma_run_end_bounds(text, i + 1);
    }
}

/// A run of identifier characters ends at or after its start and within the text.
pub proof fn lemma_ident_end_bounds(text: Seq<char>, i: int)
    requires
        0 <= i <= text.len(),
    ensures
        i <= ident_end(text, i) <= text.len(),
        ident_end(text, i) < text.len() ==> !is_ident_char(text[ident_end(text, i)]),
        forall|j: int| i <= j < ident_end(text, i) ==> is_ident_char(text[j]),
    decreases text.len() - i,
{
    if i < text.len() && is_ident_char(text[i]) {
        lemma_ident_end_bounds(text, i + 1);
    }
}

/// Text that holds no `$identifier` comes out of interpolation unchanged,
/// whatever the context binds: a second pass over finished text is a no-op.
pub proof fn lemma_interpolate_without_token(text: Seq<char>, ctx: Map<Seq<char>, Seq<char>>)
    requires
        !has_token(text),
    ensures
        interpolate_spec(text, ctx) == text,
{
    lemma_expand_without_token(text, ctx, 0);
    assert(text.subrange(0, text.len() as int) =~= text);
}

proof fn lemma_expand_without_token(text: Seq<char>, ctx: Map<Seq<char>, Seq<char>>, i: int)
    requires
        !has_token(text),
        0 <= i <= text.len(),
    ensures
        expand_from(text, ctx, i) == text.subrange(i, text.len() as int),
    decreases text.len() - i,
{
    if i >= text.len() {
        assert(text.subrange(i, text.len() as int) =~= Seq::<char>::empty());
    } else {
        let d = run_end(text, i);
        lemma_run_end_bounds(text, i);
        assert(!token_at(text, d));
        if d > i {
            lemma_expand_without_token(text, ctx, d);
            assert(text.subrange(i, d) + text.subrange(d, text.len() as int) =~= text.subrange(
                i,
                text.len() as int,
            ));
        } else {
            lemma_expand_without_token(text, ctx, i + 1);
            assert(seq![text[i]] + text.subrange(i + 1, text.len() as int) =~= text.subrange(
                i,
                text.len() as int,
            ));
        }
    }
}

fn ident_start(c: char) -> (b: bool)
    ensures
        b == is_ident_start(c),
{
    ('a' <= c && c <= 'z') || ('A' <= c && c <= 'Z') || c == '_'
}

fn ident_char(c: char) -> (b: bool)
    ensures
        b == is_ident_char(c),
{
    ident_start(c) || ('0' <= c && c <= '9')
}

/// Replaces every `$identifier` of `source` by its value in `ctx`, honouring
/// backslash escapes. Never fails; an unbound identifier expands to nothing.
pub fn interpolate(source: &str, ctx: &Context) -> (out: String)
    ensures
        out@ == interpolate_spec(source@, ctx@),
{
    let text = to_chars(source);
    let n: usize = text.len();
    let mut out = String::new();
    let mut i: usize = 0;
    while i < n
        invariant
            i <= n,
            n == text.len(),
            text@ == source@,
            out@ + expand_from(text@, ctx@, i as int) == expand_from(text@, ctx@, 0),
        decreases n - i,
    {
        let mut d: usize = i;
        while d < n && text[d] == '\\'
            invariant
                i <= d <= n,
                n == text.len(),
                run_end(text@, d as int) == run_end(text@, i as int),
            decreases n - d,
        {
            d += 1;
        }
        let ghost rest = expand_from(text@, ctx@, i as int);
        let ghost before = out@;
        if d < n && n - d > 1 && text[d] == '$' && ident_start(text[d + 1]) {
            let mut e: usize = d + 2;
            while e < n && ident_char(text[e])
                invariant
                    d + 2 <= e <= n,
                    n == text.len(),
                    ident_end(text@, e as int) == ident_end(text@, d + 2),
                decreases n - e,
            {
                e += 1;
            }
            let ghost slashes = text@.subrange(i as int, d as int);
            let ghost name_spec = text@.subrange(d + 1, e as int);
            if (d - i) % 2 == 1 {
                push_range(&mut out, &text, i, d - 1);
                push_range(&mut out, &text, d, e);
                proof {
                    assert(text@.subrange(i as int, d - 1) =~= slashes.drop_last());
                    assert(text@.subrange(d as int, e as int) =~= seq!['$'] + name_spec);
                    assert(out@ =~= before + expand_token(slashes, name_spec, ctx@));
                }
            } else {
                push_range(&mut out, &text, i, d);
                let mut name = String::new();
                push_range(&mut name, &text, d + 1, e);
                assert(name@ =~= name_spec);
                match ctx.get(name.as_str()) {
                    Some(value) => {
                        out.append(value.as_str());
                    },
                    None => {},
                }
                proof {
                    assert(out@ =~= before + expand_token(slashes, name_spec, ctx@));
                }
            }
            proof {
                let tail = expand_from(text@, ctx@, e as int);
                assert(rest == expand_token(slashes, name_spec, ctx@) + tail);
                assert(out@ + tail =~= before + rest);
            }
            i = e;
        } else if d > i {
            push_range(&mut out, &text, i, d);
            proof {
                let tail = expand_from(text@, ctx@, d as int);
                assert(rest == text@.subrange(i as int, d as int) + tail);
                assert(out@ + tail =~= before + rest);
            }
            i = d;
        } else {
            out.push(text[i]);
            proof {
                let tail = expand_from(text@, ctx@, i + 1);
                assert(rest == seq![text@[i as int]] + tail);
                assert(out@ + tail =~= before + rest);
            }
            i += 1;
        }
    }
    assert(out@ + Seq::<char>::empty() =~= out@);
    out
}

/// What can be interpolated in a context.
pub trait Interpolate: Sized {
    /// The text of a value.
    spec fn text(&self) -> Seq<char>;

    /// The value with every `$identifier` of its text replaced as `ctx` says.
    fn interpolate(&self, ctx: &Context) -> (out: Self)
        ensures
            out.text() == interpolate_spec(self.text(), ctx@),
    ;
}

impl Interpolate for String {
    open spec fn text(&self) -> Seq<char> {
        self@
    }

    fn interpolate(&self, ctx: &Context) -> (out: String)
        ensures
            out@ == interpolate_spec(self@, ctx@),
    {
        interpolate(self.as_str(), ctx)
    }
}

} // verus!
