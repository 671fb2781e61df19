//! Paths as plain text: joined by the Unix rule, compared by components.
//!
//! Two spellings name the same path when they agree on being absolute and on
//! their components. Repeated and trailing separators do not count, and
//! neither does a `.` component unless the path starts with it.

use crate::text::{push_range, to_chars};
use vstd::prelude::*;
use vstd::string::*;

verus! {

/// A path is absolute when it starts at the root.
pub open spec fn is_absolute(p: Seq<char>) -> bool {
    p.len() > 0 && p[0] == '/'
}

/// A base needs a separator appended before a component can follow it.
pub open spec fn needs_separator(base: Seq<char>) -> bool {
    base.len() > 0 && base.last() != '/'
}

/// `rel` resolved against `base`: an absolute `rel` replaces the base,
/// otherwise it is appended, with a separator where the base lacks one.
pub open spec fn join_spec(base: Seq<char>, rel: Seq<char>) -> Seq<char> {
    if is_absolute(rel) {
        rel
    } else if needs_separator(base) {
        base + seq!['/'] + rel
    } else {
        base + rel
    }
}

/// The end of the segment that starts at `i`: the first position from `i` on
/// that holds a separator, or the end of the path.
pub open spec fn segment_end(p: Seq<char>, i: int) -> int
    decreases p.len() - i,
{
    if 0 <= i < p.len() && p[i] != '/' {
        segment_end(p, i + 1)
    } else {
        i
    }
}

/// The segment `.`, which names the directory it stands in.
pub open spec fn is_cur_dir(segment: Seq<char>) -> bool {
    segment.len() == 1 && segment[0] == '.'
}

/// The components of `p[i..]`: its non-empty segments, without those that
/// are `.`, except one at the very start of the path.
pub open spec fn components_from(p: Seq<char>, i: int) -> Seq<Seq<char>>
    decreases p.len() - i,
{
    if i < 0 || i >= p.len() {
        Seq::empty()
    } else if p[i] == '/' {
        components_from(p, i + 1)
    } else {
        let e = segment_end(p, i);
        proof {
            lemma_segment_end_bounds(p, i);
        }
        if is_cur_dir(p.subrange(i, e)) && i > 0 {
            components_from(p, e)
        } else {
            seq![p.subrange(i, e)] + components_from(p, e)
        }
    }
}

/// What a path names, whatever its spelling.
pub struct Components {
    pub absolute: bool,
    pub parts: Seq<Seq<char>>,
}

/// The components of the path `p`.
pub open spec fn components(p: Seq<char>) -> Components {
    Components { absolute: is_absolute(p), parts: components_from(p, 0) }
}

/// A segment ends at or after its start, within the path, and holds no separator.
pub proof fn lemma_segment_end_bounds(p: Seq<char>, i: int)
    requires
        0 <= i <= p.len(),
    ensures
        i <= segment_end(p, i) <= p.len(),
        segment_end(p, i) < p.len() ==> p[segment_end(p, i)] == '/',
        forall|j: int| i <= j < segment_end(p, i) ==> p[j] != '/',
        i < p.len() && p[i] != '/' ==> i < segment_end(p, i),
    decreases p.len() - i,
{
    if i < p.len() && p[i] != '/' {
        lemma_segment_end_bounds(p, i + 1);
    }
}

/// A name as a directory listing gives it: not empty, without a separator,
/// and not the `.` that stands for the directory itself.
pub open spec fn is_plain_name(name: Seq<char>) -> bool {
    name.len() > 0 && !is_cur_dir(name) && forall|i: int| 0 <= i < name.len() ==> name[i] != '/'
}

/// Whether `inner` lies at or below `outer`.
pub open spec fn within(inner: Components, outer: Components) -> bool {
    inner.absolute == outer.absolute && outer.parts.is_prefix_of(inner.parts)
}

/// Whether `inner` lies below `outer` and is not `outer` itself.
pub open spec fn strictly_within(inner: Components, outer: Components) -> bool {
    within(inner, outer) && inner.parts.len() > outer.parts.len()
}

proof fn lemma_segment_end_in_prefix(prefix: Seq<char>, rest: Seq<char>, i: int)
    requires
        0 <= i < prefix.len(),
        prefix.last() == '/',
    ensures
        segment_end(prefix + rest, i) == segment_end(prefix, i),
        segment_end(prefix, i) < prefix.len(),
    decreases prefix.len() - i,
{
    let q = prefix + rest;
    assert(q[i] == prefix[i]);
    if prefix[i] != '/' {
        assert(i + 1 < prefix.len());
        lemma_segment_end_in_prefix(prefix, rest, i + 1);
    }
}

proof fn lemma_components_of_extension(prefix: Seq<char>, name: Seq<char>, i: int)
    requires
        0 <= i <= prefix.len(),
        prefix.len() == 0 || prefix.last() == '/',
        is_plain_name(name),
    ensures
        components_from(prefix + name, i) == components_from(prefix, i) + seq![name],
    decreases prefix.len() - i,
{
    let q = prefix + name;
    if i == prefix.len() {
        assert(q[i] == name[0]);
        lemma_segment_end_to_end(q, i);
        assert(q.subrange(i, q.len() as int) =~= name);
        assert(components_from(q, q.len() as int) =~= Seq::<Seq<char>>::empty());
        assert(components_from(prefix, i) =~= Seq::<Seq<char>>::empty());
        assert(components_from(q, i) =~= seq![name]);
    } else {
        assert(q[i] == prefix[i]);
        if prefix[i] == '/' {
            lemma_components_of_extension(prefix, name, i + 1);
        } else {
            lemma_segment_end_in_prefix(prefix, name, i);
            lemma_segment_end_bounds(prefix, i);
            let e = segment_end(prefix, i);
            assert(q.subrange(i, e) =~= prefix.subrange(i, e));
            lemma_components_of_extension(prefix, name, e);
            let rest = components_from(prefix, e);
            assert((seq![prefix.subrange(i, e)] + rest) + seq![name] =~= seq![prefix.subrange(i, e)]
                + (rest + seq![name]));
        }
    }
}

proof fn lemma_segment_end_to_end(q: Seq<char>, i: int)
    requires
        0 <= i <= q.len(),
        forall|j: int| i <= j < q.len() ==> q[j] != '/',
    ensures
        segment_end(q, i) == q.len(),
    decreases q.len() - i,
{
    if i < q.len() {
        lemma_segment_end_to_end(q, i + 1);
    }
}

proof fn lemma_components_ignore_trailing_separator(base: Seq<char>, i: int)
    requires
        0 <= i <= base.len(),
    ensures
        components_from(base + seq!['/'], i) == components_from(base, i),
    decreases base.len() - i,
{
    let q = base + seq!['/'];
    if i == base.len() {
        assert(q[i] == '/');
        assert(components_from(q, i + 1) =~= Seq::<Seq<char>>::empty());
    } else {
        assert(q[i] == base[i]);
        if base[i] == '/' {
            lemma_components_ignore_trailing_separator(base, i + 1);
        } else {
            lemma_segment_end_before_separator(base, i);
            lemma_segment_end_bounds(base, i);
            let e = segment_end(base, i);
            assert(q.subrange(i, e) =~= base.subrange(i, e));
            lemma_components_ignore_trailing_separator(base, e);
        }
    }
}

proof fn lemma_segment_end_before_separator(base: Seq<char>, i: int)
    requires
        0 <= i <= base.len(),
    ensures
        segment_end(base + seq!['/'], i) == segment_end(base, i),
    decreases base.len() - i,
{
    let q = base + seq!['/'];
    if i < base.len() {
        assert(q[i] == base[i]);
        if base[i] != '/' {
            lemma_segment_end_before_separator(base, i + 1);
        }
    } else {
        assert(q[i] == '/');
    }
}

/// Joining a plain name to a base names the base's path with one component
/// more, the name.
pub proof fn lemma_join_adds_component(base: Seq<char>, name: Seq<char>)
    requires
        is_plain_name(name),
    ensures
        components(join_spec(base, name)) == (Components {
            absolute: is_absolute(base),
            parts: components(base).parts + seq![name],
        }),
{
    assert(!is_absolute(name));
    if needs_separator(base) {
        let prefix = base + seq!['/'];
        assert(prefix.last() == '/');
        lemma_components_of_extension(prefix, name, 0);
        lemma_components_ignore_trailing_separator(base, 0);
        assert(join_spec(base, name) =~= prefix + name);
        assert((prefix + name)[0] == base[0]);
    } else {
        lemma_components_of_extension(base, name, 0);
        if base.len() > 0 {
            assert((base + name)[0] == base[0]);
        } else {
            assert(base + name =~= name);
        }
    }
}

/// A path parsed into its components, for comparison.
pub struct PathKey {
    absolute: bool,
    parts: Vec<String>,
}

impl View for PathKey {
    type V = Components;

    closed spec fn view(&self) -> Components {
        Components { absolute: self.absolute, parts: self.parts.deep_view() }
    }
}

impl PathKey {
    /// Parses `p` into its components.
    pub fn parse(p: &str) -> (key: PathKey)
        ensures
            key@ == components(p@),
    {
        let text = to_chars(p);
        let n: usize = text.len();
        let mut parts: Vec<String> = Vec::new();
        let mut i: usize = 0;
        assert(parts.deep_view() =~= Seq::<Seq<char>>::empty());
        while i < n
            invariant
                i <= n,
                n == text.len(),
                parts.deep_view() + components_from(text@, i as int) == components_from(text@, 0),
            decreases n - i,
        {
            if text[i] == '/' {
                i += 1;
            } else {
                let mut e: usize = i + 1;
                while e < n && text[e] != '/'
                    invariant
                        i < e <= n,
                        n == text.len(),
                        segment_end(text@, e as int) == segment_end(text@, i as int),
                    decreases n - e,
                {
                    e += 1;
                }
                let ghost rest = components_from(text@, e as int);
                if e - i == 1 && text[i] == '.' && i > 0 {
                } else {
                    let ghost before = parts.deep_view();
                    let mut segment = String::new();
                    push_range(&mut segment, &text, i, e);
                    assert(segment@ =~= text@.subrange(i as int, e as int));
                    parts.push(segment);
                    assert(parts.deep_view() =~= before + seq![segment@]);
                    assert(parts.deep_view() + rest =~= before + (seq![segment@] + rest));
                }
                i = e;
            }
        }
        assert(parts.deep_view() + Seq::<Seq<char>>::empty() =~= parts.deep_view());
        PathKey { absolute: n > 0 && text[0] == '/', parts }
    }

    /// Whether `inner` lies at or below the path that this key names.
    pub fn covers(&self, inner: &PathKey) -> (covered: bool)
        ensures
            covered == within(inner@, self@),
    {
        assert(self.parts.deep_view().len() == self.parts.len());
        assert(inner.parts.deep_view().len() == inner.parts.len());
        if self.absolute != inner.absolute || self.parts.len() > inner.parts.len() {
            return false;
        }
        let mut i: usize = 0;
        while i < self.parts.len()
            invariant
                i <= self.parts.len() <= inner.parts.len(),
                self.absolute == inner.absolute,
                forall|j: int| 0 <= j < i ==> self.parts.deep_view()[j] == inner.parts.deep_view()[j],
            decreases self.parts.len() - i,
        {
            if self.parts[i] != inner.parts[i] {
                assert(self.parts.deep_view()[i as int] != inner.parts.deep_view()[i as int]);
                assert(inner.parts.deep_view().subrange(0, self.parts.len() as int)[i as int]
                    == inner.parts.deep_view()[i as int]);
                return false;
            }
            i += 1;
        }
        assert(self.parts.deep_view() =~= inner.parts.deep_view().subrange(
            0,
            self.parts.len() as int,
        ));
        true
    }

    /// Whether both keys name the same path.
    pub fn same(&self, other: &PathKey) -> (same: bool)
        ensures
            same == (self@ == other@),
    {
        if self.absolute != other.absolute || self.parts.len() != other.parts.len() {
            assert(self.parts.deep_view().len() == self.parts.len());
            assert(other.parts.deep_view().len() == other.parts.len());
            return false;
        }
        let mut i: usize = 0;
        while i < self.parts.len()
            invariant
                i <= self.parts.len(),
                self.parts.len() == other.parts.len(),
                self.absolute == other.absolute,
                forall|j: int| 0 <= j < i ==> self.parts.deep_view()[j] == other.parts.deep_view()[j],
            decreases self.parts.len() - i,
        {
            if self.parts[i] != other.parts[i] {
                assert(self.parts.deep_view()[i as int] != other.parts.deep_view()[i as int]);
                return false;
            }
            i += 1;
        }
        assert(self.parts.deep_view() =~= other.parts.deep_view());
        true
    }
}

/// Parses each path of `paths`.
pub fn parse_all(paths: &Vec<String>) -> (keys: Vec<PathKey>)
    ensures
        keys@.len() == paths@.len(),
        forall|i: int| 0 <= i < keys@.len() ==> (#[trigger] keys@[i])@ == components(paths@[i]@),
{
    let mut keys: Vec<PathKey> = Vec::new();
    let mut i: usize = 0;
    while i < paths.len()
        invariant
            i <= paths.len(),
            keys@.len() == i,
            forall|j: int| 0 <= j < i ==> (#[trigger] keys@[j])@ == components(paths@[j]@),
        decreases paths.len() - i,
    {
        keys.push(PathKey::parse(paths[i].as_str()));
        i += 1;
    }
    keys
}

/// Whether a key of `keys` names the path that `key` names.
pub fn holds_key(keys: &Vec<PathKey>, key: &PathKey) -> (found: bool)
    ensures
        found == exists|i: int| 0 <= i < keys@.len() && (#[trigger] keys@[i])@ == key@,
{
    let mut i: usize = 0;
    while i < keys.len()
        invariant
            i <= keys.len(),
            forall|j: int| 0 <= j < i ==> (#[trigger] keys@[j])@ != key@,
        decreases keys.len() - i,
    {
        if keys[i].same(key) {
            return true;
        }
        i += 1;
    }
    false
}

/// Whether `key` lies at or below a path that `keys` names.
pub fn covered_by(keys: &Vec<PathKey>, key: &PathKey) -> (found: bool)
    ensures
        found == exists|i: int| 0 <= i < keys@.len() && within(key@, (#[trigger] keys@[i])@),
{
    let mut i: usize = 0;
    while i < keys.len()
        invariant
            i <= keys.len(),
            forall|j: int| 0 <= j < i ==> !within(key@, (#[trigger] keys@[j])@),
        decreases keys.len() - i,
    {
        if keys[i].covers(key) {
            return true;
        }
        i += 1;
    }
    false
}

/// Resolves `rel` against `base`.
pub fn join(base: &str, rel: &str) -> (r: String)
    ensures
        r@ == join_spec(base@, rel@),
{
    let rel_len: usize = rel.unicode_len();
    if rel_len > 0 && rel.get_char(0) == '/' {
        return rel.to_owned();
    }
    let base_len: usize = base.unicode_len();
    let mut out = base.to_owned();
    if base_len > 0 && base.get_char(base_len - 1) != '/' {
        proof {
            reveal_strlit("/");
        }
        out.append("/");
        assert(out@ == base@ + seq!['/']);
    }
    out.append(rel);
    out
}

} // verus!
