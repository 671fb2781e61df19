//! Enumerates the files under a root, pruning what is to be skipped.

use crate::fs::FsNode;
use crate::path::{
    components, holds_key, join, join_spec, lemma_join_adds_component, parse_all, strictly_within,
    within, Components, PathKey,
};
use vstd::prelude::*;

verus! {

/// A file that a walk found: its absolute path, and its path relative to the
/// root of the walk.
pub type WalkdirPathBuf = (String, String);

/// Why a walk was abandoned.
#[derive(Clone, Copy, Debug, PartialEq, Eq, Structural)]
pub enum WalkError {
    /// A directory on the way could not be read.
    Unreadable,
    /// An entry on the way yielded no valid file name.
    InvalidName,
}

/// What each path of `paths` names.
pub open spec fn keys_of(paths: Seq<Seq<char>>) -> Seq<Components> {
    paths.map_values(|p: Seq<char>| components(p))
}

/// The files found under `node`, which stands at `abs` and, relative to the
/// root of the walk, at `rel`: depth first, in listing order. An entry whose
/// absolute path is named by `skip` is pruned with all that is below it. The
/// first failure abandons the whole walk.
pub open spec fn walk_spec(
    node: FsNode,
    abs: Seq<char>,
    rel: Seq<char>,
    skip: Seq<Components>,
) -> Result<Seq<(Seq<char>, Seq<char>)>, WalkError>
    decreases node, 1nat, 0nat,
{
    match node {
        FsNode::File => Ok(seq![(abs, rel)]),
        FsNode::Unreadable => Err(WalkError::Unreadable),
        FsNode::Dir(entries) => walk_prefix(node, abs, rel, skip, entries@.len()),
    }
}

/// The files found under the first `n` entries of the directory `node`.
pub open spec fn walk_prefix(
    node: FsNode,
    abs: Seq<char>,
    rel: Seq<char>,
    skip: Seq<Components>,
    n: nat,
) -> Result<Seq<(Seq<char>, Seq<char>)>, WalkError>
    decreases node, 0nat, n,
{
    match node {
        FsNode::Dir(entries) => {
            if n == 0 || n > entries@.len() {
                Ok(Seq::empty())
            } else {
                match walk_prefix(node, abs, rel, skip, (n - 1) as nat) {
                    Err(e) => Err(e),
                    Ok(before) => {
                        let entry = entries@[n - 1];
                        let child = join_spec(abs, entry.name@);
                        if skip.contains(components(child)) {
                            Ok(before)
                        } else if entry.name@.len() == 0 {
                            Err(WalkError::InvalidName)
                        } else {
                            match walk_spec(entry.node, child, join_spec(rel, entry.name@), skip) {
                                Ok(found) => Ok(before + found),
                                Err(e) => Err(e),
                            }
                        }
                    },
                }
            }
        },
        _ => Ok(Seq::empty()),
    }
}

/// Once a prefix of a directory has failed, every longer prefix fails alike.
pub proof fn lemma_walk_prefix_failure_stays(
    node: FsNode,
    abs: Seq<char>,
    rel: Seq<char>,
    skip: Seq<Components>,
    n: nat,
    m: nat,
)
    requires
        node is Dir,
        n <= m <= node->Dir_0@.len(),
        walk_prefix(node, abs, rel, skip, n) is Err,
    ensures
        walk_prefix(node, abs, rel, skip, m) == walk_prefix(node, abs, rel, skip, n),
    decreases m,
{
    if n < m {
        lemma_walk_prefix_failure_stays(node, abs, rel, skip, n, (m - 1) as nat);
    }
}

/// Every file found under a well-formed tree lies at or below the path at
/// which the tree stands, and below it where the tree is a directory.
pub proof fn lemma_walk_stays_within(
    node: FsNode,
    abs: Seq<char>,
    rel: Seq<char>,
    skip: Seq<Components>,
    k: int,
)
    requires
        node.well_formed(),
        walk_spec(node, abs, rel, skip) is Ok,
        0 <= k < walk_spec(node, abs, rel, skip)->Ok_0.len(),
    ensures
        within(components(walk_spec(node, abs, rel, skip)->Ok_0[k].0), components(abs)),
        node is Dir ==> strictly_within(
            components(walk_spec(node, abs, rel, skip)->Ok_0[k].0),
            components(abs),
        ),
    decreases node, 1nat, 0nat,
{
    match node {
        FsNode::Dir(entries) => {
            lemma_prefix_stays_within(node, abs, rel, skip, entries@.len(), k);
        },
        _ => {
            assert(components(abs).parts.is_prefix_of(components(abs).parts));
        },
    }
}

proof fn lemma_prefix_stays_within(
    node: FsNode,
    abs: Seq<char>,
    rel: Seq<char>,
    skip: Seq<Components>,
    n: nat,
    k: int,
)
    requires
        node.well_formed(),
        node is Dir,
        n <= node->Dir_0@.len(),
        walk_prefix(node, abs, rel, skip, n) is Ok,
        0 <= k < walk_prefix(node, abs, rel, skip, n)->Ok_0.len(),
    ensures
        strictly_within(
            components(walk_prefix(node, abs, rel, skip, n)->Ok_0[k].0),
            components(abs),
        ),
    decreases node, 0nat, n,
{
    let entries = node->Dir_0;
    if n > 0 {
        let before = walk_prefix(node, abs, rel, skip, (n - 1) as nat)->Ok_0;
        if k < before.len() {
            lemma_prefix_stays_within(node, abs, rel, skip, (n - 1) as nat, k);
        } else {
            let entry = entries@[n - 1];
            let child = join_spec(abs, entry.name@);
            let below = join_spec(rel, entry.name@);
            lemma_walk_stays_within(entry.node, child, below, skip, k - before.len());
            lemma_join_adds_component(abs, entry.name@);
            let found = walk_spec(entry.node, child, below, skip)->Ok_0;
            assert((before + found)[k] == found[k - before.len()]);
            let file = components(found[k - before.len()].0);
            assert(components(abs).parts.is_prefix_of(components(child).parts));
            assert(components(abs).parts.is_prefix_of(file.parts));
        }
    }
}

/// What a found file lies below the root by, in both of its paths: the
/// components of its relative path after those of `rel`.
pub open spec fn descent(found: (Seq<char>, Seq<char>), rel: Seq<char>) -> Seq<Seq<char>> {
    components(found.1).parts.skip(components(rel).parts.len() as int)
}

/// The two paths of a found file agree: each names the path at which the
/// walk started, absolute or relative, followed by the same descent.
pub proof fn lemma_walk_pairs_agree(
    node: FsNode,
    abs: Seq<char>,
    rel: Seq<char>,
    skip: Seq<Components>,
    k: int,
)
    requires
        node.well_formed(),
        walk_spec(node, abs, rel, skip) is Ok,
        0 <= k < walk_spec(node, abs, rel, skip)->Ok_0.len(),
    ensures
        ({
            let found = walk_spec(node, abs, rel, skip)->Ok_0[k];
            &&& components(found.0).absolute == components(abs).absolute
            &&& components(found.1).absolute == components(rel).absolute
            &&& components(found.0).parts == components(abs).parts + descent(found, rel)
            &&& components(found.1).parts == components(rel).parts + descent(found, rel)
        }),
    decreases node, 1nat, 0nat,
{
    match node {
        FsNode::Dir(entries) => {
            lemma_prefix_pairs_agree(node, abs, rel, skip, entries@.len(), k);
        },
        _ => {
            let none = Seq::<Seq<char>>::empty();
            assert(components(rel).parts.skip(components(rel).parts.len() as int) =~= none);
            assert(components(abs).parts + none =~= components(abs).parts);
            assert(components(rel).parts + none =~= components(rel).parts);
        },
    }
}

proof fn lemma_prefix_pairs_agree(
    node: FsNode,
    abs: Seq<char>,
    rel: Seq<char>,
    skip: Seq<Components>,
    n: nat,
    k: int,
)
    requires
        node.well_formed(),
        node is Dir,
        n <= node->Dir_0@.len(),
        walk_prefix(node, abs, rel, skip, n) is Ok,
        0 <= k < walk_prefix(node, abs, rel, skip, n)->Ok_0.len(),
    ensures
        ({
            let found = walk_prefix(node, abs, rel, skip, n)->Ok_0[k];
            &&& components(found.0).absolute == components(abs).absolute
            &&& components(found.1).absolute == components(rel).absolute
            &&& components(found.0).parts == components(abs).parts + descent(found, rel)
            &&& components(found.1).parts == components(rel).parts + descent(found, rel)
        }),
    decreases node, 0nat, n,
{
    let entries = node->Dir_0;
    if n > 0 {
        let before = walk_prefix(node, abs, rel, skip, (n - 1) as nat)->Ok_0;
        if k < before.len() {
            lemma_prefix_pairs_agree(node, abs, rel, skip, (n - 1) as nat, k);
        } else {
            let entry = entries@[n - 1];
            let name = entry.name@;
            let child = join_spec(abs, name);
            let below = join_spec(rel, name);
            let files = walk_spec(entry.node, child, below, skip)->Ok_0;
            assert((before + files)[k] == files[k - before.len()]);
            let found = files[k - before.len()];
            lemma_walk_pairs_agree(entry.node, child, below, skip, k - before.len());
            lemma_join_adds_component(abs, name);
            lemma_join_adds_component(rel, name);
            let deeper = descent(found, below);
            let at = components(rel).parts;
            assert(components(found.1).parts =~= at + (seq![name] + deeper));
            assert(descent(found, rel) =~= seq![name] + deeper);
            assert(components(found.0).parts =~= components(abs).parts + (seq![name] + deeper));
        }
    }
}

/// What a walk prunes stays out: where `skip` names a path below the root
/// of the walk, no file that the walk finds is that path or lies below it.
pub proof fn lemma_walk_excludes_skipped(
    node: FsNode,
    abs: Seq<char>,
    rel: Seq<char>,
    skip: Seq<Components>,
    pruned: Components,
    k: int,
)
    requires
        node.well_formed(),
        walk_spec(node, abs, rel, skip) is Ok,
        skip.contains(pruned),
        strictly_within(pruned, components(abs)),
        0 <= k < walk_spec(node, abs, rel, skip)->Ok_0.len(),
    ensures
        !within(components(walk_spec(node, abs, rel, skip)->Ok_0[k].0), pruned),
    decreases node, 1nat, 0nat,
{
    match node {
        FsNode::Dir(entries) => {
            lemma_prefix_excludes_skipped(node, abs, rel, skip, pruned, entries@.len(), k);
        },
        _ => {},
    }
}

proof fn lemma_prefix_excludes_skipped(
    node: FsNode,
    abs: Seq<char>,
    rel: Seq<char>,
    skip: Seq<Components>,
    pruned: Components,
    n: nat,
    k: int,
)
    requires
        node.well_formed(),
        node is Dir,
        n <= node->Dir_0@.len(),
        walk_prefix(node, abs, rel, skip, n) is Ok,
        skip.contains(pruned),
        strictly_within(pruned, components(abs)),
        0 <= k < walk_prefix(node, abs, rel, skip, n)->Ok_0.len(),
    ensures
        !within(components(walk_prefix(node, abs, rel, skip, n)->Ok_0[k].0), pruned),
    decreases node, 0nat, n,
{
    let entries = node->Dir_0;
    if n > 0 {
        let before = walk_prefix(node, abs, rel, skip, (n - 1) as nat)->Ok_0;
        if k < before.len() {
            lemma_prefix_excludes_skipped(node, abs, rel, skip, pruned, (n - 1) as nat, k);
        } else {
            let entry = entries@[n - 1];
            let child = join_spec(abs, entry.name@);
            let below = join_spec(rel, entry.name@);
            let found = walk_spec(entry.node, child, below, skip)->Ok_0;
            assert((before + found)[k] == found[k - before.len()]);
            let file = components(found[k - before.len()].0);
            lemma_join_adds_component(abs, entry.name@);
            lemma_walk_stays_within(entry.node, child, below, skip, k - before.len());
            let at = components(child);
            assert(at != pruned);
            if within(file, pruned) {
                if pruned.parts.len() <= at.parts.len() {
                    assert(pruned.parts =~= at.parts);
                } else {
                    assert(at.parts =~= pruned.parts.subrange(0, at.parts.len() as int));
                    lemma_walk_excludes_skipped(
                        entry.node,
                        child,
                        below,
                        skip,
                        pruned,
                        k - before.len(),
                    );
                }
            }
        }
    }
}

/// A walker with its exclusion set.
pub struct WalkDir {
    skip: Vec<PathKey>,
}

impl WalkDir {
    /// What this walker prunes.
    pub closed spec fn skipped(&self) -> Seq<Components> {
        self.skip@.map_values(|k: PathKey| k@)
    }

    /// A walker that prunes the paths of `skip`, or none where there is none.
    pub fn new(skip: Option<Vec<String>>) -> (walker: WalkDir)
        ensures
            walker.skipped() == keys_of(
                match skip {
                    Some(paths) => paths.deep_view(),
                    None => Seq::<Seq<char>>::empty(),
                },
            ),
    {
        match skip {
            Some(paths) => {
                let walker = WalkDir { skip: parse_all(&paths) };
                assert(walker.skipped() =~= keys_of(paths.deep_view()));
                walker
            },
            None => {
                let walker = WalkDir { skip: Vec::new() };
                assert(walker.skipped() =~= keys_of(Seq::<Seq<char>>::empty()));
                walker
            },
        }
    }

    /// Walks `tree`, the snapshot of what stands at `path`. `dir` is the path
    /// of `tree` relative to the root of the walk; `None` means the root itself.
    pub fn walk(&self, tree: &FsNode, path: &str, dir: Option<String>) -> (found: Result<
        Vec<WalkdirPathBuf>,
        WalkError,
    >)
        ensures
            walk_spec(
                *tree,
                path@,
                match dir {
                    Some(d) => d@,
                    None => Seq::<char>::empty(),
                },
                self.skipped(),
            ) == match found {
                Ok(files) => Ok(files.deep_view()),
                Err(e) => Err(e),
            },
        decreases *tree, 1nat,
    {
        let dir = match dir {
            Some(d) => d,
            None => String::new(),
        };
        match tree {
            FsNode::File => {
                let mut files: Vec<WalkdirPathBuf> = Vec::new();
                files.push(self.walk_file(path, dir.as_str()));
                assert(files.deep_view() =~= seq![(path@, dir@)]);
                Ok(files)
            },
            FsNode::Unreadable => Err(WalkError::Unreadable),
            FsNode::Dir(_) => {
                let mut files: Vec<WalkdirPathBuf> = Vec::new();
                assert(files.deep_view() =~= Seq::<(Seq<char>, Seq<char>)>::empty());
                match self.walk_dir(tree, path, dir.as_str(), &mut files) {
                    Ok(()) => Ok(files),
                    Err(e) => Err(e),
                }
            },
        }
    }

    fn walk_file(&self, path: &str, dir: &str) -> (entry: WalkdirPathBuf)
        ensures
            entry.0@ == path@,
            entry.1@ == dir@,
    {
        (path.to_owned(), dir.to_owned())
    }

    fn walk_dir(&self, tree: &FsNode, path: &str, dir: &str, dirs: &mut Vec<WalkdirPathBuf>) -> (done:
        Result<(), WalkError>)
        requires
            *tree is Dir,
        ensures
            match walk_prefix(*tree, path@, dir@, self.skipped(), tree->Dir_0@.len()) {
                Ok(found) => done is Ok && final(dirs).deep_view() == old(dirs).deep_view() + found,
                Err(e) => done == Err::<(), WalkError>(e),
            },
        decreases *tree, 0nat,
    {
        let entries = match tree {
            FsNode::Dir(entries) => entries,
            _ => { return Ok(()); },
        };
        let ghost skip = self.skipped();
        let mut i: usize = 0;
        while i < entries.len()
            invariant
                i <= entries.len(),
                *tree == FsNode::Dir(*entries),
                skip == self.skipped(),
                walk_prefix(*tree, path@, dir@, skip, i as nat) is Ok,
                dirs.deep_view() == old(dirs).deep_view() + walk_prefix(
                    *tree,
                    path@,
                    dir@,
                    skip,
                    i as nat,
                )->Ok_0,
            decreases entries.len() - i,
        {
            let entry = &entries[i];
            let child = join(path, entry.name.as_str());
            let ghost before = walk_prefix(*tree, path@, dir@, skip, i as nat)->Ok_0;
            let key = PathKey::parse(child.as_str());
            if holds_key(&self.skip, &key) {
                proof {
                    let j = choose|j: int| 0 <= j < self.skip@.len() && (#[trigger] self.skip@[j])@ == key@;
                    assert(skip[j] == key@);
                }
                i += 1;
                continue ;
            }
            assert(!skip.contains(key@)) by {
                if skip.contains(key@) {
                    let j = choose|j: int| 0 <= j < skip.len() && skip[j] == key@;
                    assert((#[trigger] self.skip@[j])@ == key@);
                }
            }
            if entry.name.as_str().unicode_len() == 0 {
                proof {
                    assert(walk_prefix(*tree, path@, dir@, skip, (i + 1) as nat) == Err::<
                        Seq<(Seq<char>, Seq<char>)>,
                        WalkError,
                    >(WalkError::InvalidName));
                    lemma_walk_prefix_failure_stays(
                        *tree,
                        path@,
                        dir@,
                        skip,
                        (i + 1) as nat,
                        entries@.len(),
                    );
                }
                return Err(WalkError::InvalidName);
            }
            let below = join(dir, entry.name.as_str());
            match self.walk(&entry.node, child.as_str(), Some(below)) {
                Ok(mut found) => {
                    let ghost old_dirs = dirs.deep_view();
                    let ghost found_view = found.deep_view();
                    dirs.append(&mut found);
                    proof {
                        assert(dirs.deep_view() =~= old_dirs + found_view);
                        assert(old(dirs).deep_view() + (before + found_view) =~= old_dirs
                            + found_view);
                    }
                },
                Err(e) => {
                    proof {
                        lemma_walk_prefix_failure_stays(
                            *tree,
                            path@,
                            dir@,
                            skip,
                            (i + 1) as nat,
                            entries@.len(),
                        );
                    }
                    return Err(e);
                },
            }
            i += 1;
        }
        Ok(())
    }
}

/// The files under `tree`, the snapshot of `path`, except what `skip` prunes.
pub fn walk_dir_skip(tree: &FsNode, path: &str, skip: Vec<String>) -> (found: Result<
    Vec<WalkdirPathBuf>,
    WalkError,
>)
    ensures
        walk_spec(*tree, path@, Seq::<char>::empty(), keys_of(skip.deep_view())) == match found {
            Ok(files) => Ok(files.deep_view()),
            Err(e) => Err(e),
        },
{
    let wd = WalkDir::new(Some(skip));
    wd.walk(tree, path, None)
}

/// All the files under `tree`, the snapshot of `path`.
pub fn walk_dir(tree: &FsNode, path: &str) -> (found: Result<Vec<WalkdirPathBuf>, WalkError>)
    ensures
        walk_spec(*tree, path@, Seq::<char>::empty(), Seq::<Components>::empty()) == match found {
            Ok(files) => Ok(files.deep_view()),
            Err(e) => Err(e),
        },
{
    let wd = WalkDir::new(None);
    assert(keys_of(Seq::<Seq<char>>::empty()) =~= Seq::<Components>::empty());
    wd.walk(tree, path, None)
}

} // verus!
