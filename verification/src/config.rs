//! The manifest of a template, and its normalization against the workspace.
//!
//! Normalization roots every declared path at the workspace, once: first
//! the exclusions, to which the manifest itself and the directory of
//! auxiliary files are added, then the paths inside the additional
//! operations. The set of dynamic files is resolved at once where no
//! additional operation can change the tree, and after the operations have
//! run otherwise.

use crate::fs::walk::{keys_of, walk_dir_skip, walk_spec, WalkError, WalkdirPathBuf};
use crate::fs::FsNode;
use crate::op::{AdditionalOperation, Condition, GroupView, Operation, OperationView};
use crate::path::{components, covered_by, join, join_spec, parse_all, within, PathKey};
use crate::text::copy_texts;
use vstd::prelude::*;
use vstd::string::*;

verus! {

/// The name of the manifest file, at the root of a template.
pub const META_CONF: &'static str = "meta.json";

/// The name of the directory of auxiliary files, at the root of a template.
pub const AUX_UTILS: &'static str = ".proplate_aux_utils";

/// How an argument is asked for.
#[derive(Debug, Clone, Copy, PartialEq, Eq, Structural)]
pub enum ArgType {
    Text,
    Select,
}

/// An argument that a template asks for when a project is created from it.
#[derive(Debug)]
pub struct Arg {
    pub key: String,
    pub q_type: ArgType,
    pub label: String,
    pub default_value: Option<String>,
    /// The choices, where the argument is a `Select`.
    pub options: Option<Vec<String>>,
}

/// The manifest of a template.
#[derive(Debug)]
pub struct TemplateConf {
    /// The identifier that the template declares.
    pub id: String,
    /// Paths that are never copied to the destination.
    pub exclude: Vec<String>,
    /// The arguments to ask for.
    pub args: Vec<Arg>,
    /// Paths whose content is interpolated.
    pub dynamic_files: Vec<String>,
    /// Groups of file operations, each behind its conditions.
    pub additional_operations: Vec<AdditionalOperation>,
    /// Whether the dynamic files are still to be resolved, after the
    /// additional operations have run.
    pub require_dyn_file_analysis: bool,
}

/// A manifest as plain values.
pub struct ConfView {
    pub id: Seq<char>,
    pub exclude: Seq<Seq<char>>,
    pub args: Seq<Arg>,
    pub dynamic_files: Seq<Seq<char>>,
    pub additional_operations: Seq<GroupView>,
    pub require_dyn_file_analysis: bool,
}

impl View for TemplateConf {
    type V = ConfView;

    open spec fn view(&self) -> ConfView {
        ConfView {
            id: self.id@,
            exclude: self.exclude.deep_view(),
            args: self.args@,
            dynamic_files: self.dynamic_files.deep_view(),
            additional_operations: self.additional_operations@.map_values(
                |g: AdditionalOperation| g@,
            ),
            require_dyn_file_analysis: self.require_dyn_file_analysis,
        }
    }
}

impl TemplateConf {
    /// The manifest as a template declares it. What the declaration leaves
    /// out takes its default: nothing excluded, no dynamic file, no
    /// additional operation.
    pub fn declared(
        id: String,
        args: Vec<Arg>,
        exclude: Option<Vec<String>>,
        dynamic_files: Option<Vec<String>>,
        additional_operations: Option<Vec<AdditionalOperation>>,
    ) -> (conf: TemplateConf)
        ensures
            conf@ == (ConfView {
                id: id@,
                exclude: match exclude {
                    Some(paths) => paths.deep_view(),
                    None => Seq::empty(),
                },
                args: args@,
                dynamic_files: match dynamic_files {
                    Some(paths) => paths.deep_view(),
                    None => Seq::empty(),
                },
                additional_operations: match additional_operations {
                    Some(groups) => groups@.map_values(|g: AdditionalOperation| g@),
                    None => Seq::empty(),
                },
                require_dyn_file_analysis: false,
            }),
    {
        let conf = TemplateConf {
            id,
            exclude: match exclude {
                Some(paths) => paths,
                None => Vec::new(),
            },
            args,
            dynamic_files: match dynamic_files {
                Some(paths) => paths,
                None => Vec::new(),
            },
            additional_operations: match additional_operations {
                Some(groups) => groups,
                None => Vec::new(),
            },
            require_dyn_file_analysis: false,
        };
        assert(exclude is None ==> conf@.exclude =~= Seq::<Seq<char>>::empty());
        assert(dynamic_files is None ==> conf@.dynamic_files =~= Seq::<Seq<char>>::empty());
        assert(additional_operations is None ==> conf@.additional_operations =~= Seq::<
            GroupView,
        >::empty());
        conf
    }
}

/// Each path rooted at `base`.
pub open spec fn rooted_all(paths: Seq<Seq<char>>, base: Seq<char>) -> Seq<Seq<char>> {
    paths.map_values(|p: Seq<char>| join_spec(base, p))
}

/// The operation with every path that it names rooted at `base`.
pub open spec fn rooted_operation(op: OperationView, base: Seq<char>) -> OperationView {
    match op {
        OperationView::Copy { file, dest } => OperationView::Copy {
            file: join_spec(base, file),
            dest: join_spec(base, dest),
        },
        OperationView::CopyDir { path, dest } => OperationView::CopyDir {
            path: join_spec(base, path),
            dest: join_spec(base, dest),
        },
        OperationView::Remove { files } => OperationView::Remove { files: rooted_all(files, base) },
    }
}

/// The group with the paths of its operations rooted at `base`.
pub open spec fn rooted_group(group: GroupView, base: Seq<char>) -> GroupView {
    GroupView {
        conditions: group.conditions,
        operations: group.operations.map_values(|o: OperationView| rooted_operation(o, base)),
    }
}

/// The manifest with its exclusions completed and rooted at `base`.
pub open spec fn with_exclusions(conf: ConfView, base: Seq<char>) -> ConfView {
    ConfView { exclude: rooted_all(conf.exclude + seq![AUX_UTILS@, META_CONF@], base), ..conf }
}

/// The manifest with the paths of its additional operations rooted at `base`.
pub open spec fn with_rooted_operations(conf: ConfView, base: Seq<char>) -> ConfView {
    ConfView {
        additional_operations: conf.additional_operations.map_values(
            |g: GroupView| rooted_group(g, base),
        ),
        ..conf
    }
}

/// Whether `file` is, or lies below, one of the `declared` paths.
pub open spec fn covered(file: Seq<char>, declared: Seq<Seq<char>>) -> bool {
    exists|i: int|
        0 <= i < declared.len() && within(components(file), components(#[trigger] declared[i]))
}

/// Of the first `n` files, the absolute paths of those that `declared` covers.
pub open spec fn covered_of_first(
    files: Seq<(Seq<char>, Seq<char>)>,
    n: nat,
    declared: Seq<Seq<char>>,
) -> Seq<Seq<char>>
    decreases n,
{
    if n == 0 || n > files.len() {
        Seq::empty()
    } else {
        let before = covered_of_first(files, (n - 1) as nat, declared);
        if covered(files[n - 1].0, declared) {
            before.push(files[n - 1].0)
        } else {
            before
        }
    }
}

/// The dynamic files, given the `files` of the workspace that are not
/// excluded: all of them where the manifest declares none, otherwise those
/// that are a declared path or lie below one.
pub open spec fn resolved_dynamic_files(
    declared: Seq<Seq<char>>,
    base: Seq<char>,
    files: Seq<(Seq<char>, Seq<char>)>,
) -> Seq<Seq<char>> {
    if declared.len() == 0 {
        files.map_values(|f: (Seq<char>, Seq<char>)| f.0)
    } else {
        covered_of_first(files, files.len(), rooted_all(declared, base))
    }
}

/// The manifest with its dynamic files resolved against `files`.
pub open spec fn analyzed(
    conf: ConfView,
    base: Seq<char>,
    files: Seq<(Seq<char>, Seq<char>)>,
) -> ConfView {
    ConfView { dynamic_files: resolved_dynamic_files(conf.dynamic_files, base, files), ..conf }
}

/// The manifest rooted at `base`, before its dynamic files are resolved.
pub open spec fn rooted(conf: ConfView, base: Seq<char>) -> ConfView {
    ConfView {
        require_dyn_file_analysis: true,
        ..with_rooted_operations(with_exclusions(conf, base), base)
    }
}

/// The normalized manifest, where `tree` is the snapshot of the workspace
/// at `base`. With additional operations the dynamic files stay to be
/// resolved; without any they are resolved at once, which fails where the
/// walk of the workspace does.
pub open spec fn normalized(conf: ConfView, base: Seq<char>, tree: FsNode) -> Result<
    ConfView,
    WalkError,
> {
    let before = rooted(conf, base);
    if before.additional_operations.len() > 0 {
        Ok(before)
    } else {
        match walk_spec(tree, base, Seq::<char>::empty(), keys_of(before.exclude)) {
            Ok(files) => Ok(
                ConfView { require_dyn_file_analysis: false, ..analyzed(before, base, files) },
            ),
            Err(e) => Err(e),
        }
    }
}

/// Normalizes the manifest against the workspace at `base`, of which `tree`
/// is the snapshot. On failure the manifest is rooted and its dynamic files
/// are still to be resolved.
pub fn normalize(config: &mut TemplateConf, base: &str, tree: &FsNode) -> (done: Result<
    (),
    WalkError,
>)
    ensures
        match normalized(old(config)@, base@, *tree) {
            Ok(conf) => done is Ok && final(config)@ == conf,
            Err(e) => done == Err::<(), WalkError>(e) && final(config)@ == rooted(
                old(config)@,
                base@,
            ),
        },
{
    set_exclude_files(config, base);
    set_additional_ops_files(config, base);
    config.require_dyn_file_analysis = true;
    if config.additional_operations.is_empty() {
        match analyze_dyn_files(config, base, tree) {
            Ok(()) => {
                config.require_dyn_file_analysis = false;
                Ok(())
            },
            Err(e) => Err(e),
        }
    } else {
        Ok(())
    }
}

/// Completes the exclusions with the directory of auxiliary files and the
/// manifest, and roots them all at `base`.
pub fn set_exclude_files(config: &mut TemplateConf, base: &str)
    ensures
        final(config)@ == with_exclusions(old(config)@, base@),
{
    let ghost declared = config.exclude.deep_view();
    config.exclude.push(AUX_UTILS.to_owned());
    config.exclude.push(META_CONF.to_owned());
    assert(config.exclude.deep_view() =~= declared + seq![AUX_UTILS@, META_CONF@]);
    to_relative_all(&mut config.exclude, base);
}

/// Roots at `base` every path that an additional operation names.
pub fn set_additional_ops_files(config: &mut TemplateConf, base: &str)
    ensures
        final(config)@ == with_rooted_operations(old(config)@, base@),
{
    let mut groups: Vec<AdditionalOperation> = Vec::new();
    let mut i: usize = 0;
    while i < config.additional_operations.len()
        invariant
            i <= config.additional_operations.len(),
            *config == *old(config),
            groups@.len() == i,
            forall|j: int|
                0 <= j < i ==> (#[trigger] groups@[j])@ == rooted_group(
                    config.additional_operations@[j]@,
                    base@,
                ),
        decreases config.additional_operations.len() - i,
    {
        groups.push(root_group(&config.additional_operations[i], base));
        i += 1;
    }
    config.additional_operations = groups;
    assert(config@.additional_operations =~= with_rooted_operations(
        old(config)@,
        base@,
    ).additional_operations);
}

fn copy_condition(c: &Condition) -> (copy: Condition)
    ensures
        copy@ == c@,
{
    Condition { lhs: c.lhs.clone(), op: c.op, rhs: c.rhs.clone() }
}

fn root_operation(op: &Operation, base: &str) -> (rooted: Operation)
    ensures
        rooted@ == rooted_operation(op@, base@),
{
    match op {
        Operation::Copy { file, dest } => Operation::Copy {
            file: to_relative(file.as_str(), base),
            dest: to_relative(dest.as_str(), base),
        },
        Operation::CopyDir { path, dest } => Operation::CopyDir {
            path: to_relative(path.as_str(), base),
            dest: to_relative(dest.as_str(), base),
        },
        Operation::Remove { files } => {
            let mut files = copy_texts(files);
            to_relative_all(&mut files, base);
            Operation::Remove { files }
        },
    }
}

fn root_group(group: &AdditionalOperation, base: &str) -> (rooted: AdditionalOperation)
    ensures
        rooted@ == rooted_group(group@, base@),
{
    let mut conditions: Vec<Condition> = Vec::new();
    let mut c: usize = 0;
    while c < group.conditions.len()
        invariant
            c <= group.conditions.len(),
            conditions@.len() == c,
            forall|j: int| 0 <= j < c ==> (#[trigger] conditions@[j])@ == group.conditions@[j]@,
        decreases group.conditions.len() - c,
    {
        conditions.push(copy_condition(&group.conditions[c]));
        c += 1;
    }
    let mut operations: Vec<Operation> = Vec::new();
    let mut i: usize = 0;
    while i < group.operations.len()
        invariant
            i <= group.operations.len(),
            operations@.len() == i,
            forall|j: int|
                0 <= j < i ==> (#[trigger] operations@[j])@ == rooted_operation(
                    group.operations@[j]@,
                    base@,
                ),
        decreases group.operations.len() - i,
    {
        operations.push(root_operation(&group.operations[i], base));
        i += 1;
    }
    let rooted = AdditionalOperation { conditions, operations };
    assert(rooted@.conditions =~= group@.conditions);
    assert(rooted@.operations =~= rooted_group(group@, base@).operations);
    rooted
}

/// Resolves the dynamic files against `tree`, the snapshot of the workspace
/// at `base`. The walk prunes what the manifest excludes; where it fails,
/// the manifest stays as it was.
pub fn analyze_dyn_files(config: &mut TemplateConf, base: &str, tree: &FsNode) -> (done: Result<
    (),
    WalkError,
>)
    ensures
        match walk_spec(*tree, base@, Seq::<char>::empty(), keys_of(old(config)@.exclude)) {
            Ok(files) => done is Ok && final(config)@ == analyzed(old(config)@, base@, files),
            Err(e) => done == Err::<(), WalkError>(e) && final(config)@ == old(config)@,
        },
{
    let files = match walk_dir_skip(tree, base, copy_texts(&config.exclude)) {
        Ok(files) => files,
        Err(e) => { return Err(e); },
    };
    if config.dynamic_files.is_empty() {
        populate_dynamic_files(config, &files);
    } else {
        update_dynamic_files(config, base, &files);
    }
    Ok(())
}

/// Takes every file found as dynamic.
pub fn populate_dynamic_files(config: &mut TemplateConf, files: &Vec<WalkdirPathBuf>)
    ensures
        final(config)@ == (ConfView {
            dynamic_files: files.deep_view().map_values(|f: (Seq<char>, Seq<char>)| f.0),
            ..old(config)@
        }),
{
    let mut dynamic: Vec<String> = Vec::new();
    let mut i: usize = 0;
    while i < files.len()
        invariant
            i <= files.len(),
            dynamic@.len() == i,
            forall|j: int| 0 <= j < i ==> (#[trigger] dynamic@[j])@ == files@[j].0@,
        decreases files.len() - i,
    {
        dynamic.push(files[i].0.clone());
        i += 1;
    }
    config.dynamic_files = dynamic;
    assert(config@.dynamic_files =~= files.deep_view().map_values(
        |f: (Seq<char>, Seq<char>)| f.0,
    ));
}

/// Roots the declared dynamic files at `base` and replaces them by the
/// files found that are one of them or lie below one.
pub fn update_dynamic_files(config: &mut TemplateConf, base: &str, files: &Vec<WalkdirPathBuf>)
    ensures
        final(config)@ == (ConfView {
            dynamic_files: covered_of_first(
                files.deep_view(),
                files.deep_view().len(),
                rooted_all(old(config)@.dynamic_files, base@),
            ),
            ..old(config)@
        }),
{
    to_relative_all(&mut config.dynamic_files, base);
    let ghost declared = config.dynamic_files.deep_view();
    let keys = parse_all(&config.dynamic_files);
    let mut dynamic: Vec<String> = Vec::new();
    let mut i: usize = 0;
    assert(dynamic.deep_view() =~= Seq::<Seq<char>>::empty());
    assert(files.deep_view().len() == files.len());
    while i < files.len()
        invariant
            i <= files.len(),
            files.deep_view().len() == files.len(),
            declared == config.dynamic_files.deep_view(),
            keys@.len() == config.dynamic_files@.len(),
            forall|j: int|
                0 <= j < keys@.len() ==> (#[trigger] keys@[j])@ == components(
                    config.dynamic_files@[j]@,
                ),
            dynamic.deep_view() == covered_of_first(files.deep_view(), i as nat, declared),
        decreases files.len() - i,
    {
        let file = &files[i].0;
        let key = PathKey::parse(file.as_str());
        let found = covered_by(&keys, &key);
        proof {
            assert(files.deep_view()[i as int].0 == file@);
            if found {
                let j = choose|j: int| 0 <= j < keys@.len() && within(key@, (#[trigger] keys@[j])@);
                assert(declared[j] == config.dynamic_files@[j]@);
                assert(covered(file@, declared));
            }
            if covered(file@, declared) {
                let j = choose|j: int|
                    0 <= j < declared.len() && within(
                        components(file@),
                        components(#[trigger] declared[j]),
                    );
                assert(within(key@, (#[trigger] keys@[j])@));
            }
        }
        if found {
            let ghost before = dynamic.deep_view();
            dynamic.push(file.clone());
            assert(dynamic.deep_view() =~= before.push(file@));
        }
        i += 1;
    }
    config.dynamic_files = dynamic;
}

/// Roots each path of `files` at `to`.
pub fn to_relative_all(files: &mut Vec<String>, to: &str)
    ensures
        final(files).deep_view() == rooted_all(old(files).deep_view(), to@),
{
    let mut i: usize = 0;
    while i < files.len()
        invariant
            i <= files.len(),
            files@.len() == old(files)@.len(),
            forall|j: int| 0 <= j < i ==> (#[trigger] files@[j])@ == join_spec(to@, old(files)@[j]@),
            forall|j: int| i <= j < files@.len() ==> files@[j] == old(files)@[j],
        decreases files.len() - i,
    {
        let rooted = to_relative(files[i].as_str(), to);
        files.set(i, rooted);
        i += 1;
    }
    assert(files.deep_view() =~= rooted_all(old(files).deep_view(), to@));
}

/// Roots `path` at `to`.
pub fn to_relative(path: &str, to: &str) -> (rooted: String)
    ensures
        rooted@ == join_spec(to@, path@),
{
    join(to, path)
}

} // verus!
