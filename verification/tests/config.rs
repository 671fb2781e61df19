use proplate::config::{
    analyze_dyn_files, normalize, set_additional_ops_files, set_exclude_files, to_relative,
    to_relative_all, Arg, ArgType, TemplateConf, AUX_UTILS, META_CONF,
};
use proplate::fs::walk::WalkError;
use proplate::fs::{DirEntry, FsNode};
use proplate::op::{AdditionalOperation, Condition, Operation, StringCompareOp};

fn file(name: &str) -> DirEntry {
    DirEntry { name: name.to_string(), node: FsNode::File }
}

fn dir(name: &str, entries: Vec<DirEntry>) -> DirEntry {
    DirEntry { name: name.to_string(), node: FsNode::Dir(entries) }
}

fn texts(items: &[&str]) -> Vec<String> {
    items.iter().map(|s| s.to_string()).collect()
}

fn workspace() -> FsNode {
    FsNode::Dir(vec![
        dir(".proplate_aux_utils", vec![file("LICENSE")]),
        file("meta.json"),
        dir("node_modules", vec![file("x.js")]),
        file("package.json"),
        dir("src", vec![file("a.rs"), dir("deep", vec![file("b.rs")])]),
    ])
}

fn declared(exclude: &[&str], dynamic: &[&str], groups: Vec<AdditionalOperation>) -> TemplateConf {
    TemplateConf::declared(
        "t".to_string(),
        Vec::new(),
        Some(texts(exclude)),
        Some(texts(dynamic)),
        Some(groups),
    )
}

fn a_group() -> AdditionalOperation {
    AdditionalOperation {
        conditions: vec![Condition {
            lhs: "$license".to_string(),
            op: StringCompareOp::Eq,
            rhs: "MIT".to_string(),
        }],
        operations: vec![
            Operation::Copy { file: ".proplate_aux_utils/LICENSE".to_string(), dest: "LICENSE".to_string() },
            Operation::CopyDir { path: "a".to_string(), dest: "/abs/b".to_string() },
            Operation::Remove { files: texts(&["x", "y/z"]) },
        ],
    }
}

#[test]
fn the_names_of_the_manifest_and_of_the_auxiliary_directory() {
    assert_eq!(META_CONF, "meta.json");
    assert_eq!(AUX_UTILS, ".proplate_aux_utils");
}

#[test]
fn what_a_declaration_leaves_out_takes_its_default() {
    let conf = TemplateConf::declared("id".to_string(), Vec::new(), None, None, None);
    assert_eq!(conf.id, "id");
    assert!(conf.exclude.is_empty());
    assert!(conf.dynamic_files.is_empty());
    assert!(conf.additional_operations.is_empty());
    assert!(!conf.require_dyn_file_analysis);
    let group = AdditionalOperation::declared(None, Vec::new());
    assert!(group.conditions.is_empty());
}

#[test]
fn a_declaration_keeps_what_it_holds() {
    let args = vec![Arg {
        key: "name".to_string(),
        q_type: ArgType::Select,
        label: "Name".to_string(),
        default_value: Some("x".to_string()),
        options: Some(texts(&["x", "y"])),
    }];
    let conf = TemplateConf::declared(
        "id".to_string(),
        args,
        Some(texts(&["a"])),
        Some(texts(&["b"])),
        Some(vec![a_group()]),
    );
    assert_eq!(conf.exclude, texts(&["a"]));
    assert_eq!(conf.dynamic_files, texts(&["b"]));
    assert_eq!(conf.additional_operations.len(), 1);
    assert_eq!(conf.args[0].q_type, ArgType::Select);
}

#[test]
fn a_path_is_rooted_at_the_workspace() {
    assert_eq!(to_relative("pkg.json", "/ws"), "/ws/pkg.json");
    assert_eq!(to_relative("/abs", "/ws"), "/abs");
    let mut files = texts(&["a", "b/c", "/d"]);
    to_relative_all(&mut files, ".temp/w");
    assert_eq!(files, texts(&[".temp/w/a", ".temp/w/b/c", "/d"]));
}

#[test]
fn the_exclusions_are_completed_and_rooted() {
    let mut conf = declared(&["node_modules/"], &[], Vec::new());
    set_exclude_files(&mut conf, "/ws");
    assert_eq!(
        conf.exclude,
        texts(&["/ws/node_modules/", "/ws/.proplate_aux_utils", "/ws/meta.json"])
    );
    assert!(conf.dynamic_files.is_empty());
}

#[test]
fn the_paths_of_the_operations_are_rooted() {
    let mut conf = declared(&[], &[], vec![a_group()]);
    set_additional_ops_files(&mut conf, "/ws");
    let group = &conf.additional_operations[0];
    assert_eq!(group.conditions.len(), 1);
    assert_eq!(group.conditions[0].lhs, "$license");
    assert_eq!(group.conditions[0].rhs, "MIT");
    assert_eq!(group.conditions[0].op, StringCompareOp::Eq);
    assert!(matches!(&group.operations[0], Operation::Copy { file, dest }
        if file == "/ws/.proplate_aux_utils/LICENSE" && dest == "/ws/LICENSE"));
    assert!(matches!(&group.operations[1], Operation::CopyDir { path, dest }
        if path == "/ws/a" && dest == "/abs/b"));
    assert!(matches!(&group.operations[2], Operation::Remove { files }
        if files == &texts(&["/ws/x", "/ws/y/z"])));
    assert!(conf.exclude.is_empty());
}

#[test]
fn without_operations_the_dynamic_files_are_resolved_at_once() {
    let mut conf = declared(&["node_modules"], &[], Vec::new());
    assert_eq!(normalize(&mut conf, "/ws", &workspace()), Ok(()));
    assert!(!conf.require_dyn_file_analysis);
    assert_eq!(conf.dynamic_files, texts(&["/ws/package.json", "/ws/src/a.rs", "/ws/src/deep/b.rs"]));
    assert_eq!(conf.exclude, texts(&["/ws/node_modules", "/ws/.proplate_aux_utils", "/ws/meta.json"]));
}

#[test]
fn with_operations_the_dynamic_files_wait() {
    let mut conf = declared(&[], &["src"], vec![a_group()]);
    assert_eq!(normalize(&mut conf, "/ws", &FsNode::Unreadable), Ok(()));
    assert!(conf.require_dyn_file_analysis);
    assert_eq!(conf.dynamic_files, texts(&["src"]));
    assert_eq!(conf.exclude, texts(&["/ws/.proplate_aux_utils", "/ws/meta.json"]));
}

#[test]
fn a_failed_walk_leaves_the_manifest_rooted_and_unresolved() {
    let mut conf = declared(&[], &["src"], Vec::new());
    assert_eq!(normalize(&mut conf, "/ws", &FsNode::Unreadable), Err(WalkError::Unreadable));
    assert!(conf.require_dyn_file_analysis);
    assert_eq!(conf.dynamic_files, texts(&["src"]));
    assert_eq!(conf.exclude, texts(&["/ws/.proplate_aux_utils", "/ws/meta.json"]));
}

#[test]
fn declared_dynamic_files_expand_to_the_files_below_them() {
    let mut conf = declared(&[], &["src/", "package.json", "absent"], Vec::new());
    set_exclude_files(&mut conf, "/ws");
    assert_eq!(analyze_dyn_files(&mut conf, "/ws", &workspace()), Ok(()));
    assert_eq!(conf.dynamic_files, texts(&["/ws/package.json", "/ws/src/a.rs", "/ws/src/deep/b.rs"]));
}

#[test]
fn overlapping_declarations_yield_each_file_once() {
    let mut conf = declared(&[], &["src", "src/deep", "src/a.rs"], Vec::new());
    assert_eq!(analyze_dyn_files(&mut conf, "/ws", &workspace()), Ok(()));
    assert_eq!(conf.dynamic_files, texts(&["/ws/src/a.rs", "/ws/src/deep/b.rs"]));
}

#[test]
fn what_is_excluded_is_never_dynamic() {
    let mut conf = declared(&["src/deep", "meta.json"], &["src", "meta.json", "node_modules"], Vec::new());
    set_exclude_files(&mut conf, "/ws");
    assert_eq!(analyze_dyn_files(&mut conf, "/ws", &workspace()), Ok(()));
    assert_eq!(conf.dynamic_files, texts(&["/ws/node_modules/x.js", "/ws/src/a.rs"]));
}

#[test]
fn a_failed_analysis_changes_nothing() {
    let mut conf = declared(&[], &["src"], Vec::new());
    let tree = FsNode::Dir(vec![DirEntry { name: "x".to_string(), node: FsNode::Unreadable }]);
    assert_eq!(analyze_dyn_files(&mut conf, "/ws", &tree), Err(WalkError::Unreadable));
    assert_eq!(conf.dynamic_files, texts(&["src"]));
}
