use proplate::fs::walk::{walk_dir, walk_dir_skip, WalkDir, WalkError};
use proplate::fs::{copy_fdir, DirEntry, FsNode, FsOp};

fn file(name: &str) -> DirEntry {
    DirEntry { name: name.to_string(), node: FsNode::File }
}

fn dir(name: &str, entries: Vec<DirEntry>) -> DirEntry {
    DirEntry { name: name.to_string(), node: FsNode::Dir(entries) }
}

fn pair(abs: &str, rel: &str) -> (String, String) {
    (abs.to_string(), rel.to_string())
}

fn sample() -> FsNode {
    FsNode::Dir(vec![
        dir(".proplate_aux_utils", vec![file(".gitkeep")]),
        file("meta.json"),
        dir("node_modules", vec![dir("left-pad", vec![file("index.js")])]),
        dir("src", vec![file("main.rs"), dir("bin", vec![file("cli.rs")])]),
    ])
}

#[test]
fn a_file_at_the_root_yields_itself() {
    let found = walk_dir(&FsNode::File, "/ws/a.txt").unwrap();
    assert_eq!(found, vec![pair("/ws/a.txt", "")]);
}

#[test]
fn a_root_in_the_skip_set_is_still_walked() {
    let found = walk_dir_skip(&FsNode::File, "/ws/a.txt", vec!["/ws/a.txt".to_string()]).unwrap();
    assert_eq!(found, vec![pair("/ws/a.txt", "")]);
}

#[test]
fn walks_depth_first_in_listing_order() {
    let found = walk_dir(&sample(), "/ws").unwrap();
    assert_eq!(
        found,
        vec![
            pair("/ws/.proplate_aux_utils/.gitkeep", ".proplate_aux_utils/.gitkeep"),
            pair("/ws/meta.json", "meta.json"),
            pair("/ws/node_modules/left-pad/index.js", "node_modules/left-pad/index.js"),
            pair("/ws/src/main.rs", "src/main.rs"),
            pair("/ws/src/bin/cli.rs", "src/bin/cli.rs"),
        ]
    );
}

#[test]
fn what_is_skipped_is_pruned_with_all_below() {
    let skip = vec![
        "/ws/node_modules/".to_string(),
        "/ws/meta.json".to_string(),
        "/ws/src/bin".to_string(),
    ];
    let found = walk_dir_skip(&sample(), "/ws", skip).unwrap();
    assert_eq!(
        found,
        vec![
            pair("/ws/.proplate_aux_utils/.gitkeep", ".proplate_aux_utils/.gitkeep"),
            pair("/ws/src/main.rs", "src/main.rs"),
        ]
    );
}

#[test]
fn a_skipped_path_elsewhere_prunes_nothing() {
    let skip = vec!["/other/src".to_string(), "src".to_string(), "/ws".to_string()];
    let found = walk_dir_skip(&sample(), "/ws", skip).unwrap();
    assert_eq!(found.len(), 5);
}

#[test]
fn an_empty_directory_yields_nothing() {
    assert_eq!(walk_dir(&FsNode::Dir(Vec::new()), "/ws").unwrap(), Vec::new());
}

#[test]
fn an_unreadable_directory_abandons_the_walk() {
    let tree = FsNode::Dir(vec![
        file("a"),
        DirEntry { name: "locked".to_string(), node: FsNode::Unreadable },
        file("z"),
    ]);
    assert_eq!(walk_dir(&tree, "/ws"), Err(WalkError::Unreadable));
    assert_eq!(walk_dir(&FsNode::Unreadable, "/ws"), Err(WalkError::Unreadable));
}

#[test]
fn an_unreadable_directory_that_is_skipped_does_no_harm() {
    let tree = FsNode::Dir(vec![
        file("a"),
        DirEntry { name: "locked".to_string(), node: FsNode::Unreadable },
    ]);
    let found = walk_dir_skip(&tree, "/ws", vec!["/ws/locked".to_string()]).unwrap();
    assert_eq!(found, vec![pair("/ws/a", "a")]);
}

#[test]
fn an_entry_without_a_name_abandons_the_walk() {
    let tree = FsNode::Dir(vec![file("a"), file("")]);
    assert_eq!(walk_dir(&tree, "/ws"), Err(WalkError::InvalidName));
}

#[test]
fn the_first_failure_is_the_one_reported() {
    let tree = FsNode::Dir(vec![
        file(""),
        DirEntry { name: "locked".to_string(), node: FsNode::Unreadable },
    ]);
    assert_eq!(walk_dir(&tree, "/ws"), Err(WalkError::InvalidName));
}

#[test]
fn a_walker_takes_the_relative_path_of_its_root() {
    let walker = WalkDir::new(Some(vec!["/ws/src/bin".to_string()]));
    let tree = FsNode::Dir(vec![file("main.rs"), dir("bin", vec![file("cli.rs")])]);
    let found = walker.walk(&tree, "/ws/src", Some("src".to_string())).unwrap();
    assert_eq!(found, vec![pair("/ws/src/main.rs", "src/main.rs")]);
    let all = WalkDir::new(None).walk(&tree, "/ws/src", None).unwrap();
    assert_eq!(all, vec![pair("/ws/src/main.rs", "main.rs"), pair("/ws/src/bin/cli.rs", "bin/cli.rs")]);
}

#[test]
fn a_copy_creates_the_destination_and_copies_each_file() {
    let plan = copy_fdir(&sample(), "/ws", "out", Some(vec!["/ws/node_modules".to_string()])).unwrap();
    let shown: Vec<String> = plan.iter().map(|op| format!("{:?}", op)).collect();
    assert_eq!(
        shown,
        vec![
            "CreateDirAll { path: \"out\" }",
            "CopyFile { from: \"/ws/.proplate_aux_utils/.gitkeep\", to: \"out/.proplate_aux_utils/.gitkeep\" }",
            "CopyFile { from: \"/ws/meta.json\", to: \"out/meta.json\" }",
            "CopyFile { from: \"/ws/src/main.rs\", to: \"out/src/main.rs\" }",
            "CopyFile { from: \"/ws/src/bin/cli.rs\", to: \"out/src/bin/cli.rs\" }",
        ]
    );
    assert!(matches!(&plan[0], FsOp::CreateDirAll { path } if path == "out"));
}

#[test]
fn a_copy_fails_where_the_walk_does() {
    assert_eq!(copy_fdir(&FsNode::Unreadable, "/ws", "out", None).err(), Some(WalkError::Unreadable));
}

#[test]
fn a_failed_change_names_itself_and_its_paths() {
    let op = FsOp::CopyFile { from: "a".to_string(), to: "b".to_string() };
    let failure = op.failure("disk full");
    assert!(failure.has_cause());
    assert!(!failure.has_ctx());
    match failure.kind() {
        proplate::errors::ProplateErrorKind::Fs { concerned_paths, operation } => {
            assert_eq!(operation, "copy");
            assert_eq!(concerned_paths, &vec!["a".to_string(), "b".to_string()]);
        }
        other => panic!("unexpected kind {:?}", other),
    }
}
