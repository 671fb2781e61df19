use proplate::context::Context;
use proplate::op::{Action, AdditionalOperation, Condition, Execute, Operation, StringCompareOp};

fn ctx_of(pairs: &[(&str, &str)]) -> Context {
    let mut ctx = Context::new();
    for (k, v) in pairs {
        ctx.insert(k.to_string(), v.to_string());
    }
    ctx
}

fn cond(lhs: &str, op: StringCompareOp, rhs: &str) -> Condition {
    Condition { lhs: lhs.to_string(), op, rhs: rhs.to_string() }
}

fn shown(actions: &[Action]) -> Vec<String> {
    actions.iter().map(|a| format!("{:?}", a)).collect()
}

fn operations() -> Vec<Operation> {
    vec![
        Operation::Copy { file: "a".to_string(), dest: "b".to_string() },
        Operation::Remove { files: vec!["x".to_string(), "y".to_string()] },
        Operation::CopyDir { path: "d".to_string(), dest: "e".to_string() },
    ]
}

fn all_actions() -> Vec<String> {
    vec![
        "Copy { from: \"a\", to: \"b\" }".to_string(),
        "Remove { path: \"x\" }".to_string(),
        "Remove { path: \"y\" }".to_string(),
        "CopyDir { from: \"d\", to: \"e\" }".to_string(),
    ]
}

#[test]
fn a_condition_compares_its_sides_as_they_stand() {
    assert!(cond("a", StringCompareOp::Eq, "a").eval());
    assert!(!cond("a", StringCompareOp::Eq, "b").eval());
    assert!(cond("a", StringCompareOp::NotEqual, "b").eval());
    assert!(!cond("a", StringCompareOp::NotEqual, "a").eval());
    assert!(!cond("$x", StringCompareOp::Eq, "1").eval());
}

#[test]
fn a_condition_interpolates_both_sides_before_it_compares() {
    let ctx = ctx_of(&[("license", "MIT"), ("other", "MIT")]);
    assert!(cond("$license", StringCompareOp::Eq, "MIT").eval_in_ctx(&ctx));
    assert!(cond("MIT", StringCompareOp::Eq, "$license").eval_in_ctx(&ctx));
    assert!(cond("$license", StringCompareOp::Eq, "$other").eval_in_ctx(&ctx));
    assert!(!cond("$license", StringCompareOp::NotEqual, "MIT").eval_in_ctx(&ctx));
    assert!(cond("$license", StringCompareOp::NotEqual, "BSD").eval_in_ctx(&ctx));
    assert!(cond("$unbound", StringCompareOp::Eq, "").eval_in_ctx(&ctx));
    assert!(cond("\\$license", StringCompareOp::Eq, "$license").eval_in_ctx(&Context::new()) == false);
}

#[test]
fn an_operation_asks_for_its_actions() {
    let ctx = Context::new();
    let ops = operations();
    assert_eq!(shown(&ops[0].execute(&ctx)), vec!["Copy { from: \"a\", to: \"b\" }"]);
    assert_eq!(shown(&ops[1].execute(&ctx)), vec!["Remove { path: \"x\" }", "Remove { path: \"y\" }"]);
    assert_eq!(shown(&ops[2].execute(&ctx)), vec!["CopyDir { from: \"d\", to: \"e\" }"]);
    let none = Operation::Remove { files: Vec::new() };
    assert!(none.execute(&ctx).is_empty());
}

#[test]
fn a_group_without_conditions_always_executes() {
    let group = AdditionalOperation { conditions: Vec::new(), operations: operations() };
    assert_eq!(shown(&group.execute(&Context::new())), all_actions());
    assert_eq!(shown(&group.execute(&ctx_of(&[("x", "y")]))), all_actions());
}

#[test]
fn a_group_executes_where_all_its_conditions_hold() {
    let group = AdditionalOperation {
        conditions: vec![
            cond("$a", StringCompareOp::Eq, "1"),
            cond("$b", StringCompareOp::NotEqual, "1"),
        ],
        operations: operations(),
    };
    assert_eq!(shown(&group.execute(&ctx_of(&[("a", "1"), ("b", "2")]))), all_actions());
}

#[test]
fn a_group_with_a_false_condition_executes_nothing() {
    let group = AdditionalOperation {
        conditions: vec![
            cond("$a", StringCompareOp::Eq, "1"),
            cond("$b", StringCompareOp::NotEqual, "1"),
        ],
        operations: operations(),
    };
    assert!(group.execute(&ctx_of(&[("a", "1"), ("b", "1")])).is_empty());
    assert!(group.execute(&ctx_of(&[("a", "2"), ("b", "2")])).is_empty());
    assert!(group.execute(&Context::new()).is_empty());
}
