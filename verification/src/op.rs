//! Conditions on the context, and the file operations that they guard.

use crate::context::Context;
use crate::interpolation::{interpolate, interpolate_spec};
use vstd::prelude::*;

verus! {

/// How the two sides of a condition are compared.
#[derive(Debug, Clone, Copy, PartialEq, Eq, Structural)]
pub enum StringCompareOp {
    Eq,
    NotEqual,
}

/// A comparison of two texts, each of which may hold `$identifier` tokens.
#[derive(Debug)]
pub struct Condition {
    pub lhs: String,
    pub op: StringCompareOp,
    pub rhs: String,
}

/// A condition as plain values.
pub struct ConditionView {
    pub lhs: Seq<char>,
    pub op: StringCompareOp,
    pub rhs: Seq<char>,
}

impl View for Condition {
    type V = ConditionView;

    open spec fn view(&self) -> ConditionView {
        ConditionView { lhs: self.lhs@, op: self.op, rhs: self.rhs@ }
    }
}

/// Whether the comparison holds of the two sides as they stand.
pub open spec fn compares(c: ConditionView) -> bool {
    match c.op {
        StringCompareOp::Eq => c.lhs == c.rhs,
        StringCompareOp::NotEqual => c.lhs != c.rhs,
    }
}

/// Whether the condition holds in `ctx`: both sides are interpolated, each
/// on its own, and then compared.
pub open spec fn holds(c: ConditionView, ctx: Map<Seq<char>, Seq<char>>) -> bool {
    compares(
        ConditionView {
            lhs: interpolate_spec(c.lhs, ctx),
            op: c.op,
            rhs: interpolate_spec(c.rhs, ctx),
        },
    )
}

/// Whether every condition holds in `ctx`. No condition at all holds.
pub open spec fn all_hold(conditions: Seq<Condition>, ctx: Map<Seq<char>, Seq<char>>) -> bool {
    forall|i: int| 0 <= i < conditions.len() ==> holds((#[trigger] conditions[i])@, ctx)
}

impl Condition {
    /// Compares the two sides as they stand.
    pub fn eval(&self) -> (b: bool)
        ensures
            b == compares(self@),
    {
        match self.op {
            StringCompareOp::Eq => self.lhs == self.rhs,
            StringCompareOp::NotEqual => self.lhs != self.rhs,
        }
    }

    /// Interpolates both sides in `ctx`, then compares them.
    pub fn eval_in_ctx(&self, ctx: &Context) -> (b: bool)
        ensures
            b == holds(self@, ctx@),
    {
        let c = Condition {
            lhs: interpolate(self.lhs.as_str(), ctx),
            op: self.op,
            rhs: interpolate(self.rhs.as_str(), ctx),
        };
        c.eval()
    }
}

/// A file operation that a template declares.
#[derive(Debug)]
pub enum Operation {
    /// Copy one file to `dest`.
    Copy { file: String, dest: String },
    /// Copy the directory tree at `path` to `dest`.
    CopyDir { path: String, dest: String },
    /// Delete each of `files`, with all that is below it.
    Remove { files: Vec<String> },
}

/// An operation as plain values.
pub enum OperationView {
    Copy { file: Seq<char>, dest: Seq<char> },
    CopyDir { path: Seq<char>, dest: Seq<char> },
    Remove { files: Seq<Seq<char>> },
}

impl View for Operation {
    type V = OperationView;

    open spec fn view(&self) -> OperationView {
        match self {
            Operation::Copy { file, dest } => OperationView::Copy { file: file@, dest: dest@ },
            Operation::CopyDir { path, dest } => OperationView::CopyDir { path: path@, dest: dest@ },
            Operation::Remove { files } => OperationView::Remove { files: files.deep_view() },
        }
    }
}

/// One thing to do to the file tree.
#[derive(Debug)]
pub enum Action {
    /// Copy the file `from` to `to`, creating the directories above `to`.
    Copy { from: String, to: String },
    /// Copy the directory tree `from` to `to`.
    CopyDir { from: String, to: String },
    /// Delete `path` with all that is below it; nothing to do where it is absent.
    Remove { path: String },
}

/// An action as plain values.
pub enum ActionView {
    Copy { from: Seq<char>, to: Seq<char> },
    CopyDir { from: Seq<char>, to: Seq<char> },
    Remove { path: Seq<char> },
}

impl View for Action {
    type V = ActionView;

    open spec fn view(&self) -> ActionView {
        match self {
            Action::Copy { from, to } => ActionView::Copy { from: from@, to: to@ },
            Action::CopyDir { from, to } => ActionView::CopyDir { from: from@, to: to@ },
            Action::Remove { path } => ActionView::Remove { path: path@ },
        }
    }
}

/// The views of actions, in order.
pub open spec fn action_views(actions: Seq<Action>) -> Seq<ActionView> {
    actions.map_values(|a: Action| a@)
}

/// What an operation asks for: one action, or one removal per file.
pub open spec fn operation_actions(op: Operation) -> Seq<ActionView> {
    match op {
        Operation::Copy { file, dest } => seq![ActionView::Copy { from: file@, to: dest@ }],
        Operation::CopyDir { path, dest } => seq![ActionView::CopyDir { from: path@, to: dest@ }],
        Operation::Remove { files } => files@.map_values(
            |f: String| ActionView::Remove { path: f@ },
        ),
    }
}

/// What the first `n` operations ask for, in declared order.
pub open spec fn actions_of_first(operations: Seq<Operation>, n: nat) -> Seq<ActionView>
    decreases n,
{
    if n == 0 || n > operations.len() {
        Seq::empty()
    } else {
        actions_of_first(operations, (n - 1) as nat) + operation_actions(operations[n - 1])
    }
}

/// A group of operations behind a set of conditions.
#[derive(Debug)]
pub struct AdditionalOperation {
    pub conditions: Vec<Condition>,
    /// The operations to execute where all the conditions hold.
    pub operations: Vec<Operation>,
}

/// A group as plain values.
pub struct GroupView {
    pub conditions: Seq<ConditionView>,
    pub operations: Seq<OperationView>,
}

impl View for AdditionalOperation {
    type V = GroupView;

    open spec fn view(&self) -> GroupView {
        GroupView {
            conditions: self.conditions@.map_values(|c: Condition| c@),
            operations: self.operations@.map_values(|o: Operation| o@),
        }
    }
}

impl AdditionalOperation {
    /// The group as a template declares it; one declared without
    /// conditions has none.
    pub fn declared(conditions: Option<Vec<Condition>>, operations: Vec<Operation>) -> (group:
        AdditionalOperation)
        ensures
            group.operations == operations,
            group.conditions@ == (match conditions {
                Some(c) => c@,
                None => Seq::empty(),
            }),
    {
        AdditionalOperation {
            conditions: match conditions {
                Some(c) => c,
                None => Vec::new(),
            },
            operations,
        }
    }
}

/// What a group asks for in `ctx`: all that its operations ask for where
/// every condition holds, and nothing where one does not.
pub open spec fn group_actions(
    group: AdditionalOperation,
    ctx: Map<Seq<char>, Seq<char>>,
) -> Seq<ActionView> {
    if all_hold(group.conditions@, ctx) {
        actions_of_first(group.operations@, group.operations@.len())
    } else {
        Seq::empty()
    }
}

/// What is to be done to the file tree in a context.
pub trait Execute {
    /// The actions that `execute` returns.
    spec fn actions(&self, ctx: Map<Seq<char>, Seq<char>>) -> Seq<ActionView>;

    /// The actions to perform, in order. The first that fails ends the run
    /// of the others.
    fn execute(&self, ctx: &Context) -> (asked: Vec<Action>)
        ensures
            action_views(asked@) == self.actions(ctx@),
    ;
}

impl Execute for Operation {
    open spec fn actions(&self, ctx: Map<Seq<char>, Seq<char>>) -> Seq<ActionView> {
        operation_actions(*self)
    }

    fn execute(&self, ctx: &Context) -> (asked: Vec<Action>)
        ensures
            action_views(asked@) == operation_actions(*self),
    {
        let mut asked: Vec<Action> = Vec::new();
        match self {
            Operation::Copy { file, dest } => {
                asked.push(Action::Copy { from: file.clone(), to: dest.clone() });
                assert(action_views(asked@) =~= operation_actions(*self));
            },
            Operation::CopyDir { path, dest } => {
                asked.push(Action::CopyDir { from: path.clone(), to: dest.clone() });
                assert(action_views(asked@) =~= operation_actions(*self));
            },
            Operation::Remove { files } => {
                let mut i: usize = 0;
                while i < files.len()
                    invariant
                        i <= files.len(),
                        asked@.len() == i,
                        forall|j: int|
                            0 <= j < i ==> (#[trigger] asked@[j])@ == (ActionView::Remove {
                                path: files@[j]@,
                            }),
                    decreases files.len() - i,
                {
                    asked.push(Action::Remove { path: files[i].clone() });
                    i += 1;
                }
                assert(action_views(asked@) =~= operation_actions(*self));
            },
        }
        assert(self.actions(ctx@) == operation_actions(*self));
        asked
    }
}

impl Execute for AdditionalOperation {
    open spec fn actions(&self, ctx: Map<Seq<char>, Seq<char>>) -> Seq<ActionView> {
        group_actions(*self, ctx)
    }

    fn execute(&self, ctx: &Context) -> (asked: Vec<Action>)
        ensures
            action_views(asked@) == group_actions(*self, ctx@),
    {
        let mut asked: Vec<Action> = Vec::new();
        assert(action_views(asked@) =~= Seq::<ActionView>::empty());
        let mut c: usize = 0;
        while c < self.conditions.len()
            invariant
                c <= self.conditions.len(),
                forall|j: int| 0 <= j < c ==> holds((#[trigger] self.conditions@[j])@, ctx@),
                action_views(asked@) == Seq::<ActionView>::empty(),
            decreases self.conditions.len() - c,
        {
            if !self.conditions[c].eval_in_ctx(ctx) {
                return asked;
            }
            c += 1;
        }
        let mut i: usize = 0;
        while i < self.operations.len()
            invariant
                i <= self.operations.len(),
                action_views(asked@) == actions_of_first(self.operations@, i as nat),
            decreases self.operations.len() - i,
        {
            let ghost before = asked@;
            let mut more = self.operations[i].execute(ctx);
            let ghost added = more@;
            asked.append(&mut more);
            assert(action_views(asked@) =~= action_views(before) + action_views(added));
            i += 1;
        }
        asked
    }
}

/// A group without conditions asks for all that its operations ask for,
/// whatever the context.
pub proof fn lemma_unconditional_group_executes(
    group: AdditionalOperation,
    ctx: Map<Seq<char>, Seq<char>>,
)
    requires
        group.conditions@.len() == 0,
    ensures
        group.actions(ctx) == actions_of_first(group.operations@, group.operations@.len()),
{
}

/// A group with a condition that does not hold asks for nothing.
pub proof fn lemma_failed_condition_executes_nothing(
    group: AdditionalOperation,
    ctx: Map<Seq<char>, Seq<char>>,
    i: int,
)
    requires
        0 <= i < group.conditions@.len(),
        !holds(group.conditions@[i]@, ctx),
    ensures
        group.actions(ctx) == Seq::<ActionView>::empty(),
{
}

} // verus!
