//! The run that turns a template into a project.
//!
//! The engine decides and whoever drives it acts. A run hands out one
//! request at a time (a change to perform, a tree to read, a text to read)
//! and takes the reply to decide the next. It goes through the additional
//! operations, the resolution of the dynamic files where that was put off,
//! the binding of the context, the preparation of the destination and the
//! copy of what is not excluded. Whatever happens on the way, the last
//! change asked for is the removal of the workspace, and only the reply to
//! it ends the run.

use crate::bootstrap::model::{
    absorb, bind_jobs, delivery_jobs, failed, issue, job_of_action, jobs_at_start, jobs_of_first,
    operation_jobs, outcome_of, report_of, run_at_start, snapshot_failure, step, walk_failure,
    RunView,
};
use crate::config::analyze_dyn_files;
use crate::context::Context;
use crate::errors::{ErrorView, ProplateError};
use crate::fs::walk::{keys_of, walk_spec};
use crate::fs::{copy_fdir, copy_plan, op_views, FsNode, FsOp, FsOpView};
use crate::interpolation::{interpolate, interpolate_spec};
use crate::op::{action_views, Action, ActionView, Execute};
use crate::template::Template;
use crate::text::copy_texts;
use vstd::prelude::*;
use vstd::string::*;

pub mod model;

verus! {

/// How far a run has come.
#[derive(Debug, Clone, Copy, PartialEq, Eq, Structural)]
pub enum Phase {
    /// The template stands in its workspace; the additional operations run.
    Acquired,
    /// The additional operations have run; the dynamic files are resolved.
    OperationsRun,
    /// The dynamic files are known; the context is bound to them.
    DynFilesResolved,
    /// The context is bound; the destination is prepared.
    ContextBound,
    /// The destination stands; the workspace is copied to it.
    DestPrepared,
    /// All is copied; the workspace is removed.
    Copied,
    /// The workspace has been dealt with; the run is over.
    CleanedUp,
}

/// One piece of work of a run.
#[derive(Debug)]
pub enum Job {
    /// A change that an additional operation asks for.
    Operation(FsOp),
    /// The copy of a directory tree that an additional operation asks for.
    CopyDir { from: String, to: String },
    /// The resolution of the dynamic files.
    Analyze,
    /// The binding of the context to one dynamic file.
    Bind { path: String },
    /// The writing back of a dynamic file.
    Write { path: String, text: String },
    /// The creation of the destination.
    PrepareDest,
    /// The copy of the workspace to the destination.
    CopyOut,
    /// A change that the copy to the destination asks for.
    Deliver(FsOp),
}

/// A piece of work, as plain values.
pub enum JobView {
    Operation(FsOpView),
    CopyDir { from: Seq<char>, to: Seq<char> },
    Analyze,
    Bind { path: Seq<char> },
    Write { path: Seq<char>, text: Seq<char> },
    PrepareDest,
    CopyOut,
    Deliver(FsOpView),
}

impl View for Job {
    type V = JobView;

    open spec fn view(&self) -> JobView {
        match self {
            Job::Operation(op) => JobView::Operation(op@),
            Job::CopyDir { from, to } => JobView::CopyDir { from: from@, to: to@ },
            Job::Analyze => JobView::Analyze,
            Job::Bind { path } => JobView::Bind { path: path@ },
            Job::Write { path, text } => JobView::Write { path: path@, text: text@ },
            Job::PrepareDest => JobView::PrepareDest,
            Job::CopyOut => JobView::CopyOut,
            Job::Deliver(op) => JobView::Deliver(op@),
        }
    }
}

/// How a run ended: what failed on the way, if anything, and whether the
/// removal of the workspace failed. Neither hides the other.
#[derive(Debug)]
pub struct Outcome {
    pub result: Result<(), ProplateError>,
    pub cleanup: Result<(), ProplateError>,
}

/// An outcome as plain values: the failure of the run and that of the
/// removal of the workspace, where there was one.
pub struct OutcomeView {
    pub failure: Option<ErrorView>,
    pub cleanup_failure: Option<ErrorView>,
}

impl View for Outcome {
    type V = OutcomeView;

    open spec fn view(&self) -> OutcomeView {
        OutcomeView {
            failure: match self.result {
                Ok(_) => None,
                Err(e) => Some(e@),
            },
            cleanup_failure: match self.cleanup {
                Ok(_) => None,
                Err(e) => Some(e@),
            },
        }
    }
}

impl Outcome {
    /// The outcome as one result: the failure of the run where there was
    /// one, otherwise that of the removal of the workspace, otherwise success.
    pub fn into_result(self) -> (r: Result<(), ProplateError>)
        ensures
            match r {
                Ok(_) => self@.failure is None && self@.cleanup_failure is None,
                Err(e) => match self@.failure {
                    Some(f) => e@ == f,
                    None => self@.cleanup_failure == Some(e@),
                },
            },
    {
        match self.result {
            Err(e) => Err(e),
            Ok(_) => self.cleanup,
        }
    }
}

/// What a run asks of whoever drives it.
#[derive(Debug)]
pub enum Request {
    /// Perform the change and reply `Done`, or `Failed` with a report.
    Perform(FsOp),
    /// Read what stands at the path and reply with its `Tree`.
    Snapshot(String),
    /// Read the file at the path as text and reply with its `Text`, or with
    /// `Failed` where it cannot be read as text.
    ReadText(String),
    /// Nothing more: the run is over.
    Finish(Outcome),
}

/// A request as plain values.
pub enum RequestView {
    Perform(FsOpView),
    Snapshot(Seq<char>),
    ReadText(Seq<char>),
    Finish(OutcomeView),
}

impl View for Request {
    type V = RequestView;

    open spec fn view(&self) -> RequestView {
        match self {
            Request::Perform(op) => RequestView::Perform(op@),
            Request::Snapshot(path) => RequestView::Snapshot(path@),
            Request::ReadText(path) => RequestView::ReadText(path@),
            Request::Finish(outcome) => RequestView::Finish(outcome@),
        }
    }
}

/// What comes back for a request.
#[derive(Debug)]
pub enum Reply {
    Done,
    Failed(String),
    Tree(FsNode),
    Text(String),
}

/// A reply as plain values.
pub enum ReplyView {
    Done,
    Failed(Seq<char>),
    Tree(FsNode),
    Text(Seq<char>),
}

impl View for Reply {
    type V = ReplyView;

    open spec fn view(&self) -> ReplyView {
        match self {
            Reply::Done => ReplyView::Done,
            Reply::Failed(report) => ReplyView::Failed(report@),
            Reply::Tree(tree) => ReplyView::Tree(*tree),
            Reply::Text(text) => ReplyView::Text(text@),
        }
    }
}

/// The jobs of a stack, in the order in which they are done: the last first.
pub open spec fn in_order(stack: Seq<Job>) -> Seq<JobView> {
    Seq::new(stack.len(), |i: int| stack[stack.len() - 1 - i]@)
}

proof fn lemma_push_in_order(stack: Seq<Job>, job: Job)
    ensures
        in_order(stack.push(job)) == seq![job@] + in_order(stack),
{
    assert(in_order(stack.push(job)) =~= seq![job@] + in_order(stack));
}

proof fn lemma_pop_in_order(stack: Seq<Job>)
    requires
        stack.len() > 0,
    ensures
        in_order(stack)[0] == stack.last()@,
        in_order(stack.drop_last()) == in_order(stack).drop_first(),
{
    assert(in_order(stack.drop_last()) =~= in_order(stack).drop_first());
}

/// A run of the engine on one template, for one destination and context.
pub struct Bootstrap {
    template: Template,
    dest: String,
    ctx: Context,
    /// What is left to do, the next job last.
    jobs: Vec<Job>,
    current: Option<Job>,
    cleaning: bool,
    done: bool,
    phase: Phase,
    failure: Option<ProplateError>,
    cleanup_failure: Option<ProplateError>,
}

impl View for Bootstrap {
    type V = RunView;

    closed spec fn view(&self) -> RunView {
        RunView {
            conf: self.template.conf@,
            base_path: self.template.base_path@,
            dest: self.dest@,
            ctx: self.ctx@,
            jobs: in_order(self.jobs@),
            current: match self.current {
                Some(job) => Some(job@),
                None => None,
            },
            cleaning: self.cleaning,
            done: self.done,
            phase: self.phase,
            failure: match self.failure {
                Some(e) => Some(e@),
                None => None,
            },
            cleanup_failure: match self.cleanup_failure {
                Some(e) => Some(e@),
                None => None,
            },
        }
    }
}

fn job_for(action: Action) -> (job: Job)
    ensures
        job@ == job_of_action(action@),
{
    match action {
        Action::Copy { from, to } => Job::Operation(FsOp::CopyFile { from, to }),
        Action::CopyDir { from, to } => Job::CopyDir { from, to },
        Action::Remove { path } => Job::Operation(FsOp::Remove { path }),
    }
}

/// Puts the jobs of `actions` before those of `jobs`.
fn push_actions(jobs: &mut Vec<Job>, actions: Vec<Action>)
    ensures
        in_order(final(jobs)@) == action_views(actions@).map_values(
            |a: ActionView| job_of_action(a),
        ) + in_order(old(jobs)@),
{
    let mut actions = actions;
    let ghost all = actions@;
    let ghost wanted = action_views(all).map_values(|a: ActionView| job_of_action(a));
    while actions.len() > 0
        invariant
            actions@.len() <= all.len(),
            actions@ == all.take(actions@.len() as int),
            wanted == action_views(all).map_values(|a: ActionView| job_of_action(a)),
            in_order(jobs@) == wanted.subrange(actions@.len() as int, all.len() as int) + in_order(
                old(jobs)@,
            ),
        decreases actions.len(),
    {
        let ghost k = actions@.len() - 1;
        let ghost before = jobs@;
        let action = actions.pop().unwrap();
        let job = job_for(action);
        jobs.push(job);
        proof {
            lemma_push_in_order(before, job);
            assert(action == all[k]);
            assert(wanted[k] == job@);
            assert(wanted.subrange(k, all.len() as int) =~= seq![job@] + wanted.subrange(
                k + 1,
                all.len() as int,
            ));
            assert(seq![job@] + (wanted.subrange(k + 1, all.len() as int) + in_order(old(jobs)@))
                =~= wanted.subrange(k, all.len() as int) + in_order(old(jobs)@));
            assert(actions@ =~= all.take(k));
        }
    }
    assert(wanted.subrange(0, all.len() as int) =~= wanted);
}

/// Puts the changes of `plan` before the jobs of `jobs`, on behalf of the
/// copy to the destination or of an additional operation.
fn push_plan(jobs: &mut Vec<Job>, plan: Vec<FsOp>, delivery: bool)
    ensures
        in_order(final(jobs)@) == (if delivery {
            delivery_jobs(op_views(plan@))
        } else {
            operation_jobs(op_views(plan@))
        }) + in_order(old(jobs)@),
{
    let mut plan = plan;
    let ghost all = plan@;
    let ghost wanted = if delivery {
        delivery_jobs(op_views(all))
    } else {
        operation_jobs(op_views(all))
    };
    while plan.len() > 0
        invariant
            plan@.len() <= all.len(),
            plan@ == all.take(plan@.len() as int),
            wanted == (if delivery {
                delivery_jobs(op_views(all))
            } else {
                operation_jobs(op_views(all))
            }),
            in_order(jobs@) == wanted.subrange(plan@.len() as int, all.len() as int) + in_order(
                old(jobs)@,
            ),
        decreases plan.len(),
    {
        let ghost k = plan@.len() - 1;
        let ghost before = jobs@;
        let op = plan.pop().unwrap();
        let job = if delivery {
            Job::Deliver(op)
        } else {
            Job::Operation(op)
        };
        jobs.push(job);
        proof {
            lemma_push_in_order(before, job);
            assert(op == all[k]);
            assert(wanted[k] == job@);
            assert(wanted.subrange(k, all.len() as int) =~= seq![job@] + wanted.subrange(
                k + 1,
                all.len() as int,
            ));
            assert(seq![job@] + (wanted.subrange(k + 1, all.len() as int) + in_order(old(jobs)@))
                =~= wanted.subrange(k, all.len() as int) + in_order(old(jobs)@));
            assert(plan@ =~= all.take(k));
        }
    }
    assert(wanted.subrange(0, all.len() as int) =~= wanted);
}

/// Puts the binding of each of `files` before the jobs of `jobs`.
fn push_binds(jobs: &mut Vec<Job>, files: &Vec<String>)
    ensures
        in_order(final(jobs)@) == bind_jobs(files.deep_view()) + in_order(old(jobs)@),
{
    let ghost wanted = bind_jobs(files.deep_view());
    let mut k: usize = files.len();
    assert(files.deep_view().len() == files.len());
    assert(wanted.subrange(k as int, files.len() as int) + in_order(old(jobs)@) =~= in_order(
        old(jobs)@,
    ));
    while k > 0
        invariant
            k <= files.len(),
            files.deep_view().len() == files.len(),
            wanted == bind_jobs(files.deep_view()),
            in_order(jobs@) == wanted.subrange(k as int, files.len() as int) + in_order(
                old(jobs)@,
            ),
        decreases k,
    {
        k -= 1;
        let ghost before = jobs@;
        let job = Job::Bind { path: files[k].clone() };
        jobs.push(job);
        proof {
            lemma_push_in_order(before, job);
            assert(files.deep_view()[k as int] == files@[k as int]@);
            assert(wanted[k as int] == job@);
            assert(seq![job@] + (wanted.subrange(k + 1, files.len() as int) + in_order(
                old(jobs)@,
            )) =~= wanted.subrange(k as int, files.len() as int) + in_order(old(jobs)@));
        }
    }
    assert(wanted.subrange(0, files.len() as int) =~= wanted);
}

/// The writing back of the dynamic file `path`, whose content was
/// `content`: every `$identifier` replaced by its value in `ctx`.
pub fn bind_ctx_to_file(path: String, content: &str, ctx: &Context) -> (write: Job)
    ensures
        write@ == (JobView::Write { path: path@, text: interpolate_spec(content@, ctx@) }),
{
    Job::Write { path, text: interpolate(content, ctx) }
}

fn report(reply: &Reply) -> (text: String)
    ensures
        text@ == report_of(reply@),
{
    match reply {
        Reply::Failed(report) => report.clone(),
        _ => String::from_str("unexpected reply"),
    }
}

fn walk_failed(operation: &str, paths: Vec<String>) -> (e: ProplateError)
    ensures
        e@ == walk_failure(operation@, paths.deep_view()),
{
    ProplateError::fs(operation, paths).with_cause("the tree could not be walked")
}

fn snapshot_failed(operation: &str, paths: Vec<String>, reply: &Reply) -> (e: ProplateError)
    ensures
        e@ == snapshot_failure(operation@, paths.deep_view(), reply@),
{
    let text = report(reply);
    ProplateError::fs(operation, paths).with_cause(text.as_str())
}

fn one_path(a: &String) -> (paths: Vec<String>)
    ensures
        paths.deep_view() == seq![a@],
{
    let mut paths: Vec<String> = Vec::new();
    paths.push(a.clone());
    assert(paths.deep_view() =~= seq![a@]);
    paths
}

fn two_paths(a: &String, b: &String) -> (paths: Vec<String>)
    ensures
        paths.deep_view() == seq![a@, b@],
{
    let mut paths: Vec<String> = Vec::new();
    paths.push(a.clone());
    paths.push(b.clone());
    assert(paths.deep_view() =~= seq![a@, b@]);
    paths
}

/// What a run on `template` in `ctx` has to do, as a stack with the next
/// job last: the additional operations whose conditions hold, the
/// resolution or the binding of the dynamic files, the destination, the copy.
pub fn process_template(template: &Template, ctx: &Context) -> (jobs: Vec<Job>)
    ensures
        in_order(jobs@) == jobs_at_start(template.conf, ctx@),
{
    let mut jobs: Vec<Job> = Vec::new();
    jobs.push(Job::CopyOut);
    jobs.push(Job::PrepareDest);
    assert(in_order(jobs@) =~= seq![JobView::PrepareDest, JobView::CopyOut]);
    if template.conf.require_dyn_file_analysis {
        let ghost before = jobs@;
        jobs.push(Job::Analyze);
        proof {
            lemma_push_in_order(before, Job::Analyze);
        }
    } else {
        push_binds(&mut jobs, &template.conf.dynamic_files);
    }
    let ghost tail = in_order(jobs@);
    let groups = &template.conf.additional_operations;
    let mut g: usize = groups.len();
    assert(jobs_of_first(groups@, ctx@, g as nat) + tail == jobs_at_start(template.conf, ctx@)) by {
        assert(jobs_at_start(template.conf, ctx@) =~= jobs_of_first(groups@, ctx@, g as nat)
            + tail);
    }
    while g > 0
        invariant
            g <= groups.len(),
            groups == &template.conf.additional_operations,
            jobs_of_first(groups@, ctx@, g as nat) + in_order(jobs@) == jobs_at_start(
                template.conf,
                ctx@,
            ),
        decreases g,
    {
        g -= 1;
        let ghost before = in_order(jobs@);
        let actions = groups[g].execute(ctx);
        push_actions(&mut jobs, actions);
        proof {
            let added = groups@[g as int].actions(ctx@).map_values(
                |a: ActionView| job_of_action(a),
            );
            assert(in_order(jobs@) == added + before);
            assert(jobs_of_first(groups@, ctx@, (g + 1) as nat) == jobs_of_first(
                groups@,
                ctx@,
                g as nat,
            ) + added);
            assert(jobs_of_first(groups@, ctx@, g as nat) + (added + before) =~= (jobs_of_first(
                groups@,
                ctx@,
                g as nat,
            ) + added) + before);
        }
    }
    assert(jobs_of_first(groups@, ctx@, 0) + in_order(jobs@) =~= in_order(jobs@));
    jobs
}

/// The creation of the destination `dest`.
pub fn prepare_dest(dest: &str) -> (op: FsOp)
    ensures
        op@ == (FsOpView::CreateDirAll { path: dest@ }),
{
    FsOp::CreateDirAll { path: dest.to_owned() }
}

/// Plans the copy of the workspace of `template`, of which `tree` is the
/// snapshot, to `dest`: every file but what the manifest excludes, at its
/// relative path below `dest`. Fails where the walk of the workspace does.
pub fn copy_files(template: &Template, dest: &str, tree: &FsNode) -> (plan: Result<
    Vec<FsOp>,
    ProplateError,
>)
    ensures
        match walk_spec(
            *tree,
            template.base_path@,
            Seq::<char>::empty(),
            keys_of(template.conf@.exclude),
        ) {
            Ok(files) => plan is Ok && op_views(plan->Ok_0@) == copy_plan(files, dest@),
            Err(_) => plan is Err && plan->Err_0@ == walk_failure(
                "copy_fdir"@,
                seq![template.base_path@, dest@],
            ),
        },
{
    let except = copy_texts(&template.conf.exclude);
    match copy_fdir(tree, template.base_path.as_str(), dest, Some(except)) {
        Ok(plan) => Ok(plan),
        Err(_) => {
            let mut paths: Vec<String> = Vec::new();
            paths.push(template.base_path.clone());
            paths.push(dest.to_owned());
            assert(paths.deep_view() =~= seq![template.base_path@, dest@]);
            Err(walk_failed("copy_fdir", paths))
        },
    }
}

/// The removal of the workspace of `template`.
pub fn cleanup(template: &Template) -> (op: FsOp)
    ensures
        op@ == (FsOpView::RemoveDirAll { path: template.base_path@ }),
{
    FsOp::RemoveDirAll { path: template.base_path.clone() }
}

/// Starts the run that makes a project at `dest` out of `template` in the
/// context `ctx`, and gives its first request.
pub fn bootstrap(template: Template, dest: &str, ctx: Context) -> (started: (Bootstrap, Request))
    ensures
        (started.0@, started.1@) == issue(run_at_start(template, dest@, ctx@)),
{
    let mut run = Bootstrap::new(template, dest, ctx);
    let request = run.issue();
    (run, request)
}

impl Bootstrap {
    /// A run on `template`, to the destination `dest`, in the context `ctx`.
    /// Nothing has been asked yet; the first call of `next` gives the first
    /// request, whatever reply it is given.
    pub fn new(template: Template, dest: &str, ctx: Context) -> (run: Bootstrap)
        ensures
            run@ == run_at_start(template, dest@, ctx@),
    {
        let jobs = process_template(&template, &ctx);
        Bootstrap {
            template,
            dest: dest.to_owned(),
            ctx,
            jobs,
            current: None,
            cleaning: false,
            done: false,
            phase: Phase::Acquired,
            failure: None,
            cleanup_failure: None,
        }
    }

    /// How far the run has come.
    pub fn phase(&self) -> (phase: Phase)
        ensures
            phase == self@.phase,
    {
        self.phase
    }

    /// Whether the run is over.
    pub fn is_done(&self) -> (done: bool)
        ensures
            done == self@.done,
    {
        self.done
    }

    /// The template of the run, with its manifest as it now stands.
    pub fn template(&self) -> (template: &Template)
        ensures
            template.conf@ == self@.conf,
            template.base_path@ == self@.base_path,
    {
        &self.template
    }

    /// How the run stands as an outcome.
    fn outcome(&self) -> (outcome: Outcome)
        ensures
            outcome@ == outcome_of(self@),
    {
        Outcome {
            result: match &self.failure {
                Some(e) => Err(e.duplicate()),
                None => Ok(()),
            },
            cleanup: match &self.cleanup_failure {
                Some(e) => Err(e.duplicate()),
                None => Ok(()),
            },
        }
    }

    /// Gives up what is left to do, because of `e`.
    fn fail(&mut self, e: ProplateError)
        ensures
            final(self)@ == failed(old(self)@, e@),
    {
        self.jobs.clear();
        self.failure = Some(e);
        assert(in_order(self.jobs@) =~= Seq::<JobView>::empty());
    }

    /// Takes in the reply to `job`.
    fn absorb(&mut self, job: Job, reply: Reply)
        requires
            old(self).current is None,
        ensures
            final(self)@ == (RunView { current: None, ..absorb(old(self)@, job@, reply@) }),
    {
        match job {
            Job::Operation(op) => match reply {
                Reply::Done => {},
                other => {
                    let text = report(&other);
                    self.fail(op.failure(text.as_str()));
                },
            },
            Job::Deliver(op) => match reply {
                Reply::Done => {},
                other => {
                    let text = report(&other);
                    self.fail(op.failure(text.as_str()));
                },
            },
            Job::PrepareDest => match reply {
                Reply::Done => {},
                other => {
                    let text = report(&other);
                    let op = prepare_dest(self.dest.as_str());
                    self.fail(op.failure(text.as_str()));
                },
            },
            Job::Write { .. } => {},
            Job::Bind { path } => match reply {
                Reply::Text(text) => {
                    let ghost before = self.jobs@;
                    let next = bind_ctx_to_file(path, text.as_str(), &self.ctx);
                    self.jobs.push(next);
                    proof {
                        lemma_push_in_order(before, next);
                    }
                },
                _ => {},
            },
            Job::CopyDir { from, to } => match reply {
                Reply::Tree(tree) => {
                    assert(Seq::<Seq<char>>::empty() =~= Seq::<Seq<char>>::empty());
                    match copy_fdir(&tree, from.as_str(), to.as_str(), None) {
                        Ok(plan) => push_plan(&mut self.jobs, plan, false),
                        Err(_) => self.fail(walk_failed("copy_dir", two_paths(&from, &to))),
                    }
                },
                other => self.fail(snapshot_failed("copy_dir", two_paths(&from, &to), &other)),
            },
            Job::Analyze => match reply {
                Reply::Tree(tree) => {
                    let base = self.template.base_path.clone();
                    match analyze_dyn_files(&mut self.template.conf, base.as_str(), &tree) {
                        Ok(()) => push_binds(&mut self.jobs, &self.template.conf.dynamic_files),
                        Err(_) => self.fail(walk_failed("analyze_dyn_files", one_path(&base))),
                    }
                },
                other => {
                    let base = self.template.base_path.clone();
                    self.fail(snapshot_failed("analyze_dyn_files", one_path(&base), &other))
                },
            },
            Job::CopyOut => match reply {
                Reply::Tree(tree) => {
                    match copy_files(&self.template, self.dest.as_str(), &tree) {
                        Ok(plan) => push_plan(&mut self.jobs, plan, true),
                        Err(e) => self.fail(e),
                    }
                },
                other => {
                    let paths = two_paths(&self.template.base_path, &self.dest);
                    self.fail(snapshot_failed("copy_fdir", paths, &other))
                },
            },
        }
    }

    /// Asks for the next job, or for the removal of the workspace where no
    /// job is left.
    fn issue(&mut self) -> (request: Request)
        requires
            old(self).current is None,
        ensures
            (final(self)@, request@) == issue(old(self)@),
    {
        let ghost stack = self.jobs@;
        match self.jobs.pop() {
            None => {
                assert(in_order(stack).len() == 0);
                self.cleaning = true;
                if self.failure.is_none() {
                    self.phase = Phase::Copied;
                }
                Request::Perform(cleanup(&self.template))
            },
            Some(job) => {
                proof {
                    lemma_pop_in_order(stack);
                }
                let (request, phase) = match &job {
                    Job::Operation(op) => (Request::Perform(op.duplicate()), Phase::Acquired),
                    Job::CopyDir { from, .. } => (Request::Snapshot(from.clone()), Phase::Acquired),
                    Job::Analyze => (
                        Request::Snapshot(self.template.base_path.clone()),
                        Phase::OperationsRun,
                    ),
                    Job::Bind { path } => (
                        Request::ReadText(path.clone()),
                        Phase::DynFilesResolved,
                    ),
                    Job::Write { path, text } => (
                        Request::Perform(
                            FsOp::WriteText { path: path.clone(), text: text.clone() },
                        ),
                        Phase::DynFilesResolved,
                    ),
                    Job::PrepareDest => (
                        Request::Perform(prepare_dest(self.dest.as_str())),
                        Phase::ContextBound,
                    ),
                    Job::CopyOut => (
                        Request::Snapshot(self.template.base_path.clone()),
                        Phase::DestPrepared,
                    ),
                    Job::Deliver(op) => (Request::Perform(op.duplicate()), Phase::DestPrepared),
                };
                self.phase = phase;
                self.current = Some(job);
                request
            },
        }
    }

    /// Takes the reply to the last request and gives the next request.
    pub fn next(&mut self, reply: Reply) -> (request: Request)
        ensures
            (final(self)@, request@) == step(old(self)@, reply@),
    {
        if self.done {
            return Request::Finish(self.outcome());
        }
        if self.cleaning {
            match reply {
                Reply::Done => {
                    self.cleanup_failure = None;
                },
                other => {
                    let text = report(&other);
                    let op = cleanup(&self.template);
                    self.cleanup_failure = Some(op.failure(text.as_str()));
                },
            }
            self.done = true;
            self.phase = Phase::CleanedUp;
            return Request::Finish(self.outcome());
        }
        match self.current.take() {
            Some(job) => {
                self.absorb(job, reply);
            },
            None => {},
        }
        self.issue()
    }
}

} // verus!
