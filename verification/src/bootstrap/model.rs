//! The run as a transition system over plain values, and what holds of it.
//!
//! A state holds what is left to do; a step takes the reply to the request
//! in flight and gives the next request. The laws at the end say that a run
//! ends only after the removal of its workspace has been asked for and
//! answered, that a failure turns it to that removal at once, and that
//! every step brings it closer to its end.

use crate::bootstrap::{JobView, OutcomeView, Phase, ReplyView, RequestView};
use crate::config::{analyzed, ConfView, TemplateConf};
use crate::errors::{ErrorView, KindView};
use crate::fs::walk::{keys_of, walk_spec};
use crate::fs::{copy_plan, op_failure, FsOpView};
use crate::interpolation::interpolate_spec;
use crate::op::{ActionView, AdditionalOperation, Execute};
use crate::template::Template;
use vstd::prelude::*;

verus! {

/// The state of a run, as plain values.
pub struct RunView {
    /// The manifest of the template.
    pub conf: ConfView,
    /// The workspace.
    pub base_path: Seq<char>,
    /// The destination.
    pub dest: Seq<char>,
    /// The context.
    pub ctx: Map<Seq<char>, Seq<char>>,
    /// What is left to do, in order.
    pub jobs: Seq<JobView>,
    /// The job whose reply is awaited.
    pub current: Option<JobView>,
    /// Whether the removal of the workspace has been asked for.
    pub cleaning: bool,
    /// Whether the run is over.
    pub done: bool,
    pub phase: Phase,
    /// What failed on the way.
    pub failure: Option<ErrorView>,
    /// What failed in the removal of the workspace.
    pub cleanup_failure: Option<ErrorView>,
}

/// The part of the run that a job belongs to.
pub open spec fn stage_of(job: JobView) -> Phase {
    match job {
        JobView::Operation(_) => Phase::Acquired,
        JobView::CopyDir { .. } => Phase::Acquired,
        JobView::Analyze => Phase::OperationsRun,
        JobView::Bind { .. } => Phase::DynFilesResolved,
        JobView::Write { .. } => Phase::DynFilesResolved,
        JobView::PrepareDest => Phase::ContextBound,
        JobView::CopyOut => Phase::DestPrepared,
        JobView::Deliver(_) => Phase::DestPrepared,
    }
}

/// What a job asks of the driver.
pub open spec fn request_of(run: RunView, job: JobView) -> RequestView {
    match job {
        JobView::Operation(op) => RequestView::Perform(op),
        JobView::CopyDir { from, .. } => RequestView::Snapshot(from),
        JobView::Analyze => RequestView::Snapshot(run.base_path),
        JobView::Bind { path } => RequestView::ReadText(path),
        JobView::Write { path, text } => RequestView::Perform(FsOpView::WriteText { path, text }),
        JobView::PrepareDest => RequestView::Perform(FsOpView::CreateDirAll { path: run.dest }),
        JobView::CopyOut => RequestView::Snapshot(run.base_path),
        JobView::Deliver(op) => RequestView::Perform(op),
    }
}

/// The removal of the workspace.
pub open spec fn cleanup_of(run: RunView) -> FsOpView {
    FsOpView::RemoveDirAll { path: run.base_path }
}

/// What a reply reports of a failure. A reply of the wrong kind counts as one.
pub open spec fn report_of(reply: ReplyView) -> Seq<char> {
    match reply {
        ReplyView::Failed(report) => report,
        _ => "unexpected reply"@,
    }
}

/// The failure of a walk on behalf of `operation`.
pub open spec fn walk_failure(operation: Seq<char>, paths: Seq<Seq<char>>) -> ErrorView {
    ErrorView {
        kind: KindView::Fs { concerned_paths: paths, operation },
        cause: Some("the tree could not be walked"@),
        ctx: None,
    }
}

/// The failure of a snapshot on behalf of `operation`.
pub open spec fn snapshot_failure(
    operation: Seq<char>,
    paths: Seq<Seq<char>>,
    reply: ReplyView,
) -> ErrorView {
    ErrorView {
        kind: KindView::Fs { concerned_paths: paths, operation },
        cause: Some(report_of(reply)),
        ctx: None,
    }
}

/// The run after a failure: nothing is left to do but to clean up.
pub open spec fn failed(run: RunView, e: ErrorView) -> RunView {
    RunView { jobs: Seq::empty(), failure: Some(e), ..run }
}

/// The run with `first` to be done before what was left.
pub open spec fn with_jobs_first(run: RunView, first: Seq<JobView>) -> RunView {
    RunView { jobs: first + run.jobs, ..run }
}

/// The binding of each of `files`, in order.
pub open spec fn bind_jobs(files: Seq<Seq<char>>) -> Seq<JobView> {
    files.map_values(|path: Seq<char>| JobView::Bind { path })
}

/// The jobs of a plan of changes on behalf of an additional operation.
pub open spec fn operation_jobs(plan: Seq<FsOpView>) -> Seq<JobView> {
    plan.map_values(|op: FsOpView| JobView::Operation(op))
}

/// The jobs of a plan of changes on behalf of the copy to the destination.
pub open spec fn delivery_jobs(plan: Seq<FsOpView>) -> Seq<JobView> {
    plan.map_values(|op: FsOpView| JobView::Deliver(op))
}

/// The run after the reply to the job `job` that was in flight.
pub open spec fn absorb(run: RunView, job: JobView, reply: ReplyView) -> RunView {
    match job {
        JobView::Operation(op) => match reply {
            ReplyView::Done => run,
            _ => failed(run, op_failure(op, report_of(reply))),
        },
        JobView::Deliver(op) => match reply {
            ReplyView::Done => run,
            _ => failed(run, op_failure(op, report_of(reply))),
        },
        JobView::PrepareDest => match reply {
            ReplyView::Done => run,
            _ => failed(
                run,
                op_failure(FsOpView::CreateDirAll { path: run.dest }, report_of(reply)),
            ),
        },
        JobView::Write { .. } => run,
        JobView::Bind { path } => match reply {
            ReplyView::Text(text) => with_jobs_first(
                run,
                seq![JobView::Write { path, text: interpolate_spec(text, run.ctx) }],
            ),
            _ => run,
        },
        JobView::CopyDir { from, to } => match reply {
            ReplyView::Tree(tree) => match walk_spec(
                tree,
                from,
                Seq::<char>::empty(),
                keys_of(Seq::<Seq<char>>::empty()),
            ) {
                Ok(files) => with_jobs_first(run, operation_jobs(copy_plan(files, to))),
                Err(_) => failed(run, walk_failure("copy_dir"@, seq![from, to])),
            },
            _ => failed(run, snapshot_failure("copy_dir"@, seq![from, to], reply)),
        },
        JobView::Analyze => match reply {
            ReplyView::Tree(tree) => match walk_spec(
                tree,
                run.base_path,
                Seq::<char>::empty(),
                keys_of(run.conf.exclude),
            ) {
                Ok(files) => {
                    let conf = analyzed(run.conf, run.base_path, files);
                    RunView { conf, jobs: bind_jobs(conf.dynamic_files) + run.jobs, ..run }
                },
                Err(_) => failed(run, walk_failure("analyze_dyn_files"@, seq![run.base_path])),
            },
            _ => failed(run, snapshot_failure("analyze_dyn_files"@, seq![run.base_path], reply)),
        },
        JobView::CopyOut => match reply {
            ReplyView::Tree(tree) => match walk_spec(
                tree,
                run.base_path,
                Seq::<char>::empty(),
                keys_of(run.conf.exclude),
            ) {
                Ok(files) => with_jobs_first(run, delivery_jobs(copy_plan(files, run.dest))),
                Err(_) => failed(run, walk_failure("copy_fdir"@, seq![run.base_path, run.dest])),
            },
            _ => failed(run, snapshot_failure("copy_fdir"@, seq![run.base_path, run.dest], reply)),
        },
    }
}

/// The next request of a run that awaits no reply: the next job where one
/// is left, the removal of the workspace otherwise.
pub open spec fn issue(run: RunView) -> (RunView, RequestView) {
    if run.jobs.len() == 0 {
        (
            RunView {
                current: None,
                cleaning: true,
                phase: if run.failure is None {
                    Phase::Copied
                } else {
                    run.phase
                },
                ..run
            },
            RequestView::Perform(cleanup_of(run)),
        )
    } else {
        let job = run.jobs[0];
        (
            RunView {
                jobs: run.jobs.drop_first(),
                current: Some(job),
                phase: stage_of(job),
                ..run
            },
            request_of(run, job),
        )
    }
}

/// How a run ended.
pub open spec fn outcome_of(run: RunView) -> OutcomeView {
    OutcomeView { failure: run.failure, cleanup_failure: run.cleanup_failure }
}

/// The run after the reply to the removal of the workspace.
pub open spec fn finished(run: RunView, reply: ReplyView) -> RunView {
    RunView {
        done: true,
        phase: Phase::CleanedUp,
        cleanup_failure: match reply {
            ReplyView::Done => None,
            _ => Some(op_failure(cleanup_of(run), report_of(reply))),
        },
        ..run
    }
}

/// One step of a run: the state after `reply`, and the next request.
pub open spec fn step(run: RunView, reply: ReplyView) -> (RunView, RequestView) {
    if run.done {
        (run, RequestView::Finish(outcome_of(run)))
    } else if run.cleaning {
        let end = finished(run, reply);
        (end, RequestView::Finish(outcome_of(end)))
    } else {
        match run.current {
            Some(job) => issue(absorb(run, job, reply)),
            None => issue(run),
        }
    }
}

/// The job that an action becomes.
pub open spec fn job_of_action(action: ActionView) -> JobView {
    match action {
        ActionView::Copy { from, to } => JobView::Operation(FsOpView::CopyFile { from, to }),
        ActionView::CopyDir { from, to } => JobView::CopyDir { from, to },
        ActionView::Remove { path } => JobView::Operation(FsOpView::Remove { path }),
    }
}

/// The jobs of the first `n` groups of additional operations in `ctx`.
pub open spec fn jobs_of_first(
    groups: Seq<AdditionalOperation>,
    ctx: Map<Seq<char>, Seq<char>>,
    n: nat,
) -> Seq<JobView>
    decreases n,
{
    if n == 0 || n > groups.len() {
        Seq::empty()
    } else {
        jobs_of_first(groups, ctx, (n - 1) as nat) + groups[n - 1].actions(ctx).map_values(
            |a: ActionView| job_of_action(a),
        )
    }
}

/// What a run has to do from its start: the additional operations whose
/// conditions hold, then the resolution of the dynamic files where it was
/// put off and their binding where it was not, then the destination, then
/// the copy.
pub open spec fn jobs_at_start(conf: TemplateConf, ctx: Map<Seq<char>, Seq<char>>) -> Seq<JobView> {
    jobs_of_first(conf.additional_operations@, ctx, conf.additional_operations@.len()) + (if conf.require_dyn_file_analysis {
        seq![JobView::Analyze]
    } else {
        bind_jobs(conf.dynamic_files.deep_view())
    }) + seq![JobView::PrepareDest, JobView::CopyOut]
}

/// The state of a run before its first request.
pub open spec fn run_at_start(
    template: Template,
    dest: Seq<char>,
    ctx: Map<Seq<char>, Seq<char>>,
) -> RunView {
    RunView {
        conf: template.conf@,
        base_path: template.base_path@,
        dest,
        ctx,
        jobs: jobs_at_start(template.conf, ctx),
        current: None,
        cleaning: false,
        done: false,
        phase: Phase::Acquired,
        failure: None,
        cleanup_failure: None,
    }
}

/// What holds of a run at every moment: once over, its workspace has been
/// dealt with; the removal of the workspace is asked for only when no job
/// is left or in flight; and a failure has turned the run to cleaning up.
pub open spec fn consistent(run: RunView) -> bool {
    &&& run.done ==> run.cleaning
    &&& run.cleaning ==> run.jobs.len() == 0 && run.current is None
    &&& run.failure is Some ==> run.cleaning
    &&& run.cleanup_failure is Some ==> run.done
    &&& run.phase == Phase::CleanedUp <==> run.done
}

/// A run starts consistent, with nothing asked and the workspace in place.
pub proof fn lemma_start_is_consistent(
    template: Template,
    dest: Seq<char>,
    ctx: Map<Seq<char>, Seq<char>>,
)
    ensures
        consistent(run_at_start(template, dest, ctx)),
        !run_at_start(template, dest, ctx).cleaning,
        !run_at_start(template, dest, ctx).done,
{
}

/// Every step keeps a run consistent and leaves its workspace, its
/// destination and its context what they were.
pub proof fn lemma_step_keeps_consistent(run: RunView, reply: ReplyView)
    requires
        consistent(run),
    ensures
        consistent(step(run, reply).0),
        step(run, reply).0.base_path == run.base_path,
        step(run, reply).0.dest == run.dest,
        step(run, reply).0.ctx == run.ctx,
{
}

/// A run ends only on the reply to the removal of its workspace: the
/// request before the last was that removal, whether the run succeeded or
/// failed on the way. Where the removal is reported done, the outcome holds
/// no failure of it.
pub proof fn lemma_run_ends_after_cleanup(run: RunView, reply: ReplyView)
    requires
        consistent(run),
        !run.done,
        step(run, reply).1 is Finish,
    ensures
        run.cleaning,
        step(run, reply).0.done,
        step(run, reply).1 == RequestView::Finish(outcome_of(step(run, reply).0)),
        outcome_of(step(run, reply).0).failure == run.failure,
        reply is Done <==> outcome_of(step(run, reply).0).cleanup_failure is None,
{
}

/// The removal of the workspace is what a run asks for at the moment it
/// turns to cleaning up, and it is asked of the workspace of the run.
pub proof fn lemma_cleanup_removes_workspace(run: RunView, reply: ReplyView)
    requires
        consistent(run),
        !run.cleaning,
        step(run, reply).0.cleaning,
    ensures
        step(run, reply).1 == RequestView::Perform(
            FsOpView::RemoveDirAll { path: run.base_path },
        ),
{
}

/// A failure on the way short-cuts to the removal of the workspace: the
/// request that follows the failing reply is that removal, and nothing else
/// is asked for before the run ends.
pub proof fn lemma_failure_turns_to_cleanup(run: RunView, reply: ReplyView)
    requires
        consistent(run),
        !run.done,
        !run.cleaning,
        step(run, reply).0.failure is Some,
    ensures
        step(run, reply).0.cleaning,
        step(run, reply).1 == RequestView::Perform(
            FsOpView::RemoveDirAll { path: run.base_path },
        ),
{
}

/// A run that has not failed asks for the removal of the workspace only
/// when all its jobs are done.
pub proof fn lemma_cleanup_waits_for_jobs(run: RunView, reply: ReplyView)
    requires
        consistent(run),
        !run.cleaning,
        step(run, reply).0.cleaning,
        step(run, reply).0.failure is None,
    ensures
        step(run, reply).0.phase == Phase::Copied,
        step(run, reply).0.jobs.len() == 0,
{
}

/// A failed write of a dynamic file, or a dynamic file that cannot be
/// read, does not fail the run.
pub proof fn lemma_binding_is_tolerant(run: RunView, job: JobView, reply: ReplyView)
    requires
        job is Bind || job is Write,
    ensures
        absorb(run, job, reply).failure == run.failure,
{
}

/// An additional operation, the destination and the copy are not tolerant:
/// any reply but `Done` to a change of theirs fails the run with the
/// failure of that change.
pub proof fn lemma_changes_are_fatal(run: RunView, op: FsOpView, reply: ReplyView)
    requires
        !(reply is Done),
    ensures
        absorb(run, JobView::Operation(op), reply).failure == Some(
            op_failure(op, report_of(reply)),
        ),
        absorb(run, JobView::Deliver(op), reply).failure == Some(
            op_failure(op, report_of(reply)),
        ),
        absorb(run, JobView::PrepareDest, reply).failure == Some(
            op_failure(FsOpView::CreateDirAll { path: run.dest }, report_of(reply)),
        ),
{
}

/// Whether a job may put other jobs before those that are left: the copy of
/// a tree, whose files are known only from its snapshot, and the
/// resolution of the dynamic files.
pub open spec fn expands(job: JobView) -> bool {
    job is CopyDir || job is Analyze || job is CopyOut
}

/// How many of `jobs` expand, or, with `expanding` false, how many bind a file.
pub open spec fn tally(jobs: Seq<JobView>, expanding: bool) -> nat
    decreases jobs.len(),
{
    if jobs.len() == 0 {
        0
    } else {
        tally(jobs.drop_first(), expanding) + (if (if expanding {
            expands(jobs[0])
        } else {
            jobs[0] is Bind
        }) {
            1nat
        } else {
            0nat
        })
    }
}

/// How many jobs of a run expand or bind, the one in flight included.
pub open spec fn pending(run: RunView, expanding: bool) -> nat {
    tally(run.jobs, expanding) + tally(
        match run.current {
            Some(job) => seq![job],
            None => Seq::empty(),
        },
        expanding,
    )
}

proof fn lemma_tally_concat(a: Seq<JobView>, b: Seq<JobView>, expanding: bool)
    ensures
        tally(a + b, expanding) == tally(a, expanding) + tally(b, expanding),
    decreases a.len(),
{
    if a.len() == 0 {
        assert(a + b =~= b);
    } else {
        assert((a + b).drop_first() =~= a.drop_first() + b);
        lemma_tally_concat(a.drop_first(), b, expanding);
    }
}

proof fn lemma_tally_one(job: JobView, expanding: bool)
    ensures
        tally(seq![job], expanding) == (if (if expanding {
            expands(job)
        } else {
            job is Bind
        }) {
            1nat
        } else {
            0nat
        }),
{
    assert(seq![job].drop_first() =~= Seq::<JobView>::empty());
    assert(tally(Seq::<JobView>::empty(), expanding) == 0);
}

proof fn lemma_tally_of_changes(plan: Seq<FsOpView>, delivery: bool, expanding: bool)
    ensures
        tally(
            if delivery {
                delivery_jobs(plan)
            } else {
                operation_jobs(plan)
            },
            expanding,
        ) == 0,
    decreases plan.len(),
{
    let jobs = if delivery {
        delivery_jobs(plan)
    } else {
        operation_jobs(plan)
    };
    if plan.len() > 0 {
        let rest = if delivery {
            delivery_jobs(plan.drop_first())
        } else {
            operation_jobs(plan.drop_first())
        };
        assert(jobs.drop_first() =~= rest);
        lemma_tally_of_changes(plan.drop_first(), delivery, expanding);
    }
}

proof fn lemma_tally_of_binds(files: Seq<Seq<char>>)
    ensures
        tally(bind_jobs(files), true) == 0,
    decreases files.len(),
{
    if files.len() > 0 {
        assert(bind_jobs(files).drop_first() =~= bind_jobs(files.drop_first()));
        lemma_tally_of_binds(files.drop_first());
    }
}

/// The order in which runs come closer to their end: fewer jobs that
/// expand; or as many and fewer that bind; or as many of both and fewer
/// jobs left.
pub open spec fn closer(next: RunView, run: RunView) -> bool {
    ||| pending(next, true) < pending(run, true)
    ||| pending(next, true) == pending(run, true) && pending(next, false) < pending(run, false)
    ||| pending(next, true) == pending(run, true) && pending(next, false) == pending(run, false)
        && next.jobs.len() < run.jobs.len()
}

/// Every step of a run that is not yet cleaning up either turns it to
/// cleaning up or brings it closer to its end. The order is well founded,
/// and the step after the cleaning up is the last: every run ends, and it
/// ends cleaned up.
pub proof fn lemma_step_makes_progress(run: RunView, reply: ReplyView)
    requires
        consistent(run),
        !run.cleaning,
        !run.done,
    ensures
        step(run, reply).0.cleaning || closer(step(run, reply).0, run),
{
    let after = match run.current {
        Some(job) => absorb(run, job, reply),
        None => run,
    };
    let next = step(run, reply).0;
    assert(next == issue(after).0);
    if after.jobs.len() > 0 {
        let first = after.jobs[0];
        let rest = after.jobs.drop_first();
        assert(after.jobs =~= seq![first] + rest);
        assert(next.jobs == rest);
        assert(next.current == Some(first));
        lemma_tally_concat(seq![first], rest, true);
        lemma_tally_concat(seq![first], rest, false);
        assert(pending(next, true) == tally(after.jobs, true));
        assert(pending(next, false) == tally(after.jobs, false));
        match run.current {
            None => {
                assert(tally(Seq::<JobView>::empty(), true) == 0);
                assert(tally(Seq::<JobView>::empty(), false) == 0);
            },
            Some(job) => {
                lemma_tally_one(job, true);
                lemma_tally_one(job, false);
                if after.jobs != run.jobs {
                    let added = after.jobs.subrange(0, after.jobs.len() - run.jobs.len());
                    match job {
                        JobView::Bind { path } => {
                            let text = reply->Text_0;
                            let write = JobView::Write {
                                path,
                                text: interpolate_spec(text, run.ctx),
                            };
                            lemma_tally_concat(seq![write], run.jobs, true);
                            lemma_tally_concat(seq![write], run.jobs, false);
                            lemma_tally_one(write, true);
                            lemma_tally_one(write, false);
                        },
                        JobView::CopyDir { from, to } => {
                            let files = walk_spec(
                                reply->Tree_0,
                                from,
                                Seq::<char>::empty(),
                                keys_of(Seq::<Seq<char>>::empty()),
                            )->Ok_0;
                            let plan = copy_plan(files, to);
                            lemma_tally_concat(operation_jobs(plan), run.jobs, true);
                            lemma_tally_of_changes(plan, false, true);
                        },
                        JobView::Analyze => {
                            let files = walk_spec(
                                reply->Tree_0,
                                run.base_path,
                                Seq::<char>::empty(),
                                keys_of(run.conf.exclude),
                            )->Ok_0;
                            let conf = analyzed(run.conf, run.base_path, files);
                            lemma_tally_concat(bind_jobs(conf.dynamic_files), run.jobs, true);
                            lemma_tally_of_binds(conf.dynamic_files);
                        },
                        JobView::CopyOut => {
                            let files = walk_spec(
                                reply->Tree_0,
                                run.base_path,
                                Seq::<char>::empty(),
                                keys_of(run.conf.exclude),
                            )->Ok_0;
                            let plan = copy_plan(files, run.dest);
                            lemma_tally_concat(delivery_jobs(plan), run.jobs, true);
                            lemma_tally_of_changes(plan, true, true);
                        },
                        _ => {},
                    }
                }
            },
        }
    }
}

} // verus!
