use vstd::prelude::*;

use crate::files::{profile_name_from_file_name, spec_profile_name};
use crate::lex::{lex_compare, LexOrder};

verus! {

/// One request of a multi-step task of the main window.
#[derive(Debug, Clone, PartialEq, Eq)]
pub enum TaskStep {
    /// Fetch the profile of this name from the daemon.
    GetProfile(String),
    /// Create a profile of this name from the profile fetched or parsed before.
    CreateProfile(String),
    /// Delete the profile of this name.
    DeleteProfile(String),
    /// Reset the clocks of this GPU.
    ResetClocks(String),
    /// Reset the firmware fan settings of this GPU.
    ResetPmfw(String),
    /// Confirm the pending configuration.
    ConfirmPending,
    /// Read the file picked for import.
    ReadFile,
    /// Parse the file's contents as a profile.
    ParseProfile,
}

/// What came of a step.
#[derive(Debug, Clone, Copy, PartialEq, Eq, Structural)]
pub enum StepOutcome {
    /// It succeeded (and, for a fetch, found what it looked for).
    Succeeded,
    /// The fetch was answered, with nothing found.
    Missing,
    /// It failed.
    Failed,
}

/// What follows a task that succeeded.
#[derive(Debug, Clone, Copy, PartialEq, Eq, Structural)]
pub enum TaskFollowup {
    /// Fetch the list of profiles anew.
    ReloadProfiles,
    /// Reload the data of the selected GPU (not the whole of it).
    ReloadData,
}

/// What the main window does next in a task.
#[derive(Debug, Clone, PartialEq, Eq)]
pub enum TaskAction {
    /// Perform this step and report how it went.
    Perform(TaskStep),
    /// Stop, and show the error of this step, under the step's failure
    /// context where it has one.
    ShowStepError { step: usize },
    /// Stop: the profile to rename was not found; show that.
    ProfileNotFound,
    /// Stop: the task succeeded; do this.
    Finish(TaskFollowup),
}

/// A task of the main window that takes several requests in turn.
#[derive(Debug, Clone, PartialEq, Eq)]
pub enum DaemonTask {
    /// Copy a profile to a new name, then delete the old one.
    RenameProfile { old_name: String, new_name: String },
    /// Reset the clocks of a GPU and confirm.
    ResetClocks { gpu_id: String },
    /// Reset the firmware fan settings of a GPU and confirm.
    ResetPmfw { gpu_id: String },
    /// Read and parse a profile file, and create a profile of it under this name.
    ImportProfile { profile_name: String },
}

/// The steps of `t`, in the order they are performed.
pub open spec fn task_steps(t: DaemonTask) -> Seq<TaskStep> {
    match t {
        DaemonTask::RenameProfile { old_name, new_name } => seq![
            TaskStep::GetProfile(old_name),
            TaskStep::CreateProfile(new_name),
            TaskStep::DeleteProfile(old_name),
        ],
        DaemonTask::ResetClocks { gpu_id } => seq![TaskStep::ResetClocks(gpu_id), TaskStep::ConfirmPending],
        DaemonTask::ResetPmfw { gpu_id } => seq![TaskStep::ResetPmfw(gpu_id), TaskStep::ConfirmPending],
        DaemonTask::ImportProfile { profile_name } => seq![
            TaskStep::ReadFile,
            TaskStep::ParseProfile,
            TaskStep::CreateProfile(profile_name),
        ],
    }
}

/// The context under which the failure of step `i` of `t` is shown.
pub open spec fn failure_context(t: DaemonTask, i: int) -> Option<Seq<char>> {
    match t {
        DaemonTask::RenameProfile { .. } => if i == 0 {
            Some("Could not get profile by old name"@)
        } else if i == 1 {
            Some("Could not create new profile"@)
        } else {
            Some("Could not delete old name"@)
        },
        DaemonTask::ImportProfile { .. } => if i == 0 {
            Some("Could not read selected file"@)
        } else if i == 1 {
            Some("Could not parse profile"@)
        } else {
            Some("Could not import profile"@)
        },
        _ => None,
    }
}

/// The text shown when the profile to rename is not found.
pub open spec fn profile_not_found_text() -> Seq<char> {
    "Original profile not found"@
}

/// The text shown when the profile to rename is not found.
pub fn profile_not_found_message() -> (r: String)
    ensures
        r@ == profile_not_found_text(),
{
    String::from_str("Original profile not found")
}

/// What follows `t` once every step succeeded.
pub open spec fn task_followup(t: DaemonTask) -> TaskFollowup {
    match t {
        DaemonTask::RenameProfile { .. } => TaskFollowup::ReloadProfiles,
        DaemonTask::ImportProfile { .. } => TaskFollowup::ReloadProfiles,
        _ => TaskFollowup::ReloadData,
    }
}

pub open spec fn opt_text(o: Option<String>) -> Option<Seq<char>> {
    match o {
        Some(s) => Some(s@),
        None => None,
    }
}

impl DaemonTask {
    /// The task that renames `old_name` to `new_name`; `None` when the two
    /// are the same name, where there is nothing to do.
    pub fn rename(old_name: &str, new_name: &str) -> (r: Option<DaemonTask>)
        ensures
            old_name@ == new_name@ <==> r is None,
            r matches Some(t) ==> (t matches DaemonTask::RenameProfile { old_name: o, new_name: n }
                && o@ == old_name@ && n@ == new_name@),
    {
        match lex_compare(old_name, new_name) {
            LexOrder::Equal => None,
            _ => Some(DaemonTask::RenameProfile { old_name: old_name.to_owned(), new_name: new_name.to_owned() }),
        }
    }

    /// The task that imports the file named `file_name` (`None` when the
    /// name is not valid UTF-8), under the profile name taken from it.
    pub fn import(file_name: Option<&str>) -> (r: DaemonTask)
        ensures
            r matches DaemonTask::ImportProfile { profile_name } && profile_name@ == spec_profile_name(
                match file_name {
                    Some(f) => Some(f@),
                    None => None,
                },
            ),
    {
        DaemonTask::ImportProfile { profile_name: profile_name_from_file_name(file_name) }
    }

    /// The number of steps of the task.
    pub fn step_count(&self) -> (r: usize)
        ensures
            r == task_steps(*self).len(),
    {
        match self {
            DaemonTask::RenameProfile { .. } => 3,
            DaemonTask::ResetClocks { .. } => 2,
            DaemonTask::ResetPmfw { .. } => 2,
            DaemonTask::ImportProfile { .. } => 3,
        }
    }

    /// Step `i` of the task.
    pub fn step_at(&self, i: usize) -> (r: TaskStep)
        requires
            i < task_steps(*self).len(),
        ensures
            r == task_steps(*self)[i as int],
    {
        match self {
            DaemonTask::RenameProfile { old_name, new_name } => if i == 1 {
                TaskStep::CreateProfile(new_name.clone())
            } else if i == 0 {
                TaskStep::GetProfile(old_name.clone())
            } else {
                TaskStep::DeleteProfile(old_name.clone())
            },
            DaemonTask::ResetClocks { gpu_id } => if i == 0 {
                TaskStep::ResetClocks(gpu_id.clone())
            } else {
                TaskStep::ConfirmPending
            },
            DaemonTask::ResetPmfw { gpu_id } => if i == 0 {
                TaskStep::ResetPmfw(gpu_id.clone())
            } else {
                TaskStep::ConfirmPending
            },
            DaemonTask::ImportProfile { profile_name } => if i == 0 {
                TaskStep::ReadFile
            } else if i == 1 {
                TaskStep::ParseProfile
            } else {
                TaskStep::CreateProfile(profile_name.clone())
            },
        }
    }

    /// The context under which a failure of step `i` is shown.
    pub fn failure_context(&self, i: usize) -> (r: Option<String>)
        ensures
            opt_text(r) == failure_context(*self, i as int),
    {
        match self {
            DaemonTask::RenameProfile { .. } => if i == 0 {
                Some(String::from_str("Could not get profile by old name"))
            } else if i == 1 {
                Some(String::from_str("Could not create new profile"))
            } else {
                Some(String::from_str("Could not delete old name"))
            },
            DaemonTask::ImportProfile { .. } => if i == 0 {
                Some(String::from_str("Could not read selected file"))
            } else if i == 1 {
                Some(String::from_str("Could not parse profile"))
            } else {
                Some(String::from_str("Could not import profile"))
            },
            _ => None,
        }
    }

    /// What follows the task once every step succeeded.
    pub fn followup(&self) -> (r: TaskFollowup)
        ensures
            r == task_followup(*self),
    {
        match self {
            DaemonTask::RenameProfile { .. } => TaskFollowup::ReloadProfiles,
            DaemonTask::ImportProfile { .. } => TaskFollowup::ReloadProfiles,
            _ => TaskFollowup::ReloadData,
        }
    }
}

/// A task under way: the task, the index of the step whose outcome comes
/// next, and whether it has stopped.
#[derive(Debug, Clone, PartialEq, Eq)]
pub struct TaskRun {
    pub task: DaemonTask,
    pub next: usize,
    pub finished: bool,
}

impl TaskRun {
    /// A run that is waiting for the outcome of one of its steps.
    pub open spec fn wf(self) -> bool {
        self.finished || self.next < task_steps(self.task).len()
    }
}

/// The run that starts `t`: its first step is under way.
pub open spec fn spec_start(t: DaemonTask) -> TaskRun {
    TaskRun { task: t, next: 0, finished: false }
}

/// The run after step `run.next` came out as `outcome`, and what to do then.
pub open spec fn spec_advance(run: TaskRun, outcome: StepOutcome) -> (TaskRun, TaskAction) {
    let stopped = TaskRun { finished: true, ..run };
    match outcome {
        StepOutcome::Failed => (
            stopped,
            TaskAction::ShowStepError { step: run.next },
        ),
        StepOutcome::Missing => (stopped, TaskAction::ProfileNotFound),
        StepOutcome::Succeeded => if run.next + 1 < task_steps(run.task).len() {
            (
                TaskRun { next: (run.next + 1) as usize, ..run },
                TaskAction::Perform(task_steps(run.task)[run.next + 1]),
            )
        } else {
            (stopped, TaskAction::Finish(task_followup(run.task)))
        },
    }
}

impl TaskRun {
    /// Starts `task`: the action is its first step.
    pub fn start(task: DaemonTask) -> (r: (TaskRun, TaskAction))
        ensures
            r.0 == spec_start(task),
            r.0.wf(),
            r.1 == TaskAction::Perform(task_steps(task)[0]),
    {
        let first = task.step_at(0);
        (TaskRun { task, next: 0, finished: false }, TaskAction::Perform(first))
    }

    /// Takes the outcome of the step under way: a failure stops the run and
    /// shows the step's error; a fetch that found nothing stops it and says
    /// so; a success goes on to the next step, or, after the last one,
    /// stops the run with the task's follow-up.
    pub fn advance(&mut self, outcome: StepOutcome) -> (r: TaskAction)
        requires
            old(self).wf(),
            !old(self).finished,
        ensures
            (*final(self), r) == spec_advance(*old(self), outcome),
            final(self).wf(),
    {
        match outcome {
            StepOutcome::Failed => {
                self.finished = true;
                TaskAction::ShowStepError { step: self.next }
            },
            StepOutcome::Missing => {
                self.finished = true;
                TaskAction::ProfileNotFound
            },
            StepOutcome::Succeeded => {
                let count = self.task.step_count();
                if self.next + 1 < count {
                    self.next = self.next + 1;
                    TaskAction::Perform(self.task.step_at(self.next))
                } else {
                    self.finished = true;
                    TaskAction::Finish(self.task.followup())
                }
            },
        }
    }
}

/// The actions taken when the steps of `run` come out as `outcomes`, one
/// action per outcome until the run stops, and the run at the end.
pub open spec fn run_outcomes(run: TaskRun, outcomes: Seq<StepOutcome>) -> (TaskRun, Seq<TaskAction>)
    decreases outcomes.len(),
{
    if outcomes.len() == 0 || run.finished {
        (run, Seq::empty())
    } else {
        let (next, action) = spec_advance(run, outcomes[0]);
        let (end, rest) = run_outcomes(next, outcomes.drop_first());
        (end, seq![action] + rest)
    }
}

proof fn lemma_finish_from(run: TaskRun, outcomes: Seq<StepOutcome>)
    requires
        run.wf(),
        !run.finished,
    ensures
        ({
            let acts = run_outcomes(run, outcomes).1;
            let left = task_steps(run.task).len() - run.next;
            (exists|i: int| 0 <= i < acts.len() && acts[i] is Finish) <==> (left <= outcomes.len()
                && forall|i: int| 0 <= i < left ==> outcomes[i] == StepOutcome::Succeeded)
        }),
    decreases outcomes.len(),
{
    let acts = run_outcomes(run, outcomes).1;
    let left = task_steps(run.task).len() - run.next;
    if outcomes.len() == 0 {
        assert(acts.len() == 0);
    } else {
        let (next, action) = spec_advance(run, outcomes[0]);
        let rest = run_outcomes(next, outcomes.drop_first()).1;
        assert(acts == seq![action] + rest);
        if next.finished {
            assert(rest.len() == 0);
            if action is Finish {
                assert(acts[0] is Finish);
            }
        } else {
            lemma_finish_from(next, outcomes.drop_first());
            assert(outcomes[0] == StepOutcome::Succeeded);
            assert forall|i: int| 1 <= i < outcomes.len() implies (outcomes[i] == StepOutcome::Succeeded
                <==> outcomes.drop_first()[i - 1] == StepOutcome::Succeeded) by {}
            if exists|i: int| 0 <= i < acts.len() && acts[i] is Finish {
                let i = choose|i: int| 0 <= i < acts.len() && acts[i] is Finish;
                assert(i > 0);
                assert(rest[i - 1] is Finish);
            }
            if exists|i: int| 0 <= i < rest.len() && rest[i] is Finish {
                let i = choose|i: int| 0 <= i < rest.len() && rest[i] is Finish;
                assert(acts[i + 1] is Finish);
            }
        }
    }
}

/// A task ends in its follow-up (the reload) exactly when each of its
/// steps succeeded, in order; a failure or a missing profile stops it
/// before any later step is asked for.
pub proof fn lemma_followup_iff_every_step_succeeded(t: DaemonTask, outcomes: Seq<StepOutcome>)
    ensures
        ({
            let acts = run_outcomes(spec_start(t), outcomes).1;
            (exists|i: int| 0 <= i < acts.len() && acts[i] is Finish) <==> (task_steps(t).len()
                <= outcomes.len() && forall|i: int|
                0 <= i < task_steps(t).len() ==> outcomes[i] == StepOutcome::Succeeded)
        }),
{
    lemma_finish_from(spec_start(t), outcomes);
}

/// A reset task that succeeds is followed by reloading the GPU data; the
/// profile tasks (renaming, importing) by reloading the profiles.
pub proof fn lemma_task_followups(t: DaemonTask)
    ensures
        (t is ResetClocks || t is ResetPmfw) ==> task_followup(t) == TaskFollowup::ReloadData,
        (t is RenameProfile || t is ImportProfile) ==> task_followup(t) == TaskFollowup::ReloadProfiles,
{
}

/// The steps of each task: a rename fetches the old profile, creates the
/// new one from it and deletes the old one; a reset resets its GPU and
/// confirms; an import reads, parses and creates the profile.
pub proof fn lemma_task_steps(t: DaemonTask)
    ensures
        t matches DaemonTask::RenameProfile { old_name, new_name } ==> task_steps(t) == seq![
            TaskStep::GetProfile(old_name),
            TaskStep::CreateProfile(new_name),
            TaskStep::DeleteProfile(old_name),
        ],
        t matches DaemonTask::ResetClocks { gpu_id } ==> task_steps(t) == seq![
            TaskStep::ResetClocks(gpu_id),
            TaskStep::ConfirmPending,
        ],
        t matches DaemonTask::ResetPmfw { gpu_id } ==> task_steps(t) == seq![
            TaskStep::ResetPmfw(gpu_id),
            TaskStep::ConfirmPending,
        ],
        t matches DaemonTask::ImportProfile { profile_name } ==> task_steps(t) == seq![
            TaskStep::ReadFile,
            TaskStep::ParseProfile,
            TaskStep::CreateProfile(profile_name),
        ],
{
}

/// One outcome of a run under way: a failure stops the run and shows the
/// error of the step it came from; a fetch that found nothing stops it as
/// a missing profile; a success moves on to perform exactly the next step
/// of the task, and after the last step stops the run with the task's
/// follow-up.
pub proof fn lemma_advance_outcomes(run: TaskRun, outcome: StepOutcome)
    requires
        run.wf(),
        !run.finished,
    ensures
        outcome == StepOutcome::Failed ==> spec_advance(run, outcome).0.finished && spec_advance(run, outcome).1
            == (TaskAction::ShowStepError { step: run.next }),
        outcome == StepOutcome::Missing ==> spec_advance(run, outcome).0.finished && spec_advance(run, outcome).1
            == TaskAction::ProfileNotFound,
        outcome == StepOutcome::Succeeded && run.next + 1 < task_steps(run.task).len() ==> {
            &&& !spec_advance(run, outcome).0.finished
            &&& spec_advance(run, outcome).0.next == run.next + 1
            &&& spec_advance(run, outcome).0.task == run.task
            &&& spec_advance(run, outcome).1 == TaskAction::Perform(task_steps(run.task)[run.next + 1])
        },
        outcome == StepOutcome::Succeeded && run.next + 1 == task_steps(run.task).len() ==> spec_advance(
            run,
            outcome,
        ).0.finished && spec_advance(run, outcome).1 == TaskAction::Finish(task_followup(run.task)),
{
}

/// The context under which a failed step is shown: a rename names the
/// fetch, the creation and the deletion in turn, an import the reading,
/// the parsing and the creation, and a reset adds no context.
pub proof fn lemma_failure_contexts(t: DaemonTask, i: int)
    ensures
        t is RenameProfile && i == 0 ==> failure_context(t, i) == Some("Could not get profile by old name"@),
        t is RenameProfile && i == 1 ==> failure_context(t, i) == Some("Could not create new profile"@),
        t is RenameProfile && i == 2 ==> failure_context(t, i) == Some("Could not delete old name"@),
        t is ImportProfile && i == 0 ==> failure_context(t, i) == Some("Could not read selected file"@),
        t is ImportProfile && i == 1 ==> failure_context(t, i) == Some("Could not parse profile"@),
        t is ImportProfile && i == 2 ==> failure_context(t, i) == Some("Could not import profile"@),
        (t is ResetClocks || t is ResetPmfw) ==> failure_context(t, i) is None,
{
}

} // verus!
