//! Tasks, each of which can drive one work interval of the engine, kept in an
//! active and a finished list.
use vstd::prelude::*;

use crate::pomodoro::{Pomodoro, PomodoroModel, PomodoroState};

verus! {

/// A task; its `duration` (nanoseconds) becomes the engine's work interval
/// when the task is started.
pub struct Task {
    pub name: String,
    pub duration: u64,
    pub completed: bool,
    pub running: bool,
}

pub struct TaskModel {
    pub name: Seq<char>,
    pub duration: nat,
    pub completed: bool,
    pub running: bool,
}

impl View for Task {
    type V = TaskModel;

    open spec fn view(&self) -> TaskModel {
        TaskModel {
            name: self.name@,
            duration: self.duration as nat,
            completed: self.completed,
            running: self.running,
        }
    }
}

/// The mathematical state of a [`TaskList`].
pub struct TaskListModel {
    pub tasks: Seq<TaskModel>,
    pub finished_tasks: Seq<TaskModel>,
    /// The position in `tasks` of the task bound to the engine.
    pub running: Option<nat>,
    /// The engine's count of completed work intervals when the running task
    /// was bound to it.
    pub bound_cycles: nat,
}

impl TaskListModel {
    pub open spec fn wf(self) -> bool {
        &&& self.running matches Some(i) ==> i < self.tasks.len()
        &&& forall|j: int|
            0 <= j < self.tasks.len() ==> (#[trigger] self.tasks[j]).running == (self.running
                == Some(j as nat))
        &&& forall|j: int|
            0 <= j < self.finished_tasks.len() ==> (#[trigger] self.finished_tasks[j]).completed
                && !self.finished_tasks[j].running
        &&& self.bound_cycles <= u32::MAX
    }

    pub open spec fn add(self, name: Seq<char>, duration: nat) -> TaskListModel {
        TaskListModel {
            tasks: self.tasks.push(
                TaskModel { name, duration, completed: false, running: false },
            ),
            ..self
        }
    }

    /// The task at `i` may be started: none runs, and it is not completed.
    pub open spec fn can_start(self, i: nat) -> bool {
        self.running is None && i < self.tasks.len() && !self.tasks[i as int].completed
    }

    /// Starting the task at `i`: it runs, and the engine begins a fresh work
    /// interval of the task's length. Where the task may not be started,
    /// nothing changes.
    pub open spec fn start(self, i: nat, e: PomodoroModel) -> (TaskListModel, PomodoroModel) {
        if self.can_start(i) {
            let t = self.tasks[i as int];
            (
                TaskListModel {
                    tasks: self.tasks.update(i as int, TaskModel { running: true, ..t }),
                    running: Some(i),
                    bound_cycles: e.completed_cycles,
                    ..self
                },
                e.bind_work(t.duration),
            )
        } else {
            (self, e)
        }
    }

    /// The running task's work interval is over: the engine has completed a
    /// work interval since the task was bound, and has moved on from work.
    pub open spec fn bound_interval_over(self, e: PomodoroModel) -> bool {
        self.running is Some && e.state != PomodoroState::Work && e.completed_cycles
            != self.bound_cycles
    }

    /// Observing the engine after a tick: once the running task's work
    /// interval is over, the task is completed and moved to the finished list,
    /// the binding is cleared and the engine's elapsed time is set to zero.
    pub open spec fn observe(self, e: PomodoroModel) -> (TaskListModel, PomodoroModel) {
        if self.bound_interval_over(e) {
            let i = self.running->0;
            let t = self.tasks[i as int];
            (
                TaskListModel {
                    tasks: self.tasks.remove(i as int),
                    finished_tasks: self.finished_tasks.push(
                        TaskModel { completed: true, running: false, ..t },
                    ),
                    running: None,
                    ..self
                },
                PomodoroModel { elapsed: 0, ..e },
            )
        } else {
            (self, e)
        }
    }

    /// Removing the active task at `i`. Where it was the running task, the
    /// binding is cleared and the engine stopped; a running task further down
    /// keeps its binding.
    pub open spec fn remove(self, i: nat, e: PomodoroModel) -> (TaskListModel, PomodoroModel) {
        (
            TaskListModel {
                tasks: self.tasks.remove(i as int),
                running: match self.running {
                    Some(r) => if r == i {
                        None
                    } else if r > i {
                        Some((r - 1) as nat)
                    } else {
                        Some(r)
                    },
                    None => None,
                },
                ..self
            },
            if self.running == Some(i) {
                e.stop()
            } else {
                e
            },
        )
    }

    pub open spec fn set_completed(self, i: nat, done: bool) -> TaskListModel {
        if i < self.tasks.len() {
            TaskListModel {
                tasks: self.tasks.update(
                    i as int,
                    TaskModel { completed: done, ..self.tasks[i as int] },
                ),
                ..self
            }
        } else {
            self
        }
    }
}

/// The active and the finished tasks, and the binding of at most one running
/// task to the engine.
pub struct TaskList {
    tasks: Vec<Task>,
    finished_tasks: Vec<Task>,
    running_task_index: Option<usize>,
    bound_cycles: u32,
}

impl View for TaskList {
    type V = TaskListModel;

    closed spec fn view(&self) -> TaskListModel {
        TaskListModel {
            tasks: self.tasks@.map_values(|t: Task| t@),
            finished_tasks: self.finished_tasks@.map_values(|t: Task| t@),
            running: match self.running_task_index {
                Some(i) => Some(i as nat),
                None => None,
            },
            bound_cycles: self.bound_cycles as nat,
        }
    }
}

impl TaskList {
    /// No tasks.
    pub fn new() -> (r: TaskList)
        ensures
            r@.wf(),
            r@.tasks.len() == 0,
            r@.finished_tasks.len() == 0,
            r@.running is None,
    {
        TaskList {
            tasks: Vec::new(),
            finished_tasks: Vec::new(),
            running_task_index: None,
            bound_cycles: 0,
        }
    }

    /// Appends an active task that is neither completed nor running.
    pub fn add(&mut self, name: String, duration: u64)
        requires
            old(self)@.wf(),
        ensures
            final(self)@.wf(),
            final(self)@ == old(self)@.add(name@, duration as nat),
    {
        self.tasks.push(Task { name, duration, completed: false, running: false });
        assert(self@.tasks =~= old(self)@.add(name@, duration as nat).tasks);
    }
    /// Starts the active task at `index`, binding the engine to it: the task
    /// runs and the engine begins a fresh work interval of the task's length.
    /// Nothing changes where a task is already running, `index` is out of
    /// range or the task is completed.
    pub fn start(&mut self, index: usize, engine: &mut Pomodoro)
        requires
            old(self)@.wf(),
            old(engine)@.wf(),
        ensures
            final(self)@.wf(),
            final(engine)@.wf(),
            (final(self)@, final(engine)@) == old(self)@.start(index as nat, old(engine)@),
    {
        if self.running_task_index.is_some() || index >= self.tasks.len()
            || self.tasks[index].completed {
            return;
        }
        let duration = self.tasks[index].duration;
        self.tasks[index].running = true;
        self.running_task_index = Some(index);
        self.bound_cycles = engine.completed_cycles();
        engine.bind_work(duration);
        let ghost t = old(self)@.tasks[index as int];
        assert(self@.tasks =~= old(self)@.tasks.update(index as int, TaskModel { running: true, ..t }));
    }

    /// Called after each tick of the engine: once the running task's work
    /// interval is over, completes the task, moves it to the finished list,
    /// clears the binding and sets the engine's elapsed time to zero.
    pub fn observe(&mut self, engine: &mut Pomodoro)
        requires
            old(self)@.wf(),
            old(engine)@.wf(),
        ensures
            final(self)@.wf(),
            final(engine)@.wf(),
            (final(self)@, final(engine)@) == old(self)@.observe(old(engine)@),
    {
        if let Some(i) = self.running_task_index {
            if engine.state() != PomodoroState::Work && engine.completed_cycles()
                != self.bound_cycles {
                let mut t = self.tasks.remove(i);
                t.running = false;
                t.completed = true;
                self.finished_tasks.push(t);
                self.running_task_index = None;
                engine.clear_elapsed();
                let ghost o = old(self)@.tasks[i as int];
                assert(self@.tasks =~= old(self)@.tasks.remove(i as int));
                assert(self@.finished_tasks =~= old(self)@.finished_tasks.push(
                    TaskModel { completed: true, running: false, ..o },
                ));
            }
        }
    }

    /// Removes the active task at `index`. Where it was the running task the
    /// binding is cleared and the engine stopped.
    pub fn remove(&mut self, index: usize, engine: &mut Pomodoro)
        requires
            old(self)@.wf(),
            old(engine)@.wf(),
            index < old(self)@.tasks.len(),
        ensures
            final(self)@.wf(),
            final(engine)@.wf(),
            (final(self)@, final(engine)@) == old(self)@.remove(index as nat, old(engine)@),
    {
        let _ = self.tasks.remove(index);
        match self.running_task_index {
            Some(r) => {
                if r == index {
                    self.running_task_index = None;
                    engine.stop();
                } else if r > index {
                    self.running_task_index = Some(r - 1);
                }
            },
            None => {},
        }
        assert(self@.tasks =~= old(self)@.tasks.remove(index as int));
        assert forall|j: int| 0 <= j < self@.tasks.len() implies (#[trigger] self@.tasks[j]).running
            == (self@.running == Some(j as nat)) by {
            if j < index {
                assert(self@.tasks[j] == old(self)@.tasks[j]);
            } else {
                assert(self@.tasks[j] == old(self)@.tasks[j + 1]);
            }
        }
        assert(self@.running matches Some(i) ==> i < self@.tasks.len());
        assert(self@.finished_tasks == old(self)@.finished_tasks);
        assert(self@.bound_cycles <= u32::MAX);
    }

    /// Marks the active task at `index` as completed or not; out of range,
    /// nothing changes.
    pub fn set_completed(&mut self, index: usize, done: bool)
        requires
            old(self)@.wf(),
        ensures
            final(self)@.wf(),
            final(self)@ == old(self)@.set_completed(index as nat, done),
    {
        if index < self.tasks.len() {
            self.tasks[index].completed = done;
            let ghost t = old(self)@.tasks[index as int];
            assert(self@.tasks =~= old(self)@.tasks.update(
                index as int,
                TaskModel { completed: done, ..t },
            ));
        }
    }

    /// The list as it stands when saved tasks are loaded: the saved tasks are
    /// active, none of them running, and nothing is finished.
    pub fn from_saved(saved: Vec<Task>) -> (r: TaskList)
        ensures
            r@.wf(),
            r@.tasks.len() == saved@.len(),
            forall|j: int|
                0 <= j < saved@.len() ==> #[trigger] r@.tasks[j] == (TaskModel {
                    running: false,
                    ..saved@[j]@
                }),
            r@.finished_tasks.len() == 0,
            r@.running is None,
    {
        let mut tasks = saved;
        let mut i: usize = 0;
        while i < tasks.len()
            invariant
                0 <= i <= tasks@.len(),
                tasks@.len() == saved@.len(),
                forall|j: int|
                    0 <= j < i ==> #[trigger] tasks@[j]@ == (TaskModel {
                        running: false,
                        ..saved@[j]@
                    }),
                forall|j: int| i <= j < tasks@.len() ==> #[trigger] tasks@[j] == saved@[j],
            decreases tasks@.len() - i,
        {
            tasks[i].running = false;
            i = i + 1;
        }
        TaskList { tasks, finished_tasks: Vec::new(), running_task_index: None, bound_cycles: 0 }
    }

    /// The active tasks, in order.
    pub fn tasks(&self) -> (r: &Vec<Task>)
        ensures
            r@.map_values(|t: Task| t@) == self@.tasks,
    {
        &self.tasks
    }

    /// The finished tasks, in the order they were finished.
    pub fn finished_tasks(&self) -> (r: &Vec<Task>)
        ensures
            r@.map_values(|t: Task| t@) == self@.finished_tasks,
    {
        &self.finished_tasks
    }

    /// The position of the running task among the active ones.
    pub fn running_task_index(&self) -> (r: Option<usize>)
        ensures
            r matches Some(i) ==> self@.running == Some(i as nat),
            r is None ==> self@.running is None,
    {
        self.running_task_index
    }
}

/// Starting a startable task binds the engine to it: a fresh work interval of
/// the task's length, with the task running. A tick that ends that work
/// interval, followed by an observation, moves the task, completed and no
/// longer running, from the active list to the end of the finished list and
/// clears the binding; a second observation changes nothing, so the task moves
/// once. A tick that falls short of the interval leaves the binding as it is.
pub proof fn lemma_task_finishes_once(
    l: TaskListModel,
    e: PomodoroModel,
    i: nat,
    delta: nat,
)
    requires
        l.wf(),
        e.wf(),
        l.can_start(i),
    ensures
        ({
            let t = l.tasks[i as int];
            let (l1, e1) = l.start(i, e);
            let e2 = e1.tick(delta);
            let (l2, e3) = l1.observe(e2);
            &&& e1.work_duration == t.duration
            &&& e1.state is Work
            &&& e1.elapsed == 0
            &&& l1.tasks[i as int].running
            &&& l1.running == Some(i)
            &&& delta >= t.duration ==> {
                &&& e2.state != PomodoroState::Work
                &&& l2.tasks == l.tasks.remove(i as int)
                &&& l2.finished_tasks == l.finished_tasks.push(
                    TaskModel { completed: true, running: false, ..t },
                )
                &&& l2.running is None
                &&& l2.observe(e3) == (l2, e3)
            }
            &&& delta < t.duration ==> l1.observe(e2) == (l1, e2)
        }),
{
    let t = l.tasks[i as int];
    let (l1, e1) = l.start(i, e);
    assert(l1.tasks.remove(i as int) =~= l.tasks.remove(i as int));
}

/// While a task runs, starting any task changes neither the list nor the
/// engine: the running task keeps its binding.
pub proof fn lemma_second_start_ignored(l: TaskListModel, e: PomodoroModel, j: nat)
    requires
        l.wf(),
        l.running is Some,
    ensures
        l.start(j, e) == (l, e),
{
}

} // verus!
