//! Assembling the transport into the host's scheduler. The scheduler itself
//! is an external collaborator; the core hands it an ordered plan of named
//! tasks with declared dependencies. Task names are unique: registering a
//! second task under an existing name is a configuration error, surfaced to
//! whoever assembles the plan, never silently ignored.

use vstd::prelude::*;

use crate::socket::InMemorySocketResource;

verus! {

/// The named tasks of one tick. `Poll` is the external backend-pump task;
/// the in-memory bundle itself registers the other three.
#[derive(Clone, Copy, Debug, PartialEq, Eq, Structural)]
pub enum TaskName {
    /// External: pumps real I/O into the backend socket before receives.
    Poll,
    /// Drains the transport queue and hands packets to the backend.
    Send,
    /// Polls the backend and republishes packets as events.
    Receive,
    /// Updates the simulation clock after the receives of the tick.
    SimTimeUpdate,
}

/// The string under which a task is registered with the scheduler.
pub open spec fn task_name_of(t: TaskName) -> Seq<char> {
    match t {
        TaskName::Poll => "network_poll"@,
        TaskName::Send => "network_send"@,
        TaskName::Receive => "network_recv"@,
        TaskName::SimTimeUpdate => "network_sim_time"@,
    }
}

impl TaskName {
    /// The task's name as the scheduler sees it.
    pub fn as_str(self) -> (r: &'static str)
        ensures
            r@ == task_name_of(self),
    {
        match self {
            TaskName::Poll => "network_poll",
            TaskName::Send => "network_send",
            TaskName::Receive => "network_recv",
            TaskName::SimTimeUpdate => "network_sim_time",
        }
    }
}

/// Task names are unique strings: distinct tasks register under distinct
/// names, so keying the scheduler by name cannot conflate two of them.
pub proof fn lemma_task_names_unique(a: TaskName, b: TaskName)
    requires
        a != b,
    ensures
        task_name_of(a) != task_name_of(b),
{
    reveal_strlit("network_poll");
    reveal_strlit("network_send");
    reveal_strlit("network_recv");
    reveal_strlit("network_sim_time");
    assert(task_name_of(TaskName::SimTimeUpdate).len() == 16);
    assert(task_name_of(TaskName::Poll)[8] == 'p');
    assert(task_name_of(TaskName::Send)[8] == 's');
    assert(task_name_of(TaskName::Receive)[8] == 'r');
}

/// Mathematical model of one registered task.
#[verifier::ext_equal]
pub ghost struct TaskModel {
    pub name: TaskName,
    pub dependencies: Seq<TaskName>,
}

/// One task registration: a name, unique within the plan, and the tasks
/// that must have run earlier in the same tick.
pub struct TaskRegistration {
    pub name: TaskName,
    pub dependencies: Vec<TaskName>,
}

impl View for TaskRegistration {
    type V = TaskModel;

    open spec fn view(&self) -> TaskModel {
        TaskModel { name: self.name, dependencies: self.dependencies@ }
    }
}

/// The error of assembling a scheduler plan.
#[derive(Clone, Copy, Debug, PartialEq, Eq, Structural)]
pub enum RegistrationError {
    /// A task under this name is already registered.
    DuplicateTask(TaskName),
}

/// Whether some task of the plan bears the given name.
pub open spec fn plan_contains(plan: Seq<TaskModel>, name: TaskName) -> bool {
    exists|i: int| 0 <= i < plan.len() && plan[i].name == name
}

/// Registering one more task changes what names the plan contains in
/// exactly one way: it adds the new task's name.
pub proof fn lemma_plan_contains_push(plan: Seq<TaskModel>, task: TaskModel, name: TaskName)
    ensures
        plan_contains(plan.push(task), name) <==> (plan_contains(plan, name) || task.name
            == name),
{
    if plan_contains(plan, name) {
        let i = choose|i: int| 0 <= i < plan.len() && plan[i].name == name;
        assert(plan.push(task)[i].name == name);
    }
    if task.name == name {
        assert(plan.push(task)[plan.len() as int].name == name);
    }
    if plan_contains(plan.push(task), name) {
        let i = choose|i: int|
            0 <= i < plan.push(task).len() && plan.push(task)[i].name == name;
        if i < plan.len() {
            assert(plan[i].name == name);
        }
    }
}

/// The ordered plan of named tasks the core hands the external scheduler.
pub struct SchedulerPlan {
    tasks: Vec<TaskRegistration>,
}

impl View for SchedulerPlan {
    type V = Seq<TaskModel>;

    closed spec fn view(&self) -> Seq<TaskModel> {
        self.tasks@.map_values(|t: TaskRegistration| t@)
    }
}

impl Default for SchedulerPlan {
    fn default() -> (r: Self)
        ensures
            r@.len() == 0,
    {
        SchedulerPlan { tasks: Vec::new() }
    }
}

impl SchedulerPlan {
    /// Creates an empty plan.
    pub fn new() -> (r: Self)
        ensures
            r@.len() == 0,
    {
        SchedulerPlan { tasks: Vec::new() }
    }

    /// How many tasks are registered.
    pub fn len(&self) -> (r: usize)
        ensures
            r == self@.len(),
    {
        self.tasks.len()
    }

    /// The registered tasks, in registration order.
    pub fn tasks(&self) -> (r: &Vec<TaskRegistration>)
        ensures
            r@.map_values(|t: TaskRegistration| t@) == self@,
    {
        &self.tasks
    }

    /// Registers one task. If its name is already taken, the plan is left
    /// unchanged and the duplicate is reported; otherwise the task is
    /// appended after every task registered earlier.
    pub fn add(&mut self, task: TaskRegistration) -> (r: Result<(), RegistrationError>)
        ensures
            plan_contains(old(self)@, task@.name) ==> final(self)@ == old(self)@ && r
                == Result::<(), RegistrationError>::Err(
                RegistrationError::DuplicateTask(task@.name),
            ),
            !plan_contains(old(self)@, task@.name) ==> final(self)@ == old(self)@.push(task@)
                && r is Ok,
    {
        let mut i: usize = 0;
        while i < self.tasks.len()
            invariant
                0 <= i <= self.tasks@.len(),
                self@ == old(self)@,
                self@.len() == self.tasks@.len(),
                forall|j: int| 0 <= j < i ==> self.tasks@[j]@.name != task@.name,
            decreases self.tasks@.len() - i,
        {
            if self.tasks[i].name == task.name {
                proof {
                    assert(self@[i as int] == self.tasks@[i as int]@);
                    assert(plan_contains(old(self)@, task@.name));
                }
                return Result::Err(RegistrationError::DuplicateTask(task.name));
            }
            i = i + 1;
        }
        proof {
            assert forall|j: int| 0 <= j < self@.len() implies #[trigger] self@[j].name
                != task@.name by {
                assert(self@[j] == self.tasks@[j]@);
            }
        }
        self.tasks.push(task);
        proof {
            assert(self@ =~= old(self)@.push(task@));
        }
        Result::Ok(())
    }
}

/// The send task's registration: no dependency of its own; the clock update
/// of the previous tick implicitly gates it.
pub open spec fn send_task() -> TaskModel {
    TaskModel { name: TaskName::Send, dependencies: Seq::empty() }
}

/// The receive task's registration: it runs after the external poll task.
pub open spec fn receive_task() -> TaskModel {
    TaskModel { name: TaskName::Receive, dependencies: seq![TaskName::Poll] }
}

/// The clock-update task's registration: it runs after the receive task.
pub open spec fn sim_time_task() -> TaskModel {
    TaskModel { name: TaskName::SimTimeUpdate, dependencies: seq![TaskName::Receive] }
}

/// Adds an in-memory transport layer: no sockets and no network, everything
/// goes through process memory. Valuable for tests and for a client-server
/// architecture within a single process.
pub struct InMemoryNetworkBundle;

impl InMemoryNetworkBundle {
    /// Constructs a new in-memory transport layer.
    pub fn new() -> (r: Self) {
        InMemoryNetworkBundle
    }

    /// Registers the send, receive and clock-update tasks with the plan, in
    /// that order and with their declared dependencies, and yields the
    /// backend socket resource the tasks will share, initially empty. At the
    /// first name collision the plan keeps what was registered up to it and
    /// the duplicate is reported.
    pub fn build(self, plan: &mut SchedulerPlan) -> (r: Result<
        InMemorySocketResource,
        RegistrationError,
    >)
        ensures
            plan_contains(old(plan)@, TaskName::Send) ==> ({
                &&& final(plan)@ == old(plan)@
                &&& r matches Err(e) && e == RegistrationError::DuplicateTask(TaskName::Send)
            }),
            !plan_contains(old(plan)@, TaskName::Send) && plan_contains(
                old(plan)@,
                TaskName::Receive,
            ) ==> ({
                &&& final(plan)@ == old(plan)@.push(send_task())
                &&& r matches Err(e) && e == RegistrationError::DuplicateTask(TaskName::Receive)
            }),
            !plan_contains(old(plan)@, TaskName::Send) && !plan_contains(
                old(plan)@,
                TaskName::Receive,
            ) && plan_contains(old(plan)@, TaskName::SimTimeUpdate) ==> ({
                &&& final(plan)@ == old(plan)@.push(send_task()).push(receive_task())
                &&& r matches Err(e) && e == RegistrationError::DuplicateTask(
                    TaskName::SimTimeUpdate,
                )
            }),
            !plan_contains(old(plan)@, TaskName::Send) && !plan_contains(
                old(plan)@,
                TaskName::Receive,
            ) && !plan_contains(old(plan)@, TaskName::SimTimeUpdate) ==> ({
                &&& final(plan)@ == old(plan)@.push(send_task()).push(receive_task()).push(
                    sim_time_task(),
                )
                &&& r matches Ok(s) && s@.len() == 0
            }),
    {
        let send_reg = TaskRegistration { name: TaskName::Send, dependencies: Vec::new() };
        proof {
            assert(send_reg@ =~= send_task());
        }
        match plan.add(send_reg) {
            Result::Err(e) => {
                return Result::Err(e);
            },
            Result::Ok(_) => {},
        }

        let mut recv_deps: Vec<TaskName> = Vec::new();
        recv_deps.push(TaskName::Poll);
        let recv_reg = TaskRegistration { name: TaskName::Receive, dependencies: recv_deps };
        proof {
            assert(recv_reg@ =~= receive_task());
            lemma_plan_contains_push(old(plan)@, send_task(), TaskName::Receive);
        }
        match plan.add(recv_reg) {
            Result::Err(e) => {
                return Result::Err(e);
            },
            Result::Ok(_) => {},
        }

        let mut time_deps: Vec<TaskName> = Vec::new();
        time_deps.push(TaskName::Receive);
        let time_reg = TaskRegistration { name: TaskName::SimTimeUpdate, dependencies: time_deps };
        proof {
            assert(time_reg@ =~= sim_time_task());
            lemma_plan_contains_push(old(plan)@, send_task(), TaskName::SimTimeUpdate);
            lemma_plan_contains_push(
                old(plan)@.push(send_task()),
                receive_task(),
                TaskName::SimTimeUpdate,
            );
        }
        match plan.add(time_reg) {
            Result::Err(e) => {
                return Result::Err(e);
            },
            Result::Ok(_) => {},
        }

        Result::Ok(InMemorySocketResource::new())
    }
}

} // verus!
