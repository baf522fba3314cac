//! Cooperative task scheduler.
//!
//! Tasks implement [`Task`] and are polled cooperatively. Each cycle reads
//! the tick counter once, orders the slots by priority and wake tick, checks
//! each live slot's stack guards, polls the slots that are due, and applies
//! the command each poll returns. A slot whose guards are found corrupted is
//! finished on the spot; a finished slot is never polled again.

use crate::slot_table::{
    in_run_order, runs_before, slot_table, table_is_full, table_len, table_new, table_push,
    table_retain_live, table_slot_mut, table_sort,
};
use crate::stack::{fresh_block, guards_intact, TaskStack, DEFAULT_STACK_SIZE};
use crate::timer::{get_ticks, ms_to_ticks, ticks_for_ms, SystemTick};
use vstd::prelude::*;

verus! {

/// Maximum number of tasks that a scheduler holds.
pub const MAX_TASKS: usize = 8;

/// Identifier assigned to each spawned task.
pub type TaskId = u32;

/// Why a task could not be spawned.
#[derive(Debug, Clone, Copy, PartialEq, Eq, Structural)]
pub enum SchedulerError {
    /// The slot table is full.
    NoCapacity,
    /// The task's stack could not be allocated.
    OutOfMemory,
}

/// What a task asks for when its poll returns.
#[derive(Debug, Clone, Copy, PartialEq, Eq, Structural)]
pub enum TaskCommand {
    /// Run again on the next cycle.
    Continue,
    /// Sleep for the given number of ticks, at least one. Ticks are counted
    /// modulo 2^32, so a wake tick counts as reached for half the counter's
    /// range after it: a sleep of more than 2^31 ticks cannot be told from a
    /// wake tick that has passed, and the task is due at once.
    SleepTicks(u32),
    /// Sleep for the given number of milliseconds, at least one tick. The
    /// limit of 2^31 ticks holds here as for `SleepTicks`.
    SleepMs(u32),
    /// The task has completed.
    Finished,
}

/// Task priority: within one cycle a higher priority runs earlier.
#[derive(Debug, Clone, Copy, PartialEq, Eq, PartialOrd, Ord, Structural)]
pub enum TaskPriority {
    Low,
    Normal,
    High,
}

impl TaskPriority {
    /// Position in the priority order: 0 for `Low`, 2 for `High`.
    pub open spec fn spec_rank(self) -> nat {
        match self {
            TaskPriority::Low => 0,
            TaskPriority::Normal => 1,
            TaskPriority::High => 2,
        }
    }

    /// Position in the priority order: 0 for `Low`, 2 for `High`.
    pub fn rank(self) -> (rank: u8)
        ensures
            rank == self.spec_rank(),
    {
        match self {
            TaskPriority::Low => 0,
            TaskPriority::Normal => 1,
            TaskPriority::High => 2,
        }
    }
}

impl Default for TaskPriority {
    fn default() -> (priority: Self)
        ensures
            priority == TaskPriority::Normal,
    {
        TaskPriority::Normal
    }
}

/// What a task sees of the kernel while it is polled.
pub struct TaskContext<'a> {
    /// Identifier of the task being polled.
    pub id: TaskId,
    /// Tick counter as read at the start of the cycle.
    pub current_ticks: u32,
    /// The task's own stack.
    pub stack: &'a mut TaskStack,
}

impl<'a> TaskContext<'a> {
    /// The context for a poll of task `id` at tick `current_ticks`, with
    /// `stack` as the task's own stack: whatever the task does to the stack
    /// through the context is done to `stack`.
    pub fn new(id: TaskId, current_ticks: u32, stack: &'a mut TaskStack) -> (ctx: TaskContext<'a>)
        ensures
            ctx.id == id,
            ctx.current_ticks == current_ticks,
            *ctx.stack == *old(stack),
            *final(stack) == *final(ctx.stack),
    {
        TaskContext { id, current_ticks, stack }
    }
}

/// A cooperative task. `poll` runs to completion without blocking and says
/// in its result when the task wants to run next.
pub trait Task {
    /// Human-readable task name, for diagnostics. A task that states its
    /// name in `spec_name` returns that name.
    fn name(&self) -> (name: &'static str)
        ensures
            self.spec_name() matches Some(stated) ==> name@ == stated,
    ;

    /// Task priority; the default, `Normal`, unless the task says otherwise.
    fn priority(&self) -> TaskPriority {
        TaskPriority::default()
    }

    /// Requested stack size in bytes; 4 KiB unless the task says otherwise.
    fn stack_size(&self) -> usize {
        DEFAULT_STACK_SIZE
    }

    /// Polls the task once.
    fn poll(&mut self, ctx: &mut TaskContext) -> TaskCommand;

    /// The name that the task states for itself in its present state, for
    /// contracts to speak of; `None` where a task states none, which says
    /// nothing of what `name` returns.
    open spec fn spec_name(&self) -> Option<Seq<char>> {
        None
    }
}

/// `now + delay` modulo 2^32.
pub open spec fn wrapped_sum(now: u32, delay: u32) -> u32 {
    if now + delay > u32::MAX {
        (now + delay - 0x1_0000_0000) as u32
    } else {
        (now + delay) as u32
    }
}

/// Half of the tick counter's range. A wake tick counts as reached from the
/// tick itself up to this many ticks later, and as still ahead otherwise.
pub const HALF_RANGE: u32 = 0x8000_0000;

/// Ticks from `earlier` to `later`, modulo 2^32.
pub open spec fn ticks_between(earlier: u32, later: u32) -> u32 {
    if later >= earlier {
        (later - earlier) as u32
    } else {
        (later - earlier + 0x1_0000_0000) as u32
    }
}

/// The wake tick `wake` has come at `now`, counting modulo 2^32: `now` is
/// the wake tick or less than half the counter's range past it.
pub open spec fn has_come(wake: u32, now: u32) -> bool {
    ticks_between(wake, now) < HALF_RANGE
}

/// Ticks that `command` asks to sleep for, at least one; `None` if it asks
/// for no sleep.
pub open spec fn sleep_ticks(command: TaskCommand) -> Option<u32> {
    match command {
        TaskCommand::Continue => None,
        TaskCommand::SleepTicks(ticks) => Some(if ticks >= 1 { ticks } else { 1 }),
        TaskCommand::SleepMs(ms) => Some(
            if ticks_for_ms(ms) >= 1 {
                ticks_for_ms(ms) as u32
            } else {
                1
            },
        ),
        TaskCommand::Finished => None,
    }
}

/// The scheduling state of one slot, as the contracts see it.
pub struct SlotView {
    /// Identifier of the task.
    pub id: TaskId,
    /// Priority read from the task when it was spawned.
    pub priority: TaskPriority,
    /// First tick at which the task may be polled again.
    pub next_run_tick: u32,
    /// The task has finished, by its own word or by a guard fault.
    pub finished: bool,
    /// The bytes of the task's stack block, guards included.
    pub stack: Seq<u8>,
}

impl SlotView {
    /// The slot may be polled at `now`: it is live, its guards are intact and
    /// its wake tick has come.
    pub open spec fn is_due(self, now: u32) -> bool {
        !self.finished && guards_intact(self.stack) && has_come(self.next_run_tick, now)
    }

    /// The slot marked finished.
    pub open spec fn finish(self) -> SlotView {
        SlotView { finished: true, ..self }
    }

    /// The slot after a poll at `now` that returned `command`, the stack
    /// left aside.
    pub open spec fn after_command(self, now: u32, command: TaskCommand) -> SlotView {
        match command {
            TaskCommand::Continue => SlotView { next_run_tick: now, ..self },
            TaskCommand::Finished => SlotView { finished: true, ..self },
            _ => SlotView { next_run_tick: wrapped_sum(now, sleep_ticks(command)->0), ..self },
        }
    }

    /// The slot after a poll at `now` that returned `command` and left the
    /// stack block as `stack`: the command is applied, and corrupted guards
    /// finish the slot whatever the command was.
    pub open spec fn after_poll(self, now: u32, command: TaskCommand, stack: Seq<u8>) -> SlotView {
        let applied = self.after_command(now, command);
        SlotView { stack, finished: applied.finished || !guards_intact(stack), ..applied }
    }
}

/// What one cycle did with one slot.
#[derive(Debug, Clone, Copy, PartialEq, Eq)]
pub enum PollOutcome {
    /// The slot was finished before the cycle. It was not polled.
    AlreadyFinished,
    /// The guards were found corrupted before polling. The slot is now
    /// finished. It was not polled.
    GuardTripped,
    /// The wake tick lies ahead. The slot was not polled.
    NotDue,
    /// The task was polled once and returned this command.
    Polled(TaskCommand),
    /// The task was polled once and returned this command, and the guards
    /// were found corrupted right after. The slot is now finished.
    GuardTrippedAfterPoll(TaskCommand),
}

/// One slot's line in a cycle report.
#[derive(Debug, Clone, Copy, PartialEq, Eq)]
pub struct SlotReport {
    /// Identifier of the task.
    pub id: TaskId,
    /// What the cycle did with the slot.
    pub outcome: PollOutcome,
    /// The task's name, read when a guard fault is reported.
    pub fault_task: Option<&'static str>,
}

/// Scheduler-owned record of one spawned task: the task, its identifier,
/// its priority, its wake tick, its finished flag, and its stack.
pub struct TaskSlot {
    id: TaskId,
    task: Box<dyn Task>,
    priority: TaskPriority,
    next_run_tick: u32,
    finished: bool,
    stack: TaskStack,
}

/// What one cycle at `now` may make of a slot: `report` says what was done
/// with `before`, and `after` is the slot it left. A slot that was not
/// polled keeps its task untouched. A guard fault is reported with the name
/// that the task gives when the fault is found.
pub open spec fn slot_step(before: TaskSlot, now: u32, report: SlotReport, after: TaskSlot) -> bool {
    &&& report.id == before@.id
    &&& match report.outcome {
        PollOutcome::AlreadyFinished => {
            &&& before@.finished
            &&& after == before
            &&& report.fault_task is None
        },
        PollOutcome::GuardTripped => {
            &&& !before@.finished
            &&& !guards_intact(before@.stack)
            &&& after@ == before@.finish()
            &&& after.same_task(before)
            &&& report.fault_task matches Some(name) && before.names_task(name@)
        },
        PollOutcome::NotDue => {
            &&& !before@.finished
            &&& guards_intact(before@.stack)
            &&& !has_come(before@.next_run_tick, now)
            &&& after == before
            &&& report.fault_task is None
        },
        PollOutcome::Polled(command) => {
            &&& before@.is_due(now)
            &&& guards_intact(after@.stack)
            &&& after@ == before@.after_poll(now, command, after@.stack)
            &&& report.fault_task is None
        },
        PollOutcome::GuardTrippedAfterPoll(command) => {
            &&& before@.is_due(now)
            &&& !guards_intact(after@.stack)
            &&& after@ == before@.after_poll(now, command, after@.stack)
            &&& report.fault_task matches Some(name) && after.names_task(name@)
        },
    }
}

impl TaskSlot {
    /// The scheduling state of the slot.
    pub closed spec fn view(&self) -> SlotView {
        SlotView {
            id: self.id,
            priority: self.priority,
            next_run_tick: self.next_run_tick,
            finished: self.finished,
            stack: self.stack@,
        }
    }

    /// Both slots hold the same task in the same state.
    pub closed spec fn same_task(self, other: TaskSlot) -> bool {
        self.task == other.task
    }

    /// The slot holds `task`, in the state it is given in.
    pub closed spec fn holds_task(self, task: Box<dyn Task>) -> bool {
        self.task == task
    }

    /// The name that the slot's task states for itself, in its present
    /// state, if it states one.
    pub closed spec fn task_name(self) -> Option<Seq<char>> {
        self.task.spec_name()
    }

    /// `name` is a name for the slot's task: the name that the task states
    /// for itself, where it states one.
    pub open spec fn names_task(self, name: Seq<char>) -> bool {
        self.task_name() matches Some(stated) ==> name == stated
    }

    /// Builds the slot of a task that is spawned at `now` with `priority`,
    /// on the stack that was allocated for it, if one was.
    pub fn assemble(
        id: TaskId,
        task: Box<dyn Task>,
        priority: TaskPriority,
        now: u32,
        stack: Option<TaskStack>,
    ) -> (made: Result<TaskSlot, SchedulerError>)
        ensures
            stack is None ==> made == Err::<TaskSlot, SchedulerError>(SchedulerError::OutOfMemory),
            stack matches Some(block) ==> made is Ok && made->Ok_0@ == (SlotView {
                id,
                priority,
                next_run_tick: now,
                finished: false,
                stack: block@,
            }),
            made matches Ok(slot) ==> slot.holds_task(task),
    {
        match stack {
            Some(stack) => Ok(
                TaskSlot { id, task, priority, next_run_tick: now, finished: false, stack },
            ),
            None => Err(SchedulerError::OutOfMemory),
        }
    }

    /// Builds the slot of `task`, spawned at `now`: reads the task's priority
    /// and allocates a stack of the size the task asks for. The only failure
    /// is `OutOfMemory`, when the stack cannot be allocated.
    pub fn new(id: TaskId, task: Box<dyn Task>, now: u32) -> (made: Result<
        TaskSlot,
        SchedulerError,
    >)
        ensures
            made matches Err(error) ==> error == SchedulerError::OutOfMemory,
            made matches Ok(slot) ==> {
                &&& slot@.id == id
                &&& slot@.next_run_tick == now
                &&& !slot@.finished
                &&& guards_intact(slot@.stack)
                &&& exists|size: usize| slot@.stack == #[trigger] fresh_block(size as nat)
            },
    {
        let priority = task.priority();
        let stack = TaskStack::new(task.stack_size());
        TaskSlot::assemble(id, task, priority, now, stack)
    }

    /// Identifier of the task.
    pub fn id(&self) -> (id: TaskId)
        ensures
            id == self@.id,
    {
        self.id
    }

    /// Priority of the task.
    pub fn priority(&self) -> (priority: TaskPriority)
        ensures
            priority == self@.priority,
    {
        self.priority
    }

    /// First tick at which the task may be polled again.
    pub fn next_run_tick(&self) -> (tick: u32)
        ensures
            tick == self@.next_run_tick,
    {
        self.next_run_tick
    }

    /// Whether the task has finished.
    pub fn is_finished(&self) -> (finished: bool)
        ensures
            finished == self@.finished,
    {
        self.finished
    }

    /// Whether the task is still live; the opposite of `is_finished`.
    pub fn is_live(&self) -> (live: bool)
        ensures
            live == !self@.finished,
    {
        !self.finished
    }

    /// Applies the command that a poll at `now` returned: `Continue` makes
    /// the task eligible at once, a sleep moves the wake tick ahead by at
    /// least one tick, wrapping, and `Finished` finishes the slot.
    pub fn apply_command(&mut self, now: u32, command: TaskCommand)
        ensures
            final(self)@ == old(self)@.after_command(now, command),
            final(self).same_task(*old(self)),
    {
        match command {
            TaskCommand::Continue => {
                self.next_run_tick = now;
            },
            TaskCommand::SleepTicks(ticks) => {
                let delay: u32 = if ticks >= 1 {
                    ticks
                } else {
                    1
                };
                self.next_run_tick = now.wrapping_add(delay);
            },
            TaskCommand::SleepMs(ms) => {
                let ticks = ms_to_ticks(ms);
                let delay: u32 = if ticks >= 1 {
                    ticks
                } else {
                    1
                };
                self.next_run_tick = now.wrapping_add(delay);
            },
            TaskCommand::Finished => {
                self.finished = true;
            },
        }
    }

    /// Gives the slot its turn in a cycle at `now`. A finished slot is left
    /// alone. A live slot with corrupted guards is finished without being
    /// polled. A live slot is polled once if its wake tick has come; the
    /// returned command is applied, and the guards are checked again right
    /// after: if they are corrupted now the slot is finished, whatever the
    /// task returned.
    pub fn run(&mut self, now: u32) -> (report: SlotReport)
        ensures
            slot_step(*old(self), now, report, *final(self)),
    {
        if self.finished {
            return SlotReport {
                id: self.id,
                outcome: PollOutcome::AlreadyFinished,
                fault_task: None,
            };
        }
        if !self.stack.verify() {
            let name = self.task.name();
            self.finished = true;
            return SlotReport {
                id: self.id,
                outcome: PollOutcome::GuardTripped,
                fault_task: Some(name),
            };
        }
        if now.wrapping_sub(self.next_run_tick) >= HALF_RANGE {
            return SlotReport { id: self.id, outcome: PollOutcome::NotDue, fault_task: None };
        }
        let mut ctx = TaskContext::new(self.id, now, &mut self.stack);
        let command = self.task.poll(&mut ctx);
        self.apply_command(now, command);
        if !self.stack.verify() {
            let name = self.task.name();
            self.finished = true;
            SlotReport {
                id: self.id,
                outcome: PollOutcome::GuardTrippedAfterPoll(command),
                fault_task: Some(name),
            }
        } else {
            SlotReport { id: self.id, outcome: PollOutcome::Polled(command), fault_task: None }
        }
    }
}

/// What one cycle did: the tick it ran at, and one line per slot in the
/// order in which the slots had their turn.
pub struct CycleReport {
    /// Tick counter as read at the start of the cycle.
    pub now: u32,
    /// One line per slot, in run order.
    pub slots: Vec<SlotReport>,
}

/// What one cycle at `now` may make of a slot table: the slots of `before`
/// are put in run order, each has its turn, `reports` says in that order
/// what was done, and `after` holds the slots as their turns left them.
pub open spec fn cycle_step(
    before: Seq<TaskSlot>,
    now: u32,
    reports: Seq<SlotReport>,
    after: Seq<TaskSlot>,
) -> bool {
    exists|order: Seq<TaskSlot>| #[trigger] runs_in_order(order, before, now, reports, after)
}

/// `order` is the order in which a cycle at `now` gave the slots of
/// `before` their turns: it holds the same slots, in run order, and the
/// slot at each place took its turn as `reports` say, leaving the slot that
/// `after` holds at that place.
pub open spec fn runs_in_order(
    order: Seq<TaskSlot>,
    before: Seq<TaskSlot>,
    now: u32,
    reports: Seq<SlotReport>,
    after: Seq<TaskSlot>,
) -> bool {
    &&& in_run_order(order)
    &&& order.to_multiset() == before.to_multiset()
    &&& order.len() == after.len()
    &&& order.len() == reports.len()
    &&& forall|i: int| 0 <= i < order.len() ==> slot_step(order[i], now, reports[i], after[i])
}

/// The identifier that follows `id`, wrapping at 2^32.
pub open spec fn next_task_id(id: TaskId) -> TaskId {
    wrapped_sum(id, 1)
}

/// Cooperative scheduler over a fixed table of task slots.
pub struct Scheduler {
    tasks: heapless::Vec<TaskSlot, MAX_TASKS>,
    next_id: TaskId,
    clock: &'static SystemTick,
}

impl Scheduler {
    /// The slots, in table order.
    pub closed spec fn slots(&self) -> Seq<TaskSlot> {
        slot_table(self.tasks)
    }

    /// The scheduling state of each slot, in table order.
    pub open spec fn view(&self) -> Seq<SlotView> {
        self.slots().map_values(|slot: TaskSlot| slot@)
    }

    /// The identifier that the next spawned task gets.
    pub closed spec fn next_id(&self) -> TaskId {
        self.next_id
    }

    /// An empty scheduler that reads its ticks from `clock`. The first task
    /// gets identifier 1.
    pub fn new(clock: &'static SystemTick) -> (scheduler: Self)
        ensures
            scheduler.slots() == Seq::<TaskSlot>::empty(),
            scheduler.next_id() == 1,
    {
        Scheduler { tasks: table_new(), next_id: 1, clock }
    }

    /// Appends `made` as the slot of a new task, if the table has room and
    /// the slot could be built. The slot must carry the next identifier. On
    /// failure nothing changes.
    pub fn enroll(&mut self, made: Result<TaskSlot, SchedulerError>) -> (spawned: Result<
        TaskId,
        SchedulerError,
    >)
        requires
            made matches Ok(slot) ==> slot@.id == old(self).next_id(),
        ensures
            old(self).slots().len() >= MAX_TASKS ==> spawned == Err::<TaskId, SchedulerError>(
                SchedulerError::NoCapacity,
            ) && *final(self) == *old(self),
            old(self).slots().len() < MAX_TASKS ==> (match made {
                Ok(slot) => {
                    &&& spawned == Ok::<TaskId, SchedulerError>(old(self).next_id())
                    &&& final(self).slots() == old(self).slots().push(slot)
                    &&& final(self).next_id() == next_task_id(old(self).next_id())
                },
                Err(error) => {
                    &&& spawned == Err::<TaskId, SchedulerError>(error)
                    &&& *final(self) == *old(self)
                },
            }),
    {
        if table_is_full(&self.tasks) {
            return Err(SchedulerError::NoCapacity);
        }
        let slot = match made {
            Ok(slot) => slot,
            Err(error) => {
                return Err(error);
            },
        };
        let id = self.next_id;
        match table_push(&mut self.tasks, slot) {
            Ok(_) => {
                self.next_id = id.wrapping_add(1);
                Ok(id)
            },
            Err(_) => Err(SchedulerError::NoCapacity),
        }
    }

    /// Registers `task` with the current tick as wake tick; see
    /// [`Scheduler::spawn_at`].
    pub fn spawn(&mut self, task: Box<dyn Task>) -> (spawned: Result<TaskId, SchedulerError>)
        ensures
            old(self).slots().len() >= MAX_TASKS ==> spawned == Err::<TaskId, SchedulerError>(
                SchedulerError::NoCapacity,
            ),
            spawned is Err ==> *final(self) == *old(self),
            spawned is Err && old(self).slots().len() < MAX_TASKS ==> spawned
                == Err::<TaskId, SchedulerError>(SchedulerError::OutOfMemory),
            spawned matches Ok(id) ==> {
                &&& old(self).slots().len() < MAX_TASKS
                &&& id == old(self).next_id()
                &&& final(self).next_id() == next_task_id(id)
                &&& final(self).slots().len() == old(self).slots().len() + 1
                &&& final(self).slots().drop_last() == old(self).slots()
                &&& final(self).slots().last()@.id == id
                &&& !final(self).slots().last()@.finished
                &&& guards_intact(final(self).slots().last()@.stack)
            },
    {
        let now = get_ticks(self.clock);
        self.spawn_at(task, now)
    }

    /// Registers `task` at tick `now`: gives it the next identifier,
    /// allocates its stack, and appends its slot with `now` as wake tick, so
    /// that the task is due at once. Fails with `NoCapacity` if the table is
    /// full and with `OutOfMemory` if the stack cannot be allocated; on
    /// failure nothing changes.
    pub fn spawn_at(&mut self, task: Box<dyn Task>, now: u32) -> (spawned: Result<
        TaskId,
        SchedulerError,
    >)
        ensures
            old(self).slots().len() >= MAX_TASKS ==> spawned == Err::<TaskId, SchedulerError>(
                SchedulerError::NoCapacity,
            ),
            spawned is Err ==> *final(self) == *old(self),
            spawned is Err && old(self).slots().len() < MAX_TASKS ==> spawned
                == Err::<TaskId, SchedulerError>(SchedulerError::OutOfMemory),
            spawned matches Ok(id) ==> {
                &&& old(self).slots().len() < MAX_TASKS
                &&& id == old(self).next_id()
                &&& final(self).next_id() == next_task_id(id)
                &&& final(self).slots().len() == old(self).slots().len() + 1
                &&& final(self).slots().drop_last() == old(self).slots()
                &&& final(self).slots().last()@.id == id
                &&& final(self).slots().last()@.next_run_tick == now
                &&& final(self).slots().last()@.is_due(now)
                &&& !final(self).slots().last()@.finished
                &&& guards_intact(final(self).slots().last()@.stack)
            },
    {
        if table_is_full(&self.tasks) {
            return Err(SchedulerError::NoCapacity);
        }
        let made = TaskSlot::new(self.next_id, task, now);
        let spawned = self.enroll(made);
        proof {
            if spawned is Ok {
                assert(self.slots().drop_last() =~= old(self).slots());
            }
        }
        spawned
    }

    /// Runs one cycle at the tick that the clock shows now.
    pub fn run_ready(&mut self) -> (report: CycleReport)
        ensures
            cycle_step(old(self).slots(), report.now, report.slots@, final(self).slots()),
            final(self).next_id() == old(self).next_id(),
    {
        let now = get_ticks(self.clock);
        self.run_ready_at(now)
    }

    /// Runs one cycle at tick `now`: puts the slots in run order, then gives
    /// each slot its turn, once, in that order.
    pub fn run_ready_at(&mut self, now: u32) -> (report: CycleReport)
        ensures
            report.now == now,
            cycle_step(old(self).slots(), now, report.slots@, final(self).slots()),
            final(self).next_id() == old(self).next_id(),
    {
        table_sort(&mut self.tasks);
        let ghost order = self.slots();
        let count = table_len(&self.tasks);
        let mut reports: Vec<SlotReport> = Vec::new();
        let mut index: usize = 0;
        while index < count
            invariant
                index <= count,
                count == order.len(),
                self.slots().len() == order.len(),
                reports@.len() == index,
                self.next_id() == old(self).next_id(),
                forall|i: int| 0 <= i < index ==> slot_step(order[i], now, reports@[i], self.slots()[i]),
                forall|i: int| index <= i < count ==> self.slots()[i] == order[i],
            decreases count - index,
        {
            let slot = table_slot_mut(&mut self.tasks, index);
            let line = slot.run(now);
            reports.push(line);
            index += 1;
        }
        proof {
            assert(runs_in_order(order, old(self).slots(), now, reports@, self.slots()));
        }
        CycleReport { now, slots: reports }
    }

    /// Removes the finished slots; the live ones keep their order. This is
    /// optional housekeeping, never done by a cycle.
    pub fn reap_finished(&mut self)
        ensures
            final(self).slots() == old(self).slots().filter(|slot: TaskSlot| !slot@.finished),
            final(self).next_id() == old(self).next_id(),
    {
        table_retain_live(&mut self.tasks);
    }

    /// Number of slots in the table, finished ones included.
    pub fn task_count(&self) -> (count: usize)
        ensures
            count == self.slots().len(),
            count <= MAX_TASKS,
    {
        table_len(&self.tasks)
    }
}

/// A finished slot stays as it is: whatever the tick, a cycle reports it as
/// already finished and neither polls nor changes it.
pub proof fn lemma_finished_slot_is_left_alone(
    before: TaskSlot,
    now: u32,
    report: SlotReport,
    after: TaskSlot,
)
    requires
        before@.finished,
        slot_step(before, now, report, after),
    ensures
        report.outcome == PollOutcome::AlreadyFinished,
        after == before,
{
}

/// Once a poll returns `Finished`, or a guard check fails before or after a
/// poll, the slot is finished, and no later cycle polls it again, however
/// far the ticks advance.
pub proof fn lemma_never_polled_after_finish(
    before: TaskSlot,
    now: u32,
    report: SlotReport,
    after: TaskSlot,
    later: u32,
    next_report: SlotReport,
    next_after: TaskSlot,
)
    requires
        slot_step(before, now, report, after),
        report.outcome == PollOutcome::Polled(TaskCommand::Finished) || report.outcome
            == PollOutcome::GuardTripped || report.outcome is GuardTrippedAfterPoll,
        slot_step(after, later, next_report, next_after),
    ensures
        after@.finished,
        next_report.outcome == PollOutcome::AlreadyFinished,
        next_after == after,
{
}

/// A task that was polled at `now` and asked to sleep is not polled again
/// before its sleep is over, wherever in the counter's range `now` lies: a
/// cycle at a tick that is fewer ticks past `now` than the sleep, counting
/// modulo 2^32, reports the slot as not due and leaves it as it is. This
/// holds of every sleep of up to half the counter's range.
pub proof fn lemma_sleeper_is_not_polled_early(
    before: TaskSlot,
    now: u32,
    report: SlotReport,
    after: TaskSlot,
    later: u32,
    next_report: SlotReport,
    next_after: TaskSlot,
)
    requires
        slot_step(before, now, report, after),
        report.outcome matches PollOutcome::Polled(command) && sleep_ticks(command) is Some
            && sleep_ticks(command)->0 <= HALF_RANGE && ticks_between(now, later) < sleep_ticks(
            command,
        )->0,
        slot_step(after, later, next_report, next_after),
    ensures
        next_report.outcome == PollOutcome::NotDue,
        next_after == after,
{
    let command = report.outcome->Polled_0;
    let sleep = sleep_ticks(command)->0;
    assert(after@.next_run_tick == wrapped_sum(now, sleep));
    assert(!has_come(after@.next_run_tick, later));
}

/// A task that returned `SleepMs(500)` at tick `now` is not polled again
/// until the counter has advanced by 500 from `now`, also where the counter
/// wraps in between.
pub proof fn lemma_half_second_sleeper_waits_500_ticks(
    before: TaskSlot,
    now: u32,
    report: SlotReport,
    after: TaskSlot,
    later: u32,
    next_report: SlotReport,
    next_after: TaskSlot,
)
    requires
        slot_step(before, now, report, after),
        report.outcome == PollOutcome::Polled(TaskCommand::SleepMs(500)),
        ticks_between(now, later) < 500,
        slot_step(after, later, next_report, next_after),
    ensures
        next_report.outcome == PollOutcome::NotDue,
        next_after == after,
{
    lemma_sleeper_is_not_polled_early(before, now, report, after, later, next_report, next_after);
}

/// A sleeping task is due again once its sleep is over: at the wake tick and
/// for half the counter's range after it.
pub proof fn lemma_sleeper_is_due_after_its_sleep(
    before: TaskSlot,
    now: u32,
    report: SlotReport,
    after: TaskSlot,
    later: u32,
)
    requires
        slot_step(before, now, report, after),
        report.outcome matches PollOutcome::Polled(command) && sleep_ticks(command) is Some
            && sleep_ticks(command)->0 <= ticks_between(now, later) < sleep_ticks(command)->0
            + HALF_RANGE && ticks_between(now, later) < HALF_RANGE,
    ensures
        after@.is_due(later),
{
    let command = report.outcome->Polled_0;
    let sleep = sleep_ticks(command)->0;
    assert(after@.next_run_tick == wrapped_sum(now, sleep));
    assert(has_come(after@.next_run_tick, later));
}

/// Sleeping for `ms` milliseconds is sleeping for `ms` ticks, and for one
/// tick when `ms` is zero.
pub proof fn lemma_sleep_ms_is_ticks(ms: u32)
    ensures
        sleep_ticks(TaskCommand::SleepMs(ms)) == Some(if ms >= 1 { ms } else { 1u32 }),
{
}

/// A task that returned `Continue` is due again in every later cycle at the
/// same tick or up to half the counter's range after it, as long as its
/// guards hold.
pub proof fn lemma_continue_is_due_next_cycle(
    before: TaskSlot,
    now: u32,
    report: SlotReport,
    after: TaskSlot,
    later: u32,
)
    requires
        slot_step(before, now, report, after),
        report.outcome == PollOutcome::Polled(TaskCommand::Continue),
        ticks_between(now, later) < HALF_RANGE,
    ensures
        after@.is_due(later),
{
}

/// Within one cycle a slot of strictly higher priority has its turn before
/// any slot of lower priority.
pub proof fn lemma_higher_priority_runs_first(order: Seq<TaskSlot>, earlier: int, later: int)
    requires
        in_run_order(order),
        0 <= earlier < order.len(),
        0 <= later < order.len(),
        order[earlier]@.priority.spec_rank() > order[later]@.priority.spec_rank(),
    ensures
        earlier < later,
{
    if later < earlier {
        assert(runs_before(order[later]@, order[earlier]@));
    }
}

/// A cycle neither adds nor drops a slot, and it reports on each slot
/// once.
pub proof fn lemma_cycle_keeps_slot_count(
    before: Seq<TaskSlot>,
    now: u32,
    reports: Seq<SlotReport>,
    after: Seq<TaskSlot>,
)
    requires
        cycle_step(before, now, reports, after),
    ensures
        after.len() == before.len(),
        reports.len() == before.len(),
{
    let order = choose|order: Seq<TaskSlot>| runs_in_order(order, before, now, reports, after);
    order.to_multiset_ensures();
    before.to_multiset_ensures();
}

/// In a cycle every slot of the table has its turn: for the slot at
/// `index` there is a place in the report and in the table after the cycle
/// that says what was done with it and what it became.
pub proof fn lemma_every_slot_has_its_turn(
    before: Seq<TaskSlot>,
    now: u32,
    reports: Seq<SlotReport>,
    after: Seq<TaskSlot>,
    index: int,
) -> (place: int)
    requires
        cycle_step(before, now, reports, after),
        0 <= index < before.len(),
    ensures
        0 <= place < after.len(),
        place < reports.len(),
        slot_step(before[index], now, reports[place], after[place]),
{
    let order = choose|order: Seq<TaskSlot>| runs_in_order(order, before, now, reports, after);
    order.to_multiset_ensures();
    before.to_multiset_ensures();
    assert(before.contains(before[index]));
    assert(before.to_multiset().count(before[index]) > 0);
    assert(order.to_multiset().count(before[index]) > 0);
    assert(order.contains(before[index]));
    let place = choose|place: int| 0 <= place < order.len() && order[place] == before[index];
    assert(slot_step(order[place], now, reports[place], after[place]));
    place
}

/// Every slot that was finished before a cycle is in the table after it
/// exactly as it was, task included, and the cycle reports it as already
/// finished: whatever the tick, a finished task is not polled.
pub proof fn lemma_cycle_leaves_finished_slots_alone(
    before: Seq<TaskSlot>,
    now: u32,
    reports: Seq<SlotReport>,
    after: Seq<TaskSlot>,
    index: int,
)
    requires
        cycle_step(before, now, reports, after),
        0 <= index < before.len(),
        before[index]@.finished,
    ensures
        exists|place: int|
            0 <= place < after.len() && #[trigger] after[place] == before[index] && reports[place].outcome
                == PollOutcome::AlreadyFinished,
{
    let place = lemma_every_slot_has_its_turn(before, now, reports, after, index);
    assert(after[place] == before[index]);
}

/// A live slot whose wake tick has not come and whose guards hold is in the
/// table after the cycle exactly as it was, reported as not due: a sleeping
/// task is not polled before its wake tick.
pub proof fn lemma_cycle_leaves_sleepers_alone(
    before: Seq<TaskSlot>,
    now: u32,
    reports: Seq<SlotReport>,
    after: Seq<TaskSlot>,
    index: int,
)
    requires
        cycle_step(before, now, reports, after),
        0 <= index < before.len(),
        !before[index]@.finished,
        guards_intact(before[index]@.stack),
        !has_come(before[index]@.next_run_tick, now),
    ensures
        exists|place: int|
            0 <= place < after.len() && #[trigger] after[place] == before[index] && reports[place].outcome
                == PollOutcome::NotDue,
{
    let place = lemma_every_slot_has_its_turn(before, now, reports, after, index);
    assert(after[place] == before[index]);
}

} // verus!
