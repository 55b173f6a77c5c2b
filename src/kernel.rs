//! Static-priority task kernel with priority-ceiling locking.
//!
//! Every task is bound to one interrupt source, or to the idle loop at the
//! lowest priority. A resource's ceiling is the highest priority among the
//! tasks that touch it, computed once from the table. Locking a resource raises
//! the system priority to at least its ceiling, so no task that touches it can
//! preempt the holder; lock acquisition never fails.
use vstd::prelude::*;

verus! {

/// What runs a task: the idle loop or one interrupt source.
#[derive(Clone, Copy, Debug, PartialEq, Eq, Structural)]
pub enum Trigger {
    Idle,
    Usart1,
    OtgFs,
    Tim2,
    Dma2Stream0,
}

/// State reachable from more than one task.
#[derive(Clone, Copy, Debug, PartialEq, Eq, Structural)]
pub enum Resource {
    Timer,
    UsbDevice,
    Serial,
    Control,
    Dfu,
    LedTx,
    LedRx,
    LedCmd,
    Storage,
    AdcTransfer,
    CtlPins,
    PowerMeter,
    Config,
}

pub const RESOURCE_COUNT: usize = 13;

pub open spec fn resource_index(r: Resource) -> nat {
    match r {
        Resource::Timer => 0,
        Resource::UsbDevice => 1,
        Resource::Serial => 2,
        Resource::Control => 3,
        Resource::Dfu => 4,
        Resource::LedTx => 5,
        Resource::LedRx => 6,
        Resource::LedCmd => 7,
        Resource::Storage => 8,
        Resource::AdcTransfer => 9,
        Resource::CtlPins => 10,
        Resource::PowerMeter => 11,
        Resource::Config => 12,
    }
}

impl Resource {
    /// Position of the resource in the ceiling table.
    pub fn index(self) -> (r: usize)
        ensures
            r == resource_index(self),
            r < RESOURCE_COUNT,
    {
        match self {
            Resource::Timer => 0,
            Resource::UsbDevice => 1,
            Resource::Serial => 2,
            Resource::Control => 3,
            Resource::Dfu => 4,
            Resource::LedTx => 5,
            Resource::LedRx => 6,
            Resource::LedCmd => 7,
            Resource::Storage => 8,
            Resource::AdcTransfer => 9,
            Resource::CtlPins => 10,
            Resource::PowerMeter => 11,
            Resource::Config => 12,
        }
    }

    /// The resource at position `i` of the ceiling table.
    pub fn from_index(i: usize) -> (r: Resource)
        requires
            i < RESOURCE_COUNT,
        ensures
            resource_index(r) == i,
    {
        match i {
            0 => Resource::Timer,
            1 => Resource::UsbDevice,
            2 => Resource::Serial,
            3 => Resource::Control,
            4 => Resource::Dfu,
            5 => Resource::LedTx,
            6 => Resource::LedRx,
            7 => Resource::LedCmd,
            8 => Resource::Storage,
            9 => Resource::AdcTransfer,
            10 => Resource::CtlPins,
            11 => Resource::PowerMeter,
            _ => Resource::Config,
        }
    }
}

/// One entry of the static task table.
#[derive(Debug)]
pub struct Task {
    pub trigger: Trigger,
    pub priority: u8,
    pub resources: Vec<Resource>,
}

pub ghost struct TaskView {
    pub trigger: Trigger,
    pub priority: u8,
    pub resources: Seq<Resource>,
}

impl View for Task {
    type V = TaskView;

    open spec fn view(&self) -> TaskView {
        TaskView { trigger: self.trigger, priority: self.priority, resources: self.resources@ }
    }
}

pub open spec fn table_view(ts: Seq<Task>) -> Seq<TaskView> {
    ts.map_values(|t: Task| t@)
}

pub open spec fn touches(t: TaskView, r: Resource) -> bool {
    t.resources.contains(r)
}

/// Highest priority among the tasks that touch `r`; 0 when none does.
pub open spec fn ceiling(ts: Seq<TaskView>, r: Resource) -> u8
    decreases ts.len(),
{
    if ts.len() == 0 {
        0
    } else {
        let rest = ceiling(ts.drop_last(), r);
        let t = ts.last();
        if touches(t, r) && t.priority > rest {
            t.priority
        } else {
            rest
        }
    }
}

/// One task per trigger, and exactly the idle loop at priority 0.
pub open spec fn valid_table(ts: Seq<TaskView>) -> bool {
    &&& forall|i: int, j: int|
        0 <= i < j < ts.len() ==> #[trigger] ts[i].trigger != #[trigger] ts[j].trigger
    &&& forall|i: int|
        0 <= i < ts.len() ==> (#[trigger] ts[i].trigger == Trigger::Idle <==> ts[i].priority == 0)
}

/// The ceiling bounds every task that touches the resource, and is reached
/// by one of them unless it is 0.
pub proof fn lemma_ceiling_is_max(ts: Seq<TaskView>, r: Resource)
    ensures
        forall|i: int| 0 <= i < ts.len() && touches(#[trigger] ts[i], r) ==> ts[i].priority <= ceiling(ts, r),
        ceiling(ts, r) > 0 ==> exists|i: int|
            0 <= i < ts.len() && touches(#[trigger] ts[i], r) && ts[i].priority == ceiling(ts, r),
    decreases ts.len(),
{
    if ts.len() > 0 {
        let rest = ts.drop_last();
        lemma_ceiling_is_max(rest, r);
        assert forall|i: int| 0 <= i < ts.len() && touches(#[trigger] ts[i], r) implies ts[i].priority
            <= ceiling(ts, r) by {
            if i < ts.len() - 1 {
                assert(ts[i] == rest[i]);
            }
        }
        if ceiling(ts, r) > 0 {
            if ceiling(ts, r) == ceiling(rest, r) {
                let i = choose|i: int|
                    0 <= i < rest.len() && touches(#[trigger] rest[i], r) && rest[i].priority == ceiling(rest, r);
                assert(ts[i] == rest[i]);
            } else {
                assert(touches(ts[ts.len() - 1], r));
            }
        }
    }
}

impl Task {
    /// Whether the task touches `r`.
    pub fn touches(&self, r: Resource) -> (b: bool)
        ensures
            b == touches(self@, r),
    {
        let mut i: usize = 0;
        while i < self.resources.len()
            invariant
                i <= self.resources@.len(),
                forall|j: int| 0 <= j < i ==> self.resources@[j] != r,
            decreases self.resources@.len() - i,
        {
            if self.resources[i] == r {
                return true;
            }
            i = i + 1;
        }
        false
    }
}

/// Highest priority among the tasks of `tasks` that touch `r`; 0 when none does.
pub fn ceiling_of(tasks: &Vec<Task>, r: Resource) -> (c: u8)
    ensures
        c == ceiling(table_view(tasks@), r),
{
    let ghost ts = table_view(tasks@);
    let mut c: u8 = 0;
    let mut i: usize = 0;
    while i < tasks.len()
        invariant
            i <= tasks@.len(),
            ts == table_view(tasks@),
            c == ceiling(ts.subrange(0, i as int), r),
        decreases tasks@.len() - i,
    {
        let t = &tasks[i];
        proof {
            let next = ts.subrange(0, i + 1);
            assert(next.drop_last() =~= ts.subrange(0, i as int));
            assert(next.last() == t@);
        }
        if t.touches(r) && t.priority > c {
            c = t.priority;
        }
        i = i + 1;
    }
    assert(ts.subrange(0, tasks@.len() as int) =~= ts);
    c
}

/// Whether the table binds one task per trigger and puts exactly the idle
/// loop at priority 0.
pub fn is_valid_table(tasks: &Vec<Task>) -> (b: bool)
    ensures
        b == valid_table(table_view(tasks@)),
{
    let ghost ts = table_view(tasks@);
    let mut i: usize = 0;
    while i < tasks.len()
        invariant
            i <= tasks@.len(),
            ts == table_view(tasks@),
            forall|a: int, b: int| 0 <= a < b < i ==> #[trigger] ts[a].trigger != #[trigger] ts[b].trigger,
            forall|a: int| 0 <= a < i ==> (#[trigger] ts[a].trigger == Trigger::Idle <==> ts[a].priority == 0),
        decreases tasks@.len() - i,
    {
        if (tasks[i].trigger == Trigger::Idle) != (tasks[i].priority == 0) {
            assert(ts[i as int] == tasks@[i as int]@);
            return false;
        }
        let mut j: usize = 0;
        while j < i
            invariant
                j <= i < tasks@.len(),
                ts == table_view(tasks@),
                forall|a: int| 0 <= a < j ==> ts[a].trigger != ts[i as int].trigger,
            decreases i - j,
        {
            if tasks[j].trigger == tasks[i].trigger {
                assert(ts[j as int].trigger == ts[i as int].trigger);
                return false;
            }
            j = j + 1;
        }
        i = i + 1;
    }
    true
}

/// The firmware's task table: the serial receive interrupt, the USB
/// interrupt, the 10 ms timer tick, the ADC DMA completion and the idle loop.
pub fn firmware_tasks() -> (ts: Vec<Task>)
    ensures
        valid_table(table_view(ts@)),
        ts@.len() == 5,
{
    let ts = vec![
        Task {
            trigger: Trigger::Usart1,
            priority: 1,
            resources: vec![Resource::LedRx, Resource::Serial],
        },
        Task {
            trigger: Trigger::OtgFs,
            priority: 1,
            resources: vec![
                Resource::UsbDevice,
                Resource::Control,
                Resource::Serial,
                Resource::Dfu,
                Resource::Storage,
                Resource::CtlPins,
                Resource::PowerMeter,
                Resource::Config,
            ],
        },
        Task {
            trigger: Trigger::Tim2,
            priority: 1,
            resources: vec![
                Resource::Timer,
                Resource::Dfu,
                Resource::LedRx,
                Resource::LedTx,
                Resource::LedCmd,
                Resource::AdcTransfer,
            ],
        },
        Task {
            trigger: Trigger::Dma2Stream0,
            priority: 1,
            resources: vec![Resource::AdcTransfer, Resource::PowerMeter],
        },
        Task { trigger: Trigger::Idle, priority: 0, resources: vec![Resource::LedTx] },
    ];
    proof {
        let v = table_view(ts@);
        assert(v[0].trigger == Trigger::Usart1);
        assert(v[1].trigger == Trigger::OtgFs);
        assert(v[2].trigger == Trigger::Tim2);
        assert(v[3].trigger == Trigger::Dma2Stream0);
        assert(v[4].trigger == Trigger::Idle);
    }
    ts
}

/// The task table, its precomputed ceilings, and the running system priority
/// with the priorities saved by each open task invocation or lock.
pub struct Kernel {
    tasks: Vec<Task>,
    ceilings: Vec<u8>,
    current: u8,
    saved: Vec<u8>,
}

impl Kernel {
    pub closed spec fn table(&self) -> Seq<TaskView> {
        table_view(self.tasks@)
    }

    /// The priority below which no task may start.
    pub closed spec fn system_priority(&self) -> u8 {
        self.current
    }

    /// Priorities to restore, innermost last.
    pub closed spec fn saved(&self) -> Seq<u8> {
        self.saved@
    }

    pub closed spec fn wf(&self) -> bool {
        &&& valid_table(table_view(self.tasks@))
        &&& self.ceilings@.len() == RESOURCE_COUNT
        &&& forall|r: Resource| #[trigger] self.ceilings@[resource_index(r) as int] == ceiling(
            table_view(self.tasks@),
            r,
        )
    }

    /// Builds the kernel from a task table, computing every resource's ceiling;
    /// `None` when the table is not valid. The system starts at priority 0.
    pub fn new(tasks: Vec<Task>) -> (k: Option<Kernel>)
        ensures
            k is Some <==> valid_table(table_view(tasks@)),
            k matches Some(k) ==> {
                &&& k.wf()
                &&& k.table() == table_view(tasks@)
                &&& k.system_priority() == 0
                &&& k.saved() == Seq::<u8>::empty()
            },
    {
        if !is_valid_table(&tasks) {
            return None;
        }
        let mut ceilings: Vec<u8> = Vec::new();
        let mut i: usize = 0;
        while i < RESOURCE_COUNT
            invariant
                i <= RESOURCE_COUNT,
                ceilings@.len() == i,
                forall|r: Resource|
                    resource_index(r) < i ==> #[trigger] ceilings@[resource_index(r) as int]
                        == ceiling(table_view(tasks@), r),
            decreases RESOURCE_COUNT - i,
        {
            let r = Resource::from_index(i);
            let c = ceiling_of(&tasks, r);
            ceilings.push(c);
            proof {
                assert forall|q: Resource| resource_index(q) < i + 1 implies #[trigger] ceilings@[resource_index(q) as int]
                    == ceiling(table_view(tasks@), q) by {
                    if resource_index(q) == i {
                        assert(q == r);
                    }
                }
            }
            i = i + 1;
        }
        proof {
            assert forall|r: Resource| #[trigger] ceilings@[resource_index(r) as int] == ceiling(
                table_view(tasks@),
                r,
            ) by {
                assert(resource_index(r) < RESOURCE_COUNT);
            }
        }
        Some(Kernel { tasks, ceilings, current: 0, saved: Vec::new() })
    }

    /// The precomputed ceiling of `r`.
    pub fn ceiling(&self, r: Resource) -> (c: u8)
        requires
            self.wf(),
        ensures
            c == ceiling(self.table(), r),
    {
        self.ceilings[r.index()]
    }

    /// The current system priority.
    pub fn priority(&self) -> (p: u8)
        ensures
            p == self.system_priority(),
    {
        self.current
    }

    /// Number of tasks in the table.
    pub fn task_count(&self) -> (n: usize)
        ensures
            n == self.table().len(),
    {
        self.tasks.len()
    }

    /// Whether task `t`'s trigger would preempt what is running now: only a
    /// strictly higher priority than the system priority does.
    pub fn may_preempt(&self, t: usize) -> (b: bool)
        requires
            t < self.table().len(),
        ensures
            b == (self.table()[t as int].priority > self.system_priority()),
    {
        self.tasks[t].priority > self.current
    }

    /// Starts an invocation of task `t`, which must be allowed to preempt.
    pub fn dispatch(&mut self, t: usize)
        requires
            old(self).wf(),
            t < old(self).table().len(),
            old(self).table()[t as int].priority > old(self).system_priority(),
        ensures
            final(self).wf(),
            final(self).table() == old(self).table(),
            final(self).system_priority() == old(self).table()[t as int].priority,
            final(self).saved() == old(self).saved().push(old(self).system_priority()),
    {
        let p = self.tasks[t].priority;
        self.saved.push(self.current);
        self.current = p;
    }

    /// Enters a critical section on `r`: the system priority rises to the
    /// resource's ceiling if it is lower. Never fails.
    pub fn lock(&mut self, r: Resource)
        requires
            old(self).wf(),
        ensures
            final(self).wf(),
            final(self).table() == old(self).table(),
            final(self).system_priority() == if old(self).system_priority() >= ceiling(
                old(self).table(),
                r,
            ) {
                old(self).system_priority()
            } else {
                ceiling(old(self).table(), r)
            },
            final(self).saved() == old(self).saved().push(old(self).system_priority()),
    {
        let c = self.ceiling(r);
        self.saved.push(self.current);
        if c > self.current {
            self.current = c;
        }
    }

    /// Ends the innermost critical section or task invocation, restoring the
    /// priority saved when it began.
    pub fn restore(&mut self)
        requires
            old(self).wf(),
            old(self).saved().len() > 0,
        ensures
            final(self).wf(),
            final(self).table() == old(self).table(),
            final(self).system_priority() == old(self).saved().last(),
            final(self).saved() == old(self).saved().drop_last(),
    {
        let p = self.saved.pop().unwrap();
        self.current = p;
    }
}

/// Mutual exclusion: while the system priority is at or above a resource's
/// ceiling, as it is from `lock` on, no task that touches the resource can
/// preempt.
pub proof fn lemma_lock_excludes(k: &Kernel, r: Resource, t: int)
    requires
        k.system_priority() >= ceiling(k.table(), r),
        0 <= t < k.table().len(),
        touches(k.table()[t], r),
    ensures
        !(k.table()[t].priority > k.system_priority()),
{
    lemma_ceiling_is_max(k.table(), r);
}

/// A running task cannot preempt itself.
pub proof fn lemma_no_self_preemption(k: &Kernel, t: int)
    requires
        0 <= t < k.table().len(),
        k.system_priority() >= k.table()[t].priority,
    ensures
        !(k.table()[t].priority > k.system_priority()),
{
}

/// At priority 0, with only the idle loop running, every interrupt-bound
/// task preempts.
pub proof fn lemma_idle_preemptible(k: &Kernel, t: int)
    requires
        k.wf(),
        k.system_priority() == 0,
        0 <= t < k.table().len(),
        k.table()[t].trigger != Trigger::Idle,
    ensures
        k.table()[t].priority > k.system_priority(),
{
}

} // verus!
