//! Interrupt routing: the handler table, the choice between the per-core and
//! the machine-wide controller view, and the acknowledge / end-of-interrupt
//! protocol.
use vstd::prelude::*;

verus! {

/// First shared (machine-wide) interrupt line; lines below it are private to a core.
pub const SPI_START: usize = 32;

/// The number of interrupt lines the handler table covers.
pub const MAX_IRQ_COUNT: usize = 1024;

/// How a line signals.
#[derive(Clone, Copy, Debug, PartialEq, Eq, Structural)]
pub enum Trigger {
    EdgeRising,
    EdgeFalling,
    EdgeBoth,
    LevelHigh,
    LevelLow,
}

/// The two register interfaces of the interrupt controller.
#[derive(Clone, Copy, Debug, PartialEq, Eq, Structural)]
pub enum ControllerView {
    /// The calling core's own interface.
    PerCore,
    /// The distributor shared by all cores, used under its lock.
    Global,
}

/// One operation on the interrupt controller, in the order it must be issued.
#[derive(Clone, Copy, Debug, PartialEq, Eq, Structural)]
pub enum ControllerOp {
    Enable(ControllerView, usize),
    Disable(ControllerView, usize),
    SetTrigger(ControllerView, usize, Trigger),
    /// Route a shared line to a core (line, logical core id).
    SetTarget(usize, usize),
    /// Signal end of interrupt on the per-core view.
    Eoi(usize),
    /// Deactivate the line on the per-core view (split completion mode).
    Deactivate(usize),
}

impl ControllerOp {
    /// The view that receives the operation.
    pub open spec fn receiver(self) -> ControllerView {
        match self {
            ControllerOp::Enable(v, _) => v,
            ControllerOp::Disable(v, _) => v,
            ControllerOp::SetTrigger(v, _, _) => v,
            ControllerOp::SetTarget(_, _) => ControllerView::Global,
            ControllerOp::Eoi(_) => ControllerView::PerCore,
            ControllerOp::Deactivate(_) => ControllerView::PerCore,
        }
    }
}

/// What the calling core knows of itself when it configures a line.
#[derive(Clone, Copy, Debug, PartialEq, Eq, Structural)]
pub struct CpuState {
    /// Logical id of the calling core.
    pub id: usize,
    /// Whether this core's controller view can configure its private lines itself.
    pub local_config: bool,
}

pub open spec fn private_line(irq: int) -> bool {
    irq < SPI_START
}

pub open spec fn trigger_ops(view: ControllerView, irq: usize, trigger: Option<Trigger>) -> Seq<ControllerOp> {
    match trigger {
        Some(t) => seq![ControllerOp::SetTrigger(view, irq, t)],
        None => seq![],
    }
}

/// The operations that enable or disable `irq` from core `cpu`.
pub open spec fn enable_ops(irq: usize, enabled: bool, trigger: Option<Trigger>, cpu: CpuState) -> Seq<
    ControllerOp,
> {
    if private_line(irq as int) && cpu.local_config {
        let first = if enabled {
            ControllerOp::Enable(ControllerView::PerCore, irq)
        } else {
            ControllerOp::Disable(ControllerView::PerCore, irq)
        };
        seq![first] + trigger_ops(ControllerView::PerCore, irq, trigger)
    } else if enabled {
        let target = if private_line(irq as int) {
            seq![]
        } else {
            seq![ControllerOp::SetTarget(irq, cpu.id)]
        };
        seq![ControllerOp::Enable(ControllerView::Global, irq)] + target + trigger_ops(ControllerView::Global, irq, trigger)
    } else {
        seq![ControllerOp::Disable(ControllerView::Global, irq)]
    }
}

/// Whether `irq` is a private (per-core) line.
pub fn is_irq_private(irq: usize) -> (r: bool)
    ensures
        r == private_line(irq as int),
{
    irq < SPI_START
}

/// The logical id of a core: the low 24 affinity bits of its MPIDR register.
pub fn cpu_id_from_mpidr(mpidr: u64) -> (r: usize)
    ensures
        r == mpidr & 0xff_ffff,
{
    let id = mpidr & 0xff_ffff;
    assert(id <= 0xff_ffff) by (bit_vector)
        requires
            id == mpidr & 0xff_ffff,
    ;
    id as usize
}

/// Plans enabling or disabling `irq` from the calling core.
///
/// A private line goes to the core's own view when that view can configure
/// it; everything else goes to the shared view, and enabling a shared line
/// also routes it to the calling core.
pub fn set_enable(irq: usize, enabled: bool, trigger: Option<Trigger>, cpu: CpuState) -> (r: Vec<
    ControllerOp,
>)
    ensures
        r@ == enable_ops(irq, enabled, trigger, cpu),
        private_line(irq as int) && cpu.local_config ==> forall|i: int|
            0 <= i < r@.len() ==> (#[trigger] r@[i]).receiver() == ControllerView::PerCore,
        !private_line(irq as int) ==> forall|i: int|
            0 <= i < r@.len() ==> (#[trigger] r@[i]).receiver() == ControllerView::Global,
        !private_line(irq as int) && enabled ==> r@.contains(ControllerOp::SetTarget(irq, cpu.id)),
{
    let mut ops: Vec<ControllerOp> = Vec::new();
    if is_irq_private(irq) && cpu.local_config {
        if enabled {
            ops.push(ControllerOp::Enable(ControllerView::PerCore, irq));
        } else {
            ops.push(ControllerOp::Disable(ControllerView::PerCore, irq));
        }
        if let Some(t) = trigger {
            ops.push(ControllerOp::SetTrigger(ControllerView::PerCore, irq, t));
        }
    } else if enabled {
        ops.push(ControllerOp::Enable(ControllerView::Global, irq));
        if !is_irq_private(irq) {
            ops.push(ControllerOp::SetTarget(irq, cpu.id));
        }
        if let Some(t) = trigger {
            ops.push(ControllerOp::SetTrigger(ControllerView::Global, irq, t));
        }
    } else {
        ops.push(ControllerOp::Disable(ControllerView::Global, irq));
    }
    assert(ops@ =~= enable_ops(irq, enabled, trigger, cpu));
    if !is_irq_private(irq) && enabled {
        assert(ops@[1] == ControllerOp::SetTarget(irq, cpu.id));
    }
    ops
}


/// One slot per core, each written once by its own core and read after.
pub struct PerCpu<T> {
    slots: Vec<Option<T>>,
}

impl<T> PerCpu<T> {
    pub closed spec fn view(&self) -> Seq<Option<T>> {
        self.slots@
    }

    /// `cpus` empty slots.
    pub fn new(cpus: usize) -> (r: Self)
        ensures
            r@.len() == cpus,
            forall|i: int| 0 <= i < cpus ==> (#[trigger] r@[i]).is_none(),
    {
        let mut slots: Vec<Option<T>> = Vec::new();
        let mut i: usize = 0;
        while i < cpus
            invariant
                i <= cpus,
                slots@.len() == i,
                forall|j: int| 0 <= j < i ==> (#[trigger] slots@[j]).is_none(),
            decreases cpus - i,
        {
            slots.push(None);
            i = i + 1;
        }
        PerCpu { slots }
    }

    /// Fills the slot of core `cpu` if it is still empty; a second call for
    /// the same core changes nothing and reports `false`.
    pub fn init_once(&mut self, cpu: usize, value: T) -> (r: bool)
        requires
            cpu < old(self)@.len(),
        ensures
            r == old(self)@[cpu as int].is_none(),
            r ==> final(self)@ == old(self)@.update(cpu as int, Some(value)),
            !r ==> final(self)@ == old(self)@,
    {
        if self.slots[cpu].is_some() {
            return false;
        }
        self.slots[cpu] = Some(value);
        true
    }

    /// The value core `cpu` stored, if it has.
    pub fn get(&self, cpu: usize) -> (r: Option<&T>)
        ensures
            cpu < self@.len() && self@[cpu as int].is_some() ==> r == Some(&self@[cpu as int].unwrap()),
            !(cpu < self@.len() && self@[cpu as int].is_some()) ==> r.is_none(),
    {
        if cpu < self.slots.len() {
            match &self.slots[cpu] {
                Some(v) => Some(v),
                None => None,
            }
        } else {
            None
        }
    }
}

/// The handlers installed for each line, one slot per line.
pub struct IrqTable<H> {
    slots: Vec<Option<H>>,
}

/// What the trap path does for one acknowledged interrupt: run the handler,
/// if one is installed, then issue the completion operations.
pub struct Dispatch<H> {
    pub irq: usize,
    pub handler: Option<H>,
    pub finish: Vec<ControllerOp>,
}

/// The slot that `handle` reads for a pending line; lines past the table have none.
pub open spec fn slot_of<H>(slots: Seq<Option<H>>, irq: usize) -> Option<H> {
    if irq < slots.len() {
        slots[irq as int]
    } else {
        None
    }
}

/// The completion operations for `irq`: end of interrupt, then a deactivate
/// when the controller runs in split completion mode.
pub open spec fn finish_ops(irq: usize, split_mode: bool) -> Seq<ControllerOp> {
    if split_mode {
        seq![ControllerOp::Eoi(irq), ControllerOp::Deactivate(irq)]
    } else {
        seq![ControllerOp::Eoi(irq)]
    }
}

/// The slots after registering `handler` for `irq`, and whether it was installed.
pub open spec fn register_spec<H>(slots: Seq<Option<H>>, irq: usize, handler: H) -> (Seq<Option<H>>, bool) {
    if slots[irq as int].is_none() {
        (slots.update(irq as int, Some(handler)), true)
    } else {
        (slots, false)
    }
}

/// The slots after unregistering `irq`, and the handler that was removed.
pub open spec fn unregister_spec<H>(slots: Seq<Option<H>>, irq: usize) -> (Seq<Option<H>>, Option<H>) {
    (slots.update(irq as int, None), slots[irq as int])
}

impl<H: Copy> IrqTable<H> {
    pub closed spec fn view(&self) -> Seq<Option<H>> {
        self.slots@
    }

    pub open spec fn wf(&self) -> bool {
        self@.len() == MAX_IRQ_COUNT
    }

    /// A table with every slot empty.
    pub fn new() -> (r: Self)
        ensures
            r.wf(),
            forall|i: int| 0 <= i < MAX_IRQ_COUNT ==> (#[trigger] r@[i]).is_none(),
    {
        let mut slots: Vec<Option<H>> = Vec::new();
        let mut i: usize = 0;
        while i < MAX_IRQ_COUNT
            invariant
                i <= MAX_IRQ_COUNT,
                slots@.len() == i,
                forall|j: int| 0 <= j < i ==> (#[trigger] slots@[j]).is_none(),
            decreases MAX_IRQ_COUNT - i,
        {
            slots.push(None);
            i = i + 1;
        }
        IrqTable { slots }
    }

    /// The handler installed for `irq`, if any.
    pub fn handler(&self, irq: usize) -> (r: Option<H>)
        requires
            self.wf(),
        ensures
            r == slot_of(self@, irq),
    {
        if irq < self.slots.len() {
            self.slots[irq]
        } else {
            None
        }
    }

    /// Installs `handler` for `irq` if its slot is empty, and then plans
    /// enabling the line. An occupied slot is left as it was and nothing is
    /// planned.
    pub fn register(&mut self, irq: usize, handler: H, cpu: CpuState) -> (r: (bool, Vec<ControllerOp>))
        requires
            old(self).wf(),
            irq < MAX_IRQ_COUNT,
        ensures
            final(self).wf(),
            (final(self)@, r.0) == register_spec(old(self)@, irq, handler),
            r.0 ==> r.1@ == enable_ops(irq, true, None, cpu),
            !r.0 ==> r.1@.len() == 0,
    {
        if self.slots[irq].is_some() {
            return (false, Vec::new());
        }
        self.slots[irq] = Some(handler);
        (true, set_enable(irq, true, None, cpu))
    }

    /// Plans disabling `irq`, then empties its slot and hands back what it held.
    pub fn unregister(&mut self, irq: usize, cpu: CpuState) -> (r: (Option<H>, Vec<ControllerOp>))
        requires
            old(self).wf(),
            irq < MAX_IRQ_COUNT,
        ensures
            final(self).wf(),
            (final(self)@, r.0) == unregister_spec(old(self)@, irq),
            r.1@ == enable_ops(irq, false, None, cpu),
    {
        let ops = set_enable(irq, false, None, cpu);
        let previous = self.slots[irq];
        self.slots[irq] = None;
        (previous, ops)
    }

    /// Decides what the trap path does with the line the per-core view
    /// acknowledged. With nothing pending nothing is done; otherwise the
    /// installed handler (if any) runs and the line is always completed.
    pub fn handle(&self, pending: Option<usize>, split_mode: bool) -> (r: Option<Dispatch<H>>)
        requires
            self.wf(),
        ensures
            pending.is_none() ==> r.is_none(),
            pending.is_some() ==> r.is_some() && r.unwrap().irq == pending.unwrap()
                && r.unwrap().handler == slot_of(self@, pending.unwrap())
                && r.unwrap().finish@ == finish_ops(pending.unwrap(), split_mode),
    {
        match pending {
            None => None,
            Some(irq) => {
                let handler = self.handler(irq);
                let mut finish: Vec<ControllerOp> = Vec::new();
                finish.push(ControllerOp::Eoi(irq));
                if split_mode {
                    finish.push(ControllerOp::Deactivate(irq));
                }
                assert(finish@ =~= finish_ops(irq, split_mode));
                Some(Dispatch { irq, handler, finish })
            },
        }
    }
}

/// Registering a handler on an empty line and then unregistering that line
/// hands the same handler back and leaves the table as it was, the line's
/// slot empty.
pub proof fn lemma_register_then_unregister<H>(slots: Seq<Option<H>>, irq: usize, handler: H)
    requires
        slots.len() == MAX_IRQ_COUNT,
        irq < MAX_IRQ_COUNT,
        slots[irq as int].is_none(),
    ensures
        register_spec(slots, irq, handler).1,
        unregister_spec(register_spec(slots, irq, handler).0, irq).1 == Some(handler),
        unregister_spec(register_spec(slots, irq, handler).0, irq).0[irq as int].is_none(),
        unregister_spec(register_spec(slots, irq, handler).0, irq).0 == slots,
{
    assert(unregister_spec(register_spec(slots, irq, handler).0, irq).0 =~= slots);
}

/// A second registration on a line that already holds a handler fails and
/// keeps the first handler.
pub proof fn lemma_register_twice<H>(slots: Seq<Option<H>>, irq: usize, first: H, second: H)
    requires
        slots.len() == MAX_IRQ_COUNT,
        irq < MAX_IRQ_COUNT,
        slots[irq as int].is_none(),
    ensures
        !register_spec(register_spec(slots, irq, first).0, irq, second).1,
        register_spec(register_spec(slots, irq, first).0, irq, second).0[irq as int] == Some(first),
{
}

/// Handling a pending line whose slot is empty runs no handler and still
/// completes the line exactly once: one end of interrupt, and one deactivate
/// in split mode.
pub proof fn lemma_unhandled_still_completed<H>(slots: Seq<Option<H>>, irq: usize, split_mode: bool)
    requires
        slot_of(slots, irq).is_none(),
    ensures
        finish_ops(irq, split_mode).filter(|op: ControllerOp| op == ControllerOp::Eoi(irq)).len() == 1,
        finish_ops(irq, split_mode).filter(|op: ControllerOp| op == ControllerOp::Deactivate(irq)).len()
            == (if split_mode { 1int } else { 0int }),
{
    reveal_with_fuel(Seq::filter, 3);
}

} // verus!
