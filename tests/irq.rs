use axplat_aarch64_dyn::irq::{
    cpu_id_from_mpidr, is_irq_private, set_enable, ControllerOp, ControllerView, CpuState,
    IrqTable, PerCpu, Trigger,
};

const LOCAL: CpuState = CpuState { id: 3, local_config: true };
const NO_LOCAL: CpuState = CpuState { id: 3, local_config: false };

#[test]
fn register_then_unregister_returns_handler() {
    let mut table: IrqTable<usize> = IrqTable::new();
    for irq in [0usize, 31, 32, 100, 1023] {
        let (ok, ops) = table.register(irq, irq + 7, NO_LOCAL);
        assert!(ok);
        assert_eq!(ops[0], ControllerOp::Enable(ControllerView::Global, irq));
        assert_eq!(table.handler(irq), Some(irq + 7));
        let (old, ops) = table.unregister(irq, NO_LOCAL);
        assert_eq!(old, Some(irq + 7));
        assert_eq!(ops, vec![ControllerOp::Disable(ControllerView::Global, irq)]);
        assert_eq!(table.handler(irq), None);
    }
}

fn first_handler() {}
fn second_handler() {}

#[test]
fn second_register_fails_and_keeps_first() {
    let mut table: IrqTable<fn()> = IrqTable::new();
    let (ok, _) = table.register(40, first_handler as fn(), LOCAL);
    assert!(ok);
    let (ok, ops) = table.register(40, second_handler as fn(), LOCAL);
    assert!(!ok);
    assert!(ops.is_empty());
    assert!(table.handler(40) == Some(first_handler as fn()));
}

#[test]
fn unregister_empty_slot_still_disables() {
    let mut table: IrqTable<usize> = IrqTable::new();
    let (old, ops) = table.unregister(5, LOCAL);
    assert_eq!(old, None);
    assert_eq!(ops, vec![ControllerOp::Disable(ControllerView::PerCore, 5)]);
}

#[test]
fn private_line_with_local_config_stays_on_core() {
    let ops = set_enable(27, true, Some(Trigger::LevelHigh), LOCAL);
    assert_eq!(
        ops,
        vec![
            ControllerOp::Enable(ControllerView::PerCore, 27),
            ControllerOp::SetTrigger(ControllerView::PerCore, 27, Trigger::LevelHigh),
        ]
    );
    let ops = set_enable(0, false, None, LOCAL);
    assert_eq!(ops, vec![ControllerOp::Disable(ControllerView::PerCore, 0)]);
}

#[test]
fn shared_line_goes_global_and_targets_caller() {
    let ops = set_enable(32, true, Some(Trigger::EdgeRising), LOCAL);
    assert_eq!(
        ops,
        vec![
            ControllerOp::Enable(ControllerView::Global, 32),
            ControllerOp::SetTarget(32, 3),
            ControllerOp::SetTrigger(ControllerView::Global, 32, Trigger::EdgeRising),
        ]
    );
    let ops = set_enable(100, false, Some(Trigger::EdgeRising), LOCAL);
    assert_eq!(ops, vec![ControllerOp::Disable(ControllerView::Global, 100)]);
}

#[test]
fn private_line_without_local_config_uses_global_without_target() {
    let ops = set_enable(30, true, None, NO_LOCAL);
    assert_eq!(ops, vec![ControllerOp::Enable(ControllerView::Global, 30)]);
}

#[test]
fn classification_boundary() {
    assert!(is_irq_private(0));
    assert!(is_irq_private(31));
    assert!(!is_irq_private(32));
    assert!(!is_irq_private(1023));
}

#[test]
fn unhandled_irq_is_still_completed() {
    let table: IrqTable<usize> = IrqTable::new();
    let d = table.handle(Some(77), true).unwrap();
    assert_eq!(d.irq, 77);
    assert_eq!(d.handler, None);
    assert_eq!(d.finish, vec![ControllerOp::Eoi(77), ControllerOp::Deactivate(77)]);
    let d = table.handle(Some(77), false).unwrap();
    assert_eq!(d.handler, None);
    assert_eq!(d.finish, vec![ControllerOp::Eoi(77)]);
}

#[test]
fn handled_irq_runs_handler_then_completes() {
    let mut table: IrqTable<usize> = IrqTable::new();
    table.register(45, 9, LOCAL);
    let d = table.handle(Some(45), true).unwrap();
    assert_eq!(d.handler, Some(9));
    assert_eq!(d.finish, vec![ControllerOp::Eoi(45), ControllerOp::Deactivate(45)]);
}

#[test]
fn nothing_pending_does_nothing() {
    let table: IrqTable<usize> = IrqTable::new();
    assert!(table.handle(None, true).is_none());
}

#[test]
fn pending_id_past_table_has_no_handler() {
    let table: IrqTable<usize> = IrqTable::new();
    let d = table.handle(Some(5000), false).unwrap();
    assert_eq!(d.handler, None);
    assert_eq!(d.finish, vec![ControllerOp::Eoi(5000)]);
}

#[test]
fn cpu_id_takes_low_affinity_bits() {
    assert_eq!(cpu_id_from_mpidr(0x8000_0000), 0);
    assert_eq!(cpu_id_from_mpidr(0x8100_0102), 0x102);
    assert_eq!(cpu_id_from_mpidr(0xff_ffff_ffff), 0xff_ffff);
}

#[test]
fn per_cpu_slots_are_written_once() {
    let mut slots: PerCpu<u32> = PerCpu::new(4);
    assert!(slots.get(1).is_none());
    assert!(slots.init_once(1, 11));
    assert!(!slots.init_once(1, 12));
    assert!(slots.init_once(2, 22));
    assert_eq!(slots.get(1), Some(&11));
    assert_eq!(slots.get(2), Some(&22));
    assert!(slots.get(0).is_none());
    assert!(slots.get(9).is_none());
}
