use axplat_aarch64_dyn::console::expand_newlines;
use axplat_aarch64_dyn::irq::{ControllerOp, ControllerView, CpuState, Trigger};
use axplat_aarch64_dyn::power::{Method, UnsupportedMethod};
use axplat_aarch64_dyn::time::{
    enable_irqs, epochoffset_nanos, nanos_to_ticks, oneshot_interval, ticks_to_nanos,
};

#[test]
fn method_names() {
    assert_eq!(Method::try_from("smc"), Ok(Method::Smc));
    assert_eq!(Method::try_from("hvc"), Ok(Method::Hvc));
    assert_eq!(Method::try_from("svc"), Err(UnsupportedMethod));
    assert_eq!(Method::try_from(""), Err(UnsupportedMethod));
    assert_eq!(Method::try_from("smcc"), Err(UnsupportedMethod));
}

#[test]
fn tick_conversions() {
    assert_eq!(ticks_to_nanos(62_500_000, 62_500_000), 1_000_000_000);
    assert_eq!(ticks_to_nanos(1, 24_000_000), 41);
    assert_eq!(nanos_to_ticks(1_000_000_000, 62_500_000), 62_500_000);
    assert_eq!(nanos_to_ticks(100, 24_000_000), 2);
    assert_eq!(epochoffset_nanos(), 0);
}

#[test]
fn oneshot_interval_counts_down_or_fires_now() {
    assert_eq!(oneshot_interval(100, 350), 250);
    assert_eq!(oneshot_interval(350, 350), 0);
    assert_eq!(oneshot_interval(400, 350), 0);
}

#[test]
fn timer_line_enabled_on_core() {
    let cpu = CpuState { id: 0, local_config: true };
    assert_eq!(
        enable_irqs(30, Trigger::LevelLow, cpu),
        vec![
            ControllerOp::Enable(ControllerView::PerCore, 30),
            ControllerOp::SetTrigger(ControllerView::PerCore, 30, Trigger::LevelLow),
        ]
    );
}

#[test]
fn newlines_become_crlf() {
    assert_eq!(expand_newlines(b"ab\ncd\n"), b"ab\r\ncd\r\n".to_vec());
    assert_eq!(expand_newlines(b""), Vec::<u8>::new());
    assert_eq!(expand_newlines(b"\r"), b"\r".to_vec());
}
