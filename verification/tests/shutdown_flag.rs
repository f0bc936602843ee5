use gpttools::lifecycle::{clear_shutdown_flag, request_shutdown, shutdown_requested, ShutdownFlag};

#[test]
fn shutdown_flag_can_toggle() {
    let mut flag = ShutdownFlag::new();
    assert_eq!(shutdown_requested(&flag), false);
    request_shutdown(&mut flag, "localhost:0");
    assert_eq!(shutdown_requested(&flag), true);
    assert_eq!(flag.wake_addr.as_deref(), Some("localhost:0"));
    clear_shutdown_flag(&mut flag);
    assert_eq!(shutdown_requested(&flag), false);
    assert_eq!(flag.wake_addr, None);
}
