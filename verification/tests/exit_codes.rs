//! The harness exit signals.

use operating_system::QemuExitCode;

#[test]
fn exit_codes_are_distinguishable() {
    assert_eq!(QemuExitCode::Success.code(), 0x10);
    assert_eq!(QemuExitCode::Failed.code(), 0x11);
    assert_ne!(QemuExitCode::Success.code(), QemuExitCode::Failed.code());
}
