use rgb_core::test_rom::{test_verdict, TestVerdict};

#[test]
fn verdict_running_until_a_result_appears() {
    assert_eq!(test_verdict(b""), TestVerdict::Running);
    assert_eq!(test_verdict(b"cpu_instrs\n\n01:ok  02:ok  Pass"), TestVerdict::Running);
}

#[test]
fn verdict_passed() {
    assert_eq!(test_verdict(b"cpu_instrs\n\nPassed all tests\n"), TestVerdict::Passed);
    assert_eq!(test_verdict(b"Passed"), TestVerdict::Passed);
}

#[test]
fn verdict_failed() {
    assert_eq!(test_verdict(b"03:01\n\nFailed 1 tests.\n"), TestVerdict::Failed);
}

#[test]
fn verdict_passed_wins_over_failed() {
    assert_eq!(test_verdict(b"Failed ... Passed"), TestVerdict::Passed);
}

#[test]
fn verdict_is_case_sensitive() {
    assert_eq!(test_verdict(b"PASSED failed"), TestVerdict::Running);
}
