use key_binder::liveness::ps_output_reports_pid;

#[test]
fn reports_matching_pid() {
    assert!(ps_output_reports_pid("  1234 pts/0    00:00:00 sleep\n", 1234));
    assert!(ps_output_reports_pid("1234", 1234));
}

#[test]
fn empty_output_reports_nothing() {
    assert!(!ps_output_reports_pid("", 1234));
    assert!(!ps_output_reports_pid("   \n", 1234));
}

#[test]
fn pid_zero_not_reported_by_empty_output() {
    assert!(!ps_output_reports_pid("", 0));
    assert!(!ps_output_reports_pid(" \t\n", 0));
}

#[test]
fn different_pid_not_reported() {
    assert!(!ps_output_reports_pid("  1234 pts/0    00:00:00 sleep\n", 123));
}

#[test]
fn prefix_match_not_accepted() {
    assert!(!ps_output_reports_pid("12345 pts/0 sleep\n", 1234));
    assert!(!ps_output_reports_pid("123 pts/0 sleep\n", 1234));
}

#[test]
fn non_numeric_first_column_not_accepted() {
    assert!(!ps_output_reports_pid("  PID TTY          TIME CMD\n", 1234));
}
