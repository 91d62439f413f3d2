use ssh_agent_notify::peer::{describe_peer, describe_peer_quoted, push_decimal};

#[test]
fn peer_without_pid() {
    assert_eq!(describe_peer(1000, None, None), "Process <unknown> of user 1000");
}

#[test]
fn peer_without_executable() {
    assert_eq!(describe_peer(0, Some(4242), None), "Process 4242 (unknown) of user 0");
}

#[test]
fn peer_with_executable_is_quoted() {
    assert_eq!(
        describe_peer(1000, Some(31337), Some("/usr/bin/ssh".to_string())),
        "Process 31337 (\"/usr/bin/ssh\") of user 1000"
    );
    assert_eq!(
        describe_peer(5, Some(9), Some("a\"b\n".to_string())),
        "Process 9 (\"a\\\"b\\n\") of user 5"
    );
}

#[test]
fn peer_extreme_numbers() {
    assert_eq!(
        describe_peer(u32::MAX, Some(i32::MIN), None),
        "Process -2147483648 (unknown) of user 4294967295"
    );
    assert_eq!(describe_peer(0, Some(0), None), "Process 0 (unknown) of user 0");
}

#[test]
fn peer_from_quoted_text() {
    assert_eq!(
        describe_peer_quoted(12, Some(3), Some("\"x\"".to_string())),
        "Process 3 (\"x\") of user 12"
    );
}

#[test]
fn decimal_notation() {
    for (n, t) in [(0u64, "0"), (9, "9"), (10, "10"), (1234567890, "1234567890"), (u64::MAX, "18446744073709551615")] {
        let mut s = "n=".to_string();
        push_decimal(&mut s, n);
        assert_eq!(s, format!("n={t}"));
    }
}
