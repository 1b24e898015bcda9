use enose_relay::hub::{normalize_command, publish_line};

#[test]
fn commands_are_trimmed() {
    assert_eq!(normalize_command("  START  "), Some("START".to_string()));
    assert_eq!(normalize_command("STOP\r"), Some("STOP".to_string()));
    assert_eq!(normalize_command("SET LEVEL 3"), Some("SET LEVEL 3".to_string()));
}

#[test]
fn empty_commands_are_discarded() {
    assert_eq!(normalize_command(""), None);
    assert_eq!(normalize_command("   "), None);
    assert_eq!(normalize_command("\t\r"), None);
}

#[test]
fn publishing_without_subscribers_does_not_error() {
    let (tx, rx) = tokio::sync::broadcast::channel::<String>(100);
    drop(rx);
    // The publisher simply carries on; nothing took the line.
    assert_eq!(publish_line(&tx, "record".to_string()), None);
    assert_eq!(publish_line(&tx, "again".to_string()), None);
}

#[test]
fn a_start_command_is_forwarded_verbatim() {
    assert_eq!(normalize_command("START\r"), Some("START".to_string()));
    assert_eq!(normalize_command("START"), Some("START".to_string()));
}

#[test]
fn a_lagged_subscriber_loses_oldest_but_never_blocks_the_publisher() {
    let (tx, mut rx) = tokio::sync::broadcast::channel::<String>(2);
    assert_eq!(publish_line(&tx, "a".to_string()), Some(1));
    assert_eq!(publish_line(&tx, "b".to_string()), Some(1));
    assert_eq!(publish_line(&tx, "c".to_string()), Some(1));
    // The retained history holds two values; the oldest was lost.
    assert!(rx.try_recv().is_err());
    assert_eq!(rx.try_recv().unwrap(), "b");
    assert_eq!(rx.try_recv().unwrap(), "c");
}

#[test]
fn a_subscriber_receives_what_is_published_after_it_joins() {
    let (tx, _keep) = tokio::sync::broadcast::channel::<String>(100);
    assert_eq!(publish_line(&tx, "early".to_string()), Some(1));
    let mut late = tx.subscribe();
    assert_eq!(publish_line(&tx, "late".to_string()), Some(2));
    // The late subscriber sees only what was published after it joined.
    assert_eq!(late.try_recv().unwrap(), "late");
    assert!(late.try_recv().is_err());
}
