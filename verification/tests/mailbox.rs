use snake_matrix::mailbox::Mailbox;

#[test]
fn read_of_empty_mailbox_is_none() {
    let mut mb: Mailbox<u32> = Mailbox::new();
    assert_eq!(mb.try_read(), None);
    assert_eq!(mb.try_read(), None);
}

#[test]
fn write_then_read_yields_value_once() {
    let mut mb: Mailbox<u32> = Mailbox::new();
    mb.write(7);
    assert_eq!(mb.try_read(), Some(7));
    assert_eq!(mb.try_read(), None);
}

#[test]
fn latest_wins() {
    let mut mb: Mailbox<&str> = Mailbox::new();
    mb.write("a");
    mb.write("b");
    assert_eq!(mb.try_read(), Some("b"));
    assert_eq!(mb.try_read(), None);
}

#[test]
fn write_after_drain_delivers_again() {
    let mut mb: Mailbox<u8> = Mailbox::new();
    mb.write(1);
    assert_eq!(mb.try_read(), Some(1));
    mb.write(2);
    mb.write(3);
    mb.write(4);
    assert_eq!(mb.try_read(), Some(4));
    assert_eq!(mb.try_read(), None);
}
