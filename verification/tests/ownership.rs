use proc_primer::ownership::borrowed;
use proc_primer::ownership::owned;

#[test]
fn owning_parent_holds_what_it_was_given() {
    let bash = owned::Proc::new("bash", owned::State::Running, Vec::new());
    let rsyslogd = owned::Proc::new("rsyslogd", owned::State::Running, vec![bash]);
    let cron = owned::Proc::new("cron", owned::State::Sleeping, Vec::new());
    let init = owned::Proc::new("init", owned::State::Running, vec![cron, rsyslogd]);

    assert_eq!(init.name(), "init");
    assert_eq!(*init.state(), owned::State::Running);
    assert_eq!(init.children().len(), 2);

    let first = &init.children()[0];
    assert_eq!(first.name(), "cron");
    assert_eq!(*first.state(), owned::State::Sleeping);
    assert!(first.children().is_empty());

    let second = &init.children()[1];
    assert_eq!(second.name(), "rsyslogd");
    assert_eq!(*second.state(), owned::State::Running);
    assert_eq!(second.children().len(), 1);
    assert_eq!(second.children()[0].name(), "bash");
    assert!(second.children()[0].children().is_empty());
}

#[test]
fn owning_leaf_has_no_children() {
    let stopped = owned::Proc::new("sshd", owned::State::Stopped, vec![]);
    assert_eq!(stopped.name(), "sshd");
    assert_eq!(*stopped.state(), owned::State::Stopped);
    assert!(stopped.children().is_empty());
}

#[test]
fn borrowing_parent_refers_to_its_children() {
    let bash = borrowed::Proc::new("bash", borrowed::State::Running, Vec::new());
    let rsyslogd = borrowed::Proc::new("rsyslogd", borrowed::State::Running, vec![&bash]);
    let cron = borrowed::Proc::new("cron", borrowed::State::Running, vec![]);
    let init = borrowed::Proc::new("init", borrowed::State::Running, vec![&rsyslogd, &cron]);

    assert_eq!(init.name(), "init");
    assert_eq!(*init.state(), borrowed::State::Running);
    assert_eq!(init.children().len(), 2);
    assert!(std::ptr::eq(init.children()[0], &rsyslogd));
    assert!(std::ptr::eq(init.children()[1], &cron));
    assert_eq!(init.children()[0].name(), "rsyslogd");
    assert_eq!(init.children()[1].name(), "cron");
    assert!(std::ptr::eq(init.children()[0].children()[0], &bash));

    // The children are still owned by their own bindings.
    assert_eq!(bash.name(), "bash");
    assert!(bash.children().is_empty());
    assert_eq!(cron.name(), "cron");
}

#[test]
fn borrowing_leaf_keeps_its_state() {
    let sleeping = borrowed::Proc::new("cron", borrowed::State::Sleeping, Vec::new());
    assert_eq!(*sleeping.state(), borrowed::State::Sleeping);
    let stopped = borrowed::Proc::new("sshd", borrowed::State::Stopped, Vec::new());
    assert_eq!(*stopped.state(), borrowed::State::Stopped);
}

// A name is a fat pointer (16 bytes), the state takes a word with its padding
// (8 bytes) and the children are a vector header (24 bytes): 48 bytes on a
// 64-bit machine.
#[test]
fn test_size() {
    assert_eq!(core::mem::size_of::<owned::Proc>(), 48);
}
