use ntfyr::dispatch::DispatchQueue;
use ntfyr::indicator::ShellAction;

#[test]
fn drains_in_post_order() {
    let mut q = DispatchQueue::new();
    assert_eq!(q.len(), 0);
    q.post(ShellAction::ToggleWindow);
    q.post(ShellAction::Quit);
    q.post(ShellAction::ToggleWindow);
    assert_eq!(q.len(), 3);
    assert_eq!(q.drain_next(), Some(ShellAction::ToggleWindow));
    assert_eq!(q.drain_next(), Some(ShellAction::Quit));
    assert_eq!(q.drain_next(), Some(ShellAction::ToggleWindow));
    assert_eq!(q.drain_next(), None);
    assert_eq!(q.len(), 0);
}

#[test]
fn empty_queue_yields_nothing() {
    let mut q = DispatchQueue::new();
    assert_eq!(q.drain_next(), None);
    assert_eq!(q.drain_next(), None);
}
