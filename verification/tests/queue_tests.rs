use zen::commands::Commands;
use zen::queue::CommandQueue;

#[test]
fn queue_is_fifo() {
    let mut q = CommandQueue::new(8);
    assert!(q.enqueue(Commands::CursorMoveLeft).is_ok());
    assert!(q.enqueue(Commands::CursorMoveRight).is_ok());
    assert!(q.enqueue(Commands::DocumentInsert('x')).is_ok());
    assert_eq!(q.dequeue(), Some(Commands::CursorMoveLeft));
    assert_eq!(q.dequeue(), Some(Commands::CursorMoveRight));
    assert_eq!(q.dequeue(), Some(Commands::DocumentInsert('x')));
    assert_eq!(q.dequeue(), None);
}

#[test]
fn queue_reports_full_at_its_bound() {
    let mut q = CommandQueue::new(2);
    assert!(q.enqueue(Commands::CursorMoveUp).is_ok());
    assert!(q.enqueue(Commands::CursorMoveDown).is_ok());
    assert!(q.enqueue(Commands::CursorMoveLeft).is_err());
    assert_eq!(q.dequeue(), Some(Commands::CursorMoveUp));
    assert!(q.enqueue(Commands::CursorMoveLeft).is_ok());
    assert_eq!(q.dequeue(), Some(Commands::CursorMoveDown));
    assert_eq!(q.dequeue(), Some(Commands::CursorMoveLeft));
    assert_eq!(q.dequeue(), None);
}

#[test]
fn empty_queue_hands_nothing_back() {
    let mut q = CommandQueue::new(1);
    assert_eq!(q.dequeue(), None);
    assert!(q.enqueue(Commands::DocumentQuit).is_ok());
    assert_eq!(q.dequeue(), Some(Commands::DocumentQuit));
    assert_eq!(q.dequeue(), None);
}
