use reaper_rs::task_queue::{Deadline, MainThreadTask, TaskQueue};

#[test]
fn asap_tasks_run_in_enqueue_order_at_next_drain() {
    let mut queue: TaskQueue<&'static str> = TaskQueue::new();
    queue.enqueue_asap("first");
    queue.enqueue_asap("second");
    queue.enqueue_asap("third");
    assert_eq!(queue.len(), 3);
    assert_eq!(queue.drain(0), vec!["first", "second", "third"]);
    assert_eq!(queue.len(), 0);
    assert_eq!(queue.drain(0), Vec::<&'static str>::new());
}

#[test]
fn delayed_task_waits_for_its_delay() {
    let mut queue: TaskQueue<u32> = TaskQueue::new();
    queue.enqueue_after(7, 1000, 500);
    assert_eq!(queue.drain(1000), Vec::<u32>::new());
    assert_eq!(queue.drain(1499), Vec::<u32>::new());
    assert_eq!(queue.len(), 1);
    assert_eq!(queue.drain(1500), vec![7]);
    assert_eq!(queue.len(), 0);
}

#[test]
fn delayed_task_does_not_run_when_the_clock_reads_less() {
    let mut queue: TaskQueue<u32> = TaskQueue::new();
    queue.enqueue_after(7, 1000, 0);
    assert_eq!(queue.drain(999), Vec::<u32>::new());
    assert_eq!(queue.drain(1000), vec![7]);
}

#[test]
fn delay_near_the_end_of_the_clock_does_not_overflow() {
    let mut queue: TaskQueue<u32> = TaskQueue::new();
    queue.enqueue_after(1, u64::MAX - 1, u64::MAX);
    assert_eq!(queue.drain(u64::MAX), Vec::<u32>::new());
    assert_eq!(queue.len(), 1);
    queue.enqueue_after(2, u64::MAX - 1, 1);
    assert_eq!(queue.drain(u64::MAX), vec![2]);
}

#[test]
fn drain_keeps_order_among_due_and_among_waiting_tasks() {
    let mut queue: TaskQueue<char> = TaskQueue::new();
    queue.enqueue_after('a', 0, 30);
    queue.enqueue_asap('b');
    queue.enqueue_after('c', 0, 10);
    queue.enqueue_after('d', 0, 20);
    queue.enqueue_asap('e');
    assert_eq!(queue.drain(10), vec!['b', 'c', 'e']);
    assert_eq!(queue.len(), 2);
    assert_eq!(queue.tasks[0].op, 'a');
    assert_eq!(queue.tasks[1].op, 'd');
    queue.enqueue_asap('f');
    assert_eq!(queue.drain(30), vec!['a', 'd', 'f']);
}

#[test]
fn deadline_has_passed_values() {
    let deadline = Deadline { enqueued_at: 10, delay: 5 };
    assert!(!deadline.has_passed(9));
    assert!(!deadline.has_passed(14));
    assert!(deadline.has_passed(15));
    assert!(deadline.has_passed(u64::MAX));
    let task = MainThreadTask { op: (), not_before: Some(deadline) };
    assert!(!task.is_due(14));
    assert!(task.is_due(15));
    assert!(MainThreadTask { op: (), not_before: None }.is_due(0));
}
