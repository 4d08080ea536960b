use input_bridge::command::{Axis, Channel, Command};
use input_bridge::queue::{CommandQueue, TaggedCommand};

#[test]
fn dequeue_on_empty_queue_returns_none() {
    let mut q = CommandQueue::new();
    assert_eq!(q.len(), 0);
    assert_eq!(q.dequeue(), None);
}

#[test]
fn fifo_per_producer_order_is_kept() {
    let mut q = CommandQueue::new();
    let moves = vec![
        Command::MoveAxis(Axis::X, 1),
        Command::MoveAxis(Axis::X, 2),
        Command::MoveAxis(Axis::X, 3),
    ];
    let scrolls = vec![Command::Scroll(-5), Command::Scroll(7)];

    q.enqueue(TaggedCommand { source: Channel::MoveX, cmd: moves[0] });
    q.enqueue(TaggedCommand { source: Channel::Scroll, cmd: scrolls[0] });
    q.enqueue(TaggedCommand { source: Channel::MoveX, cmd: moves[1] });
    q.enqueue(TaggedCommand { source: Channel::MoveX, cmd: moves[2] });
    q.enqueue(TaggedCommand { source: Channel::Scroll, cmd: scrolls[1] });

    let mut seen_moves = Vec::new();
    let mut seen_scrolls = Vec::new();
    while let Some(t) = q.dequeue() {
        match t.source {
            Channel::MoveX => seen_moves.push(t.cmd),
            Channel::Scroll => seen_scrolls.push(t.cmd),
            other => panic!("unexpected source {:?}", other),
        }
    }
    assert_eq!(seen_moves, moves);
    assert_eq!(seen_scrolls, scrolls);
}

#[test]
fn two_producers_thousand_packets_each() {
    let mut q = CommandQueue::new();
    let mut expected_moves = Vec::new();
    let mut expected_scrolls = Vec::new();
    for i in 0..1000i32 {
        let dm = (i % 200 - 100) as i16;
        let ds = (i % 150 - 75) as i16;
        expected_moves.push(Command::MoveAxis(Axis::X, dm));
        expected_scrolls.push(Command::Scroll(ds));
        // One arbitrary interleaving of the two senders.
        if i % 3 == 0 {
            q.enqueue(TaggedCommand { source: Channel::MoveX, cmd: Command::MoveAxis(Axis::X, dm) });
            q.enqueue(TaggedCommand { source: Channel::Scroll, cmd: Command::Scroll(ds) });
        } else {
            q.enqueue(TaggedCommand { source: Channel::Scroll, cmd: Command::Scroll(ds) });
            q.enqueue(TaggedCommand { source: Channel::MoveX, cmd: Command::MoveAxis(Axis::X, dm) });
        }
    }
    assert_eq!(q.len(), 2000);

    let drained = q.drain();
    assert_eq!(q.len(), 0);
    assert_eq!(drained.len(), 2000);

    let moves: Vec<Command> = drained
        .iter()
        .filter(|t| t.source == Channel::MoveX)
        .map(|t| t.cmd)
        .collect();
    let scrolls: Vec<Command> = drained
        .iter()
        .filter(|t| t.source == Channel::Scroll)
        .map(|t| t.cmd)
        .collect();
    assert_eq!(moves, expected_moves);
    assert_eq!(scrolls, expected_scrolls);
    assert_eq!(moves.len() + scrolls.len(), 2000);
}

#[test]
fn drain_returns_everything_in_enqueue_order() {
    let mut q = CommandQueue::new();
    let all = vec![
        TaggedCommand { source: Channel::Button, cmd: Command::Press(input_bridge::command::ButtonId::Left) },
        TaggedCommand { source: Channel::MoveY, cmd: Command::MoveAxis(Axis::Y, -3) },
        TaggedCommand { source: Channel::Button, cmd: Command::Release(input_bridge::command::ButtonId::Left) },
    ];
    for t in &all {
        q.enqueue(*t);
    }
    assert_eq!(q.drain(), all);
}
