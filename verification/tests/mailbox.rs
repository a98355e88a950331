use lianli_daemon::event::DaemonEvent;
use lianli_daemon::mailbox::{
    poll_tick, queue_startup_events, usb_tick, EventQueue, PollGate, SendError, Tick, TryRecvError,
    DEVICE_POLL_INTERVAL_SECS, USB_ENUM_INTERVAL_SECS,
};

#[test]
fn slow_startup_keeps_one_poll_ahead_of_ipc() {
    let mut gate = PollGate::new();
    let mut queue = EventQueue::new();
    queue_startup_events(&mut queue, &mut gate).unwrap();
    assert!(matches!(queue.try_recv(), Ok(DaemonEvent::USBCheck)));

    for _ in 0..3 {
        if gate.try_queue() {
            queue.send(DaemonEvent::DevicePoll).unwrap();
        }
    }
    assert!(matches!(queue.try_recv(), Ok(DaemonEvent::DevicePoll)));
    gate.dequeued();
    queue.send(DaemonEvent::IpcUpdate).unwrap();

    for _ in 0..3 {
        if gate.try_queue() {
            queue.send(DaemonEvent::DevicePoll).unwrap();
        }
    }
    assert!(matches!(queue.try_recv(), Ok(DaemonEvent::IpcUpdate)));
    assert!(matches!(queue.try_recv(), Ok(DaemonEvent::DevicePoll)));
    assert!(matches!(queue.try_recv(), Err(TryRecvError::Empty)));
}

#[test]
fn slow_polls_never_queue_more_than_one_event() {
    // The producer ticks every interval; each poll takes two intervals.
    let mut gate = PollGate::new();
    let mut queued = 0usize;
    let mut peak = 0usize;
    for tick in 0..100 {
        if gate.try_queue() {
            queued += 1;
        }
        peak = peak.max(queued);
        if tick % 2 == 1 && queued > 0 {
            queued -= 1;
            gate.dequeued();
        }
    }
    assert_eq!(peak, 1);
}

#[test]
fn gate_is_claimed_once_until_it_is_opened() {
    let mut gate = PollGate::new();
    assert!(gate.try_queue());
    assert!(!gate.try_queue());
    assert!(!gate.try_queue());
    gate.dequeued();
    assert!(gate.try_queue());
    assert!(!gate.try_queue());
}

#[test]
fn startup_queues_no_second_poll() {
    let mut gate = PollGate::new();
    let mut queue = EventQueue::new();
    assert!(gate.try_queue());
    queue_startup_events(&mut queue, &mut gate).unwrap();
    assert!(matches!(queue.try_recv(), Ok(DaemonEvent::USBCheck)));
    assert!(matches!(queue.try_recv(), Err(TryRecvError::Empty)));
    assert!(!gate.try_queue());
}

#[test]
fn closed_queue_hands_events_back() {
    let mut gate = PollGate::new();
    let mut queue = EventQueue::new();
    queue.send(DaemonEvent::FrameFinished).unwrap();
    queue.close();
    assert!(matches!(queue.try_recv(), Err(TryRecvError::Empty)));
    let refused = queue.send(DaemonEvent::RetryMedia);
    assert!(matches!(refused, Err(SendError(DaemonEvent::RetryMedia))));
    let refused = queue_startup_events(&mut queue, &mut gate);
    assert!(matches!(refused, Err(SendError(DaemonEvent::USBCheck))));
    // The poll gate was not touched.
    assert!(gate.try_queue());
}

#[test]
fn timers_stop_with_the_loop() {
    let mut gate = PollGate::new();
    let mut queue = EventQueue::new();
    assert_eq!(usb_tick(&mut queue), Tick::Continue);
    assert_eq!(poll_tick(&mut queue, &mut gate), Tick::Continue);
    // A poll is queued already, so this tick adds none.
    assert_eq!(poll_tick(&mut queue, &mut gate), Tick::Continue);
    assert!(matches!(queue.try_recv(), Ok(DaemonEvent::USBCheck)));
    assert!(matches!(queue.try_recv(), Ok(DaemonEvent::DevicePoll)));
    assert!(matches!(queue.try_recv(), Err(TryRecvError::Empty)));

    queue.close();
    assert_eq!(usb_tick(&mut queue), Tick::Stop);
    // The poll gate still holds the poll that was received and not started.
    assert_eq!(poll_tick(&mut queue, &mut gate), Tick::Continue);
    gate.dequeued();
    assert_eq!(poll_tick(&mut queue, &mut gate), Tick::Stop);
}

#[test]
fn slow_loop_never_finds_two_polls() {
    let mut gate = PollGate::new();
    let mut queue = EventQueue::new();
    queue_startup_events(&mut queue, &mut gate).unwrap();
    let mut received = Vec::new();
    for round in 0..20 {
        for _ in 0..3 {
            poll_tick(&mut queue, &mut gate);
        }
        if round % 5 == 0 {
            usb_tick(&mut queue);
        }
        let mut polls = 0;
        let mut held = Vec::new();
        while let Ok(event) = queue.try_recv() {
            if matches!(event, DaemonEvent::DevicePoll) {
                polls += 1;
            }
            held.push(event);
        }
        assert_eq!(polls, 1);
        gate.dequeued();
        received.push(held.len());
    }
    assert_eq!(received[0], 3);
    assert_eq!(received[1], 1);
    assert_eq!(received[5], 2);
}

#[test]
fn events_come_out_in_the_order_in_which_they_went_in() {
    let mut queue = EventQueue::new();
    for id in 0..5u8 {
        queue
            .send(DaemonEvent::RetryDesktopDisplay { bus: id, address: 0, product_id: 0 })
            .unwrap();
    }
    for id in 0..5u8 {
        let event = queue.try_recv().unwrap();
        assert_eq!(
            event,
            DaemonEvent::RetryDesktopDisplay { bus: id, address: 0, product_id: 0 }
        );
    }
}

#[test]
fn intervals_are_one_and_ten_seconds() {
    assert_eq!(DEVICE_POLL_INTERVAL_SECS, 1);
    assert_eq!(USB_ENUM_INTERVAL_SECS, 10);
}

#[test]
fn poll_under_a_permit_counts_as_a_poll() {
    // A loop that handles it opens the poll gate, and the next tick may queue a poll.
    let mut gate = PollGate::new();
    let mut queue = EventQueue::new();
    poll_tick(&mut queue, &mut gate);
    queue
        .send(DaemonEvent::Coordinated { event: Box::new(DaemonEvent::DevicePoll), permit: 3 })
        .unwrap();
    assert!(matches!(queue.try_recv(), Ok(DaemonEvent::DevicePoll)));
    gate.dequeued();
    assert_eq!(poll_tick(&mut queue, &mut gate), Tick::Continue);
    assert!(matches!(queue.try_recv(), Ok(DaemonEvent::Coordinated { permit: 3, .. })));
    gate.dequeued();
    poll_tick(&mut queue, &mut gate);
    assert!(matches!(queue.try_recv(), Ok(DaemonEvent::DevicePoll)));
    assert!(matches!(queue.try_recv(), Ok(DaemonEvent::DevicePoll)));
    assert!(matches!(queue.try_recv(), Err(TryRecvError::Empty)));
}
