use vex_rt::{
    blocking_wait, merge_all, nul_terminated, select_next, Action, Broadcast, Competition, Context,
    Error, Event, GenericSleep, Loop, Mutex, Phase, Poll, Promise, PromiseData, SmartPort, Stage,
};

#[test]
fn event_notify_wakes_registered_waiters_once() {
    let mut e = Event::new();
    e.register(3);
    e.register(5);
    e.register(3);
    assert!(e.is_registered(3));
    assert!(!e.is_registered(4));
    assert_eq!(e.notify(), vec![3, 5]);
    assert_eq!(e.notify(), vec![3, 5]);
    assert!(e.take(3));
    assert!(!e.take(3));
    assert!(e.take(5));
    assert!(!e.take(9));
}

#[test]
fn event_notification_before_registration_is_not_seen() {
    let mut e = Event::new();
    assert!(e.notify().is_empty());
    e.register(1);
    assert!(!e.take(1));
}

#[test]
fn event_unregister_drops_waiter() {
    let mut e = Event::new();
    e.register(1);
    e.register(2);
    e.register(3);
    e.unregister(2);
    assert!(!e.is_registered(2));
    assert_eq!(e.notify(), vec![1, 3]);
    assert!(!e.take(2));
}

#[test]
fn sleep_combine_takes_earliest() {
    assert_eq!(
        GenericSleep::Timestamp(30).combine(GenericSleep::Timestamp(20)),
        GenericSleep::Timestamp(20)
    );
    assert_eq!(
        GenericSleep::Timestamp(30).combine(GenericSleep::NotifyTake(None)),
        GenericSleep::NotifyTake(Some(30))
    );
    assert_eq!(
        GenericSleep::NotifyTake(Some(50)).combine(GenericSleep::NotifyTake(Some(40))),
        GenericSleep::NotifyTake(Some(40))
    );
    assert_eq!(
        GenericSleep::NotifyTake(None).combine(GenericSleep::NotifyTake(None)),
        GenericSleep::NotifyTake(None)
    );
    assert_eq!(
        GenericSleep::Timestamp(5).combine(GenericSleep::Ready),
        GenericSleep::Ready
    );
}

#[test]
fn sleep_merge_and_block_time() {
    let all = vec![
        GenericSleep::NotifyTake(None),
        GenericSleep::Timestamp(120),
        GenericSleep::Timestamp(80),
    ];
    let merged = merge_all(&all);
    assert_eq!(merged, GenericSleep::NotifyTake(Some(80)));
    assert_eq!(merged.block_ms(50), Some(30));
    assert_eq!(merged.block_ms(90), Some(0));
    assert_eq!(GenericSleep::NotifyTake(None).block_ms(7), None);
    assert_eq!(GenericSleep::Ready.block_ms(7), Some(0));
    assert_eq!(merge_all(&vec![]), GenericSleep::NotifyTake(None));
    assert_eq!(GenericSleep::Timestamp(9).timeout(), Some(9));
}

/// Polls the candidates in order through `poll`, stopping at the first
/// ready one; returns its index, or the wait to block on.
fn run_select(n: usize, mut poll: impl FnMut(usize) -> Poll) -> Result<usize, GenericSleep> {
    let mut acc = None;
    for i in 0..n {
        match select_next(acc, i, poll(i)) {
            Ok(i) => return Ok(i),
            Err(g) => acc = Some(g),
        }
    }
    Err(blocking_wait(acc))
}

#[test]
fn select_first_declared_ready_wins() {
    let polls = vec![
        Poll::Pending(GenericSleep::Timestamp(10)),
        Poll::Ready,
        Poll::Ready,
    ];
    for _ in 0..3 {
        let mut polled = Vec::new();
        assert_eq!(
            run_select(3, |i| {
                polled.push(i);
                polls[i]
            }),
            Ok(1)
        );
        assert_eq!(polled, vec![0, 1]);
    }
    assert_eq!(run_select(2, |_| Poll::Ready), Ok(0));
}

#[test]
fn select_blocks_on_merged_wait() {
    let polls = vec![
        Poll::Pending(GenericSleep::Timestamp(100)),
        Poll::Pending(GenericSleep::NotifyTake(None)),
        Poll::Pending(GenericSleep::Timestamp(60)),
    ];
    assert_eq!(run_select(3, |i| polls[i]), Err(GenericSleep::NotifyTake(Some(60))));
    assert_eq!(
        run_select(1, |_| Poll::Pending(GenericSleep::Timestamp(5))),
        Err(GenericSleep::Timestamp(5))
    );
    assert_eq!(run_select(0, |_| Poll::Ready), Err(GenericSleep::NotifyTake(None)));
    assert_eq!(
        select_next(Some(GenericSleep::Timestamp(9)), 4, Poll::Pending(GenericSleep::Timestamp(3))),
        Err(GenericSleep::Timestamp(3))
    );
}

#[test]
fn loop_keeps_phase_after_late_cycle() {
    let mut l = Loop::new(100, 1000);
    assert_eq!(l.deadline(), Some(1100));
    assert!(!l.poll(1099));
    assert!(l.poll(1150));
    assert_eq!(l.deadline(), Some(1200));
    assert!(l.poll(1290));
    assert_eq!(l.deadline(), Some(1300));
    assert_eq!(l.sleep(), GenericSleep::Timestamp(1300));
}

#[test]
fn loop_overdue_fires_once_per_poll() {
    let mut l = Loop::new(10, 0);
    assert!(l.poll(55));
    assert_eq!(l.deadline(), Some(20));
    assert_eq!(l.select(55), Poll::Ready);
    assert_eq!(l.deadline(), Some(30));
    assert_eq!(l.select(25), Poll::Pending(GenericSleep::Timestamp(30)));
}

#[test]
fn loop_delay_advances_by_one_period() {
    let mut l = Loop::new(25, 400);
    assert_eq!(l.delay(), Some(425));
    assert_eq!(l.delay(), Some(450));
    let mut far = Loop::new(10, u64::MAX - 5);
    assert_eq!(far.delay(), None);
    assert_eq!(far.sleep(), GenericSleep::NotifyTake(None));
    assert!(!far.poll(u64::MAX));
}

#[test]
fn mutex_is_exclusive_and_hands_over_in_order() {
    let mut m = Mutex::new(7u32, 11);
    let g1 = m.lock(1).expect("free lock");
    assert!(m.poll(2).is_none());
    assert!(m.lock(2).is_none());
    assert!(m.lock(3).is_none());
    assert!(m.lock(2).is_none());
    assert_eq!(*m.get(&g1), 7);
    m.set(&g1, 8);
    assert_eq!(m.unlock(g1), Some(2));
    assert_eq!(m.owner(), Some(2));
    assert!(m.claim(3).is_none());
    let g2 = m.claim(2).expect("handed over");
    assert!(m.claim(2).is_none());
    assert_eq!(g2.task(), 2);
    assert_eq!(*m.get(&g2), 8);
    assert_eq!(m.unlock(g2), Some(3));
    let g3 = m.claim(3).expect("handed over");
    assert_eq!(m.unlock(g3), None);
    assert_eq!(m.owner(), None);
    assert!(m.poll(4).is_some());
    assert_eq!(m.native(), 11);
}

#[test]
fn mutex_allocation_failure() {
    assert_eq!(Mutex::try_new(1u8, 0).err(), Some(Error::ResourceExhausted));
    let m = Mutex::try_new(1u8, 3).expect("handle allocated");
    assert_eq!(m.native(), 3);
    let b = Broadcast::try_new(4u8, 6).ok().expect("handle allocated");
    assert_eq!(*b.value(), 4);
    assert_eq!(Error::ResourceExhausted.message(), "out of native resources");
    assert_eq!(Error::Timeout.message(), "wait timed out");
}

#[test]
fn promise_resolves_once() {
    let (mut p, resolve) = Promise::<i32>::new();
    assert!(p.result().is_none());
    assert_eq!(p.done(4), None);
    assert_eq!(p.resolve(resolve, 10), vec![4]);
    assert_eq!(p.done(4), Some(&10));
    assert_eq!(p.result(), Some(&10));
    assert_eq!(p.done(5), Some(&10));
}

#[test]
fn promise_data_accessors() {
    let d: PromiseData<u8> = PromiseData::Incomplete(Event::new());
    assert!(d.event().is_some());
    assert!(d.result().is_none());
    let c: PromiseData<u8> = PromiseData::Complete(3);
    assert!(c.event().is_none());
    assert_eq!(c.result(), Some(&3));
}

#[test]
fn broadcast_listener_sees_latest_only() {
    let mut b = Broadcast::new(0u32, 1);
    let mut l = b.listen();
    b.publish(1);
    b.publish(2);
    b.publish(3);
    assert_eq!(l.next_value(&b), Some(&3));
    assert_eq!(l.next_value(&b), None);
    assert_eq!(*b.value(), 3);
    assert_eq!(b.version(), 3);
}

#[test]
fn broadcast_equal_values_are_distinct_publishes() {
    let mut b = Broadcast::new(5u32, 1);
    let mut l = b.listen();
    assert_eq!(l.next_value(&b), Some(&5));
    b.publish(5);
    assert_eq!(l.next_value(&b), Some(&5));
    assert_eq!(l.next_value(&b), None);
}

#[test]
fn broadcast_select_registers_and_publish_wakes() {
    let mut b = Broadcast::new(0i64, 2);
    let mut l = b.listen();
    assert_eq!(l.select(&mut b, 9), Some(&0));
    assert_eq!(l.select(&mut b, 9), None);
    assert!(!b.notified(9));
    assert_eq!(b.publish(-4), vec![9]);
    assert!(b.notified(9));
    assert!(!b.notified(9));
    assert_eq!(l.select(&mut b, 9), Some(&-4));
    assert!(Broadcast::try_new(0u8, 0).is_err());
}

#[test]
fn context_cancel_wakes_waiters() {
    let mut ctx = Context::new();
    assert!(!ctx.done(6));
    assert_eq!(ctx.cancel(), vec![6]);
    assert!(ctx.done(6));
}

#[test]
fn competition_serializes_phase_tasks() {
    let mut c = Competition::new();
    assert_eq!(c.signal(Phase::OpControl), Action::Nothing);
    assert_eq!(c.signal(Phase::Initialize), Action::Start(Phase::Initialize));
    assert_eq!(c.signal(Phase::Initialize), Action::Nothing);
    assert_eq!(c.signal(Phase::OpControl), Action::Cancel(Phase::Initialize));
    assert_eq!(c.signal(Phase::Autonomous), Action::Nothing);
    assert_eq!(c.signal(Phase::Disabled), Action::Nothing);
    assert_eq!(c.stage(), Stage::Stopping(Phase::Initialize, Phase::OpControl));
    assert_eq!(c.exited(), Action::StartCancelled(Phase::OpControl));
    assert_eq!(c.stage(), Stage::Stopping(Phase::OpControl, Phase::Autonomous));
    assert_eq!(c.exited(), Action::StartCancelled(Phase::Autonomous));
    assert_eq!(c.stage(), Stage::Stopping(Phase::Autonomous, Phase::Disabled));
    assert_eq!(c.exited(), Action::Start(Phase::Disabled));
    assert_eq!(c.stage(), Stage::Running(Phase::Disabled));
    assert_eq!(c.exited(), Action::Nothing);
    assert_eq!(c.stage(), Stage::Idle);
    assert_eq!(c.signal(Phase::Autonomous), Action::Start(Phase::Autonomous));
}

#[test]
fn smart_port_range() {
    assert!(SmartPort::checked(0).is_none());
    assert!(SmartPort::checked(22).is_none());
    assert_eq!(SmartPort::checked(21).map(|p| p.port()), Some(21));
    assert_eq!(SmartPort::new(1).port(), 1);
}

#[test]
fn cstring_bytes_end_with_nul() {
    assert_eq!(nul_terminated("ab"), vec![b'a', b'b', 0]);
    assert_eq!(nul_terminated(""), vec![0]);
}

#[test]
fn mutex_try_lock_times_out_and_leaves_queue() {
    let mut m = Mutex::new(0u8, 5);
    let g = m.try_lock(1, false).expect("no failure").expect("free lock");
    assert!(m.try_lock(2, false).expect("queued").is_none());
    assert!(m.try_lock(3, false).expect("queued").is_none());
    assert_eq!(m.try_lock(2, true).err(), Some(Error::Timeout));
    assert_eq!(m.unlock(g), Some(3));
    assert_eq!(m.owner(), Some(3));
}

#[test]
fn pending_polls_wait_for_notification() {
    let (mut p, resolve) = Promise::<u8>::new();
    assert_eq!(p.poll_done(1), Poll::Pending(GenericSleep::NotifyTake(None)));
    assert_eq!(p.resolve(resolve, 9), vec![1]);
    assert_eq!(p.poll_done(1), Poll::Ready);

    let mut b = Broadcast::new(1u8, 2);
    let mut l = b.listen();
    assert_eq!(l.poll_select(&mut b, 3), Poll::Ready);
    assert_eq!(*b.value(), 1);
    assert_eq!(l.poll_select(&mut b, 3), Poll::Pending(GenericSleep::NotifyTake(None)));
    assert_eq!(b.publish(7), vec![3]);
    assert_eq!(l.poll_select(&mut b, 3), Poll::Ready);
    assert_eq!(*b.value(), 7);

    let mut ctx = Context::new();
    assert_eq!(ctx.poll_done(4), Poll::Pending(GenericSleep::NotifyTake(None)));
    assert_eq!(ctx.cancel(), vec![4]);
    assert_eq!(ctx.poll_done(4), Poll::Ready);
}

#[test]
fn select_ready_promise_before_unread_listener() {
    let (mut p, resolve) = Promise::<u8>::new();
    p.resolve(resolve, 5);
    let mut b = Broadcast::new(8u8, 1);
    let mut l = b.listen();
    assert!(l.is_ready(&b));
    let winner = run_select(2, |i| {
        if i == 0 {
            p.poll_done(1)
        } else {
            l.poll_select(&mut b, 1)
        }
    });
    assert_eq!(winner, Ok(0));
    assert!(l.is_ready(&b));
    assert_eq!(l.next_value(&b), Some(&8));
    assert!(!l.is_ready(&b));
}

#[test]
fn unregistered_tasks_are_not_woken() {
    let mut b = Broadcast::new(0u8, 1);
    let mut l = b.listen();
    assert_eq!(l.poll_select(&mut b, 1), Poll::Ready);
    assert_eq!(l.poll_select(&mut b, 1), Poll::Pending(GenericSleep::NotifyTake(None)));
    b.unregister(1);
    assert!(b.publish(2).is_empty());

    let (mut p, resolve) = Promise::<u8>::new();
    assert_eq!(p.done(2), None);
    assert_eq!(p.done(3), None);
    p.unregister(2);
    assert_eq!(p.resolve(resolve, 1), vec![3]);

    let mut ctx = Context::new();
    assert!(!ctx.done(5));
    ctx.unregister(5);
    assert!(ctx.cancel().is_empty());
}

#[test]
fn mutex_guard_handed_out_once() {
    let mut m = Mutex::new((), 1);
    let g = m.poll(1).expect("free lock");
    assert!(m.claim(1).is_none());
    assert!(m.lock(2).is_none());
    assert_eq!(m.unlock(g), Some(2));
    assert!(m.claim(2).is_some());
    assert!(m.claim(2).is_none());
}
