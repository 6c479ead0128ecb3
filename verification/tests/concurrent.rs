//! Concurrency behavior of the event conduit: back-pressure on a stalled
//! consumer, and per-instance ordering when producers interleave.

use std::sync::atomic::{AtomicBool, Ordering};
use std::sync::{Arc, Mutex};
use std::time::Duration;

use crossbeam_utils::thread;
use smallvectune::{channel, with_log, ArrayInfo, Message, SmallVec};

#[test]
fn send_blocks_when_queue_is_full() {
    let (s, r) = channel(1);
    let mut producer = s.fork();
    let done = Arc::new(AtomicBool::new(false));
    let done_in_thread = Arc::clone(&done);
    let info = ArrayInfo { id: 0, item_size: 1, array_size: 2 };
    thread::scope(|scope| {
        scope.spawn(|_| {
            producer.send(Message::New(info, 2));
            producer.send(Message::Drop(info, 2));
            done_in_thread.store(true, Ordering::SeqCst);
        });
        // With one slot and no consumption, the second send must still be
        // blocked.
        let timer = crossbeam_channel::after(Duration::from_millis(200));
        let _ = timer.recv();
        assert!(!done.load(Ordering::SeqCst));
        // Draining one message releases the producer; nothing was lost.
        let first = r.recv().expect("one message is queued");
        assert_eq!(first, Message::New(info, 2));
    })
    .expect("the producer finishes once space is free");
    assert!(done.load(Ordering::SeqCst));
    let second = r.recv().expect("the blocked message arrives");
    assert_eq!(second, Message::Drop(info, 2));
}

#[test]
fn concurrent_lifecycles_keep_per_instance_order() {
    let (s, r) = channel(128);
    let log = Arc::new(Mutex::new(with_log(s)));
    thread::scope(|scope| {
        for _ in 0..2 {
            let log = Arc::clone(&log);
            scope.spawn(move |_| {
                let v: SmallVec<u8, 2> = {
                    let mut guard = log.lock().unwrap();
                    SmallVec::new(&mut guard)
                };
                let _ = v.into_vec();
            });
        }
    })
    .expect("both lifecycles finish");
    {
        let mut guard = log.lock().unwrap();
        guard.quit();
    }
    drop(log);
    let mut seen_created: Vec<usize> = Vec::new();
    let mut seen_destroyed: Vec<usize> = Vec::new();
    while let Some(m) = r.recv() {
        match m {
            Message::New(info, _) => {
                assert!(!seen_created.contains(&info.id), "one creation per id");
                seen_created.push(info.id);
            }
            Message::Drop(info, _) => {
                assert!(
                    seen_created.contains(&info.id),
                    "an instance's creation precedes its destruction"
                );
                assert!(!seen_destroyed.contains(&info.id), "one destruction per id");
                seen_destroyed.push(info.id);
            }
            Message::Resize(..) => panic!("nothing resized here"),
            Message::Quit => break,
        }
    }
    seen_created.sort();
    seen_destroyed.sort();
    assert_eq!(seen_created, vec![0, 1]);
    assert_eq!(seen_destroyed, vec![0, 1]);
}
