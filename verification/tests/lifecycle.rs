//! Lifecycle scenarios: the event stream one container produces, ids across
//! instances, and the behavior of the consuming conversions.

use smallvectune::{channel, handle, with_log, IdAllocator, SmallVec};

/// Drains every message currently in the channel (after the senders are gone)
/// and renders each as its output line.
fn drain_lines(r: &smallvectune::EventReceiver) -> Vec<Vec<u8>> {
    let mut lines = Vec::new();
    while let Some(m) = r.recv() {
        match handle(&m) {
            Some(line) => lines.push(line),
            None => break,
        }
    }
    lines
}

#[test]
fn scenario_inline_two_growth() {
    let (s, r) = channel(128);
    let mut log = with_log(s);
    let mut v: SmallVec<u8, 2> = SmallVec::new(&mut log);
    v.push(10);
    v.push(20);
    v.push(30);
    let (plain, _) = v.into_vec();
    assert_eq!(plain, vec![10, 20, 30]);
    log.quit();
    drop(log);
    let lines = drain_lines(&r);
    assert_eq!(lines.len(), 3);
    assert_eq!(lines[0], b"0;1;2;+;;2\n".to_vec());
    assert_eq!(lines[1], b"0;1;2; ;2;4\n".to_vec());
    assert_eq!(lines[2], b"0;1;2;-;4;\n".to_vec());
}

#[test]
fn no_event_for_noop_mutations() {
    let (s, r) = channel(128);
    let mut log = with_log(s);
    let mut v: SmallVec<u32, 4> = SmallVec::new(&mut log);
    v.push(1);
    v.push(2);
    let popped = v.pop();
    assert_eq!(popped, Some(2));
    v.truncate(0);
    v.clear();
    v.reserve(3);
    let (plain, _) = v.into_vec();
    assert_eq!(plain, Vec::<u32>::new());
    log.quit();
    drop(log);
    let lines = drain_lines(&r);
    assert_eq!(lines.len(), 2);
    assert_eq!(lines[0], b"0;4;4;+;;4\n".to_vec());
    assert_eq!(lines[1], b"0;4;4;-;4;\n".to_vec());
}

#[test]
fn shrink_emits_transition_back() {
    let (s, r) = channel(128);
    let mut log = with_log(s);
    let mut v: SmallVec<u8, 2> = SmallVec::with_capacity(8, &mut log);
    v.push(1);
    v.shrink_to_fit();
    let (plain, _) = v.into_vec();
    assert_eq!(plain, vec![1]);
    log.quit();
    drop(log);
    let lines = drain_lines(&r);
    assert_eq!(lines.len(), 3);
    assert_eq!(lines[0], b"0;1;2;+;;8\n".to_vec());
    assert_eq!(lines[1], b"0;1;2; ;8;2\n".to_vec());
    assert_eq!(lines[2], b"0;1;2;-;2;\n".to_vec());
}

#[test]
fn ids_distinct_across_instances() {
    let (s, r) = channel(128);
    let mut log = with_log(s);
    let a: SmallVec<u8, 2> = SmallVec::new(&mut log);
    let b: SmallVec<u8, 2> = SmallVec::new(&mut log);
    let c: SmallVec<u16, 4> = SmallVec::new(&mut log);
    let _ = a.into_vec();
    let _ = b.into_vec();
    let _ = c.into_vec();
    log.quit();
    drop(log);
    let lines = drain_lines(&r);
    let mut created_ids: Vec<Vec<u8>> = Vec::new();
    for line in &lines {
        let fields: Vec<&[u8]> = line.split(|&b| b == b';').collect();
        if fields[3] == b"+" {
            created_ids.push(fields[0].to_vec());
        }
    }
    assert_eq!(created_ids.len(), 3);
    assert_eq!(created_ids[0], b"0".to_vec());
    assert_eq!(created_ids[1], b"1".to_vec());
    assert_eq!(created_ids[2], b"2".to_vec());
}

#[test]
fn next_id_is_monotonic() {
    let mut ids = IdAllocator::new();
    let a = ids.next_id();
    let b = ids.next_id();
    let c = ids.next_id();
    assert_eq!((a, b, c), (0, 1, 2));
    assert!(a != b && b != c && a != c);
}

#[test]
fn round_trip_retires_identity_once() {
    let (s, r) = channel(128);
    let mut log = with_log(s);
    let mut v: SmallVec<u8, 4> = SmallVec::new(&mut log);
    v.push(7);
    v.push(8);
    let (plain, _) = v.into_vec();
    assert_eq!(plain, vec![7, 8]);
    // The plain vector is not instrumented: dropping it emits nothing.
    drop(plain);
    log.quit();
    drop(log);
    let lines = drain_lines(&r);
    let destroyed: Vec<&Vec<u8>> =
        lines.iter().filter(|l| l.split(|&b| b == b';').nth(3) == Some(b"-")).collect();
    assert_eq!(destroyed.len(), 1);
    assert_eq!(lines.len(), 2);
}

#[test]
fn into_inner_full_inline_succeeds() {
    let (s, r) = channel(128);
    let mut log = with_log(s);
    let mut v: SmallVec<u8, 2> = SmallVec::new(&mut log);
    v.push(4);
    v.push(5);
    match v.into_inner() {
        Ok((buf, _)) => assert_eq!(buf, [4, 5]),
        Err(_) => panic!("a full inline container must convert"),
    }
    log.quit();
    drop(log);
    let lines = drain_lines(&r);
    assert_eq!(lines.len(), 2);
    assert_eq!(lines[1], b"0;1;2;-;2;\n".to_vec());
}

#[test]
fn into_inner_partial_fails_and_lives_on() {
    let (s, r) = channel(128);
    let mut log = with_log(s);
    let mut v: SmallVec<u8, 2> = SmallVec::new(&mut log);
    v.push(4);
    let v = match v.into_inner() {
        Ok(_) => panic!("a partly filled container must not convert"),
        Err(v) => v,
    };
    // Still alive: nothing but the creation event was emitted; consume it now.
    let (plain, _) = v.into_vec();
    assert_eq!(plain, vec![4]);
    log.quit();
    drop(log);
    let lines = drain_lines(&r);
    assert_eq!(lines.len(), 2);
}

#[test]
fn drain_keeps_instance_alive() {
    let (s, r) = channel(128);
    let mut log = with_log(s);
    let mut v: SmallVec<u8, 4> = SmallVec::new(&mut log);
    v.push(1);
    v.push(2);
    let out = v.drain();
    assert_eq!(out, vec![1, 2]);
    assert_eq!(v.len(), 0);
    v.push(9);
    assert_eq!(v.as_slice(), &[9]);
    let _ = v.into_vec();
    log.quit();
    drop(log);
    let lines = drain_lines(&r);
    // Creation and one destruction; drain emitted nothing.
    assert_eq!(lines.len(), 2);
}

#[test]
fn duplicate_is_a_new_instance() {
    let (s, r) = channel(128);
    let mut log = with_log(s);
    let mut v: SmallVec<u8, 2> = SmallVec::new(&mut log);
    v.push(3);
    let w = v.duplicate(&mut log);
    assert_eq!(w.as_slice(), &[3]);
    let _ = v.into_vec();
    let _ = w.into_vec();
    log.quit();
    drop(log);
    let lines = drain_lines(&r);
    // Two creations under two different ids, two destructions.
    assert_eq!(lines.len(), 4);
    assert_eq!(lines[0], b"0;1;2;+;;2\n".to_vec());
    assert_eq!(lines[1], b"1;1;2;+;;2\n".to_vec());
}
