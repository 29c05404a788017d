use mputest::pipeline::SamplePipeline;
use mputest::pipeline::PIPELINE_CAPACITY;
use mputest::sample::SensorData;

fn stamped(ts: u32) -> SensorData {
    let mut d = SensorData::zero();
    d.timestamp_ms = ts;
    d
}

#[test]
fn dequeue_order_matches_enqueue_order() {
    let mut q = SamplePipeline::new(4);
    q.push(stamped(1));
    q.push(stamped(2));
    q.push(stamped(3));
    assert_eq!(q.len(), 3);
    assert_eq!(q.pop(), Some(stamped(1)));
    assert_eq!(q.pop(), Some(stamped(2)));
    assert_eq!(q.pop(), Some(stamped(3)));
    assert_eq!(q.pop(), None);
}

#[test]
fn full_queue_drops_exactly_the_oldest_entry() {
    let mut q = SamplePipeline::new(3);
    q.push(stamped(1));
    q.push(stamped(2));
    q.push(stamped(3));
    assert!(q.is_full());
    q.push(stamped(4));
    assert_eq!(q.len(), 3);
    assert_eq!(q.pop(), Some(stamped(2)));
    assert_eq!(q.pop(), Some(stamped(3)));
    assert_eq!(q.pop(), Some(stamped(4)));
    assert_eq!(q.pop(), None);
}

#[test]
fn queue_never_exceeds_its_capacity() {
    let mut q = SamplePipeline::new(5);
    let mut i: u32 = 0;
    while i < 23 {
        q.push(stamped(i));
        assert!(q.len() <= 5);
        i += 1;
    }
    assert_eq!(q.len(), 5);
    // the five most recent entries survive, in order
    assert_eq!(q.pop(), Some(stamped(18)));
    assert_eq!(q.pop(), Some(stamped(19)));
    assert_eq!(q.pop(), Some(stamped(20)));
    assert_eq!(q.pop(), Some(stamped(21)));
    assert_eq!(q.pop(), Some(stamped(22)));
}

#[test]
fn drain_takes_the_oldest_entries_first() {
    let mut q = SamplePipeline::new(8);
    for i in 0..6u32 {
        q.push(stamped(i));
    }
    let batch = q.drain(4);
    assert_eq!(batch.len(), 4);
    for (i, d) in batch.iter().enumerate() {
        assert_eq!(d.timestamp_ms, i as u32);
    }
    assert_eq!(q.len(), 2);
    assert_eq!(q.pop(), Some(stamped(4)));
    assert_eq!(q.pop(), Some(stamped(5)));
}

#[test]
fn drain_of_a_short_queue_takes_everything() {
    let mut q = SamplePipeline::new(8);
    q.push(stamped(7));
    q.push(stamped(8));
    let batch = q.drain(10);
    assert_eq!(batch.len(), 2);
    assert!(q.is_empty());
}

#[test]
fn sized_capacity_is_one_hundred() {
    let mut q = SamplePipeline::new(PIPELINE_CAPACITY);
    let mut i: u32 = 0;
    while i < 150 {
        q.push(stamped(i));
        i += 1;
    }
    assert_eq!(q.len(), 100);
    assert_eq!(q.pop(), Some(stamped(50)));
}
