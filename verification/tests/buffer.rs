use eqviz::buffer::SampleBuffer;
use eqviz::spectrum::BUFFER_CAP;

/// The buffer never grows past its capacity, and after any run of pushes it
/// holds exactly the most recently pushed samples, oldest evicted first.
#[test]
fn pushes_keep_most_recent_up_to_capacity() {
    let mut buf = SampleBuffer::new(4);
    for v in 0u32..10 {
        buf.push(v);
        assert!(buf.len() <= 4);
    }
    let got = buf.latest(4).unwrap();
    assert_eq!(got, vec![6, 7, 8, 9]);
}

/// Scenario: 10000 samples into an empty buffer of capacity 8192.
#[test]
fn ten_thousand_pushes_fill_to_capacity() {
    let mut buf = SampleBuffer::new(BUFFER_CAP);
    assert_eq!(BUFFER_CAP, 8192);
    for v in 0u32..10000 {
        buf.push(v);
    }
    assert_eq!(buf.len(), 8192);
    let got = buf.latest(8192).unwrap();
    assert_eq!(got[0], 10000 - 8192);
    assert_eq!(got[8191], 9999);
}

/// Too few samples for a window: the read yields nothing rather than a
/// short window.
#[test]
fn short_buffer_yields_no_window() {
    let mut buf = SampleBuffer::new(16);
    for v in 0u32..5 {
        buf.push(v);
    }
    assert!(buf.latest(6).is_none());
    assert_eq!(buf.latest(5).unwrap(), vec![0, 1, 2, 3, 4]);
    assert_eq!(buf.latest(2).unwrap(), vec![3, 4]);
}

/// A seek clears the buffer: a read immediately afterwards sees no
/// pre-seek samples.
#[test]
fn clear_drops_all_pre_seek_samples() {
    let mut buf = SampleBuffer::new(8);
    for v in 100u32..108 {
        buf.push(v);
    }
    assert_eq!(buf.len(), 8);
    buf.clear();
    assert_eq!(buf.len(), 0);
    assert!(buf.latest(1).is_none());
    let empty = buf.latest(0).unwrap();
    assert!(empty.is_empty());
    // New samples arriving after the seek are the only ones readable.
    buf.push(7);
    assert_eq!(buf.latest(1).unwrap(), vec![7]);
}

/// The buffer carries sample bit patterns through unchanged.
#[test]
fn bit_patterns_round_trip() {
    let mut buf = SampleBuffer::new(4);
    let xs = [0.5f32, -0.25, 1.0e-7, -0.0];
    for &x in xs.iter() {
        buf.push(x.to_bits());
    }
    let got = buf.latest(4).unwrap();
    for (bits, &x) in got.iter().zip(xs.iter()) {
        assert_eq!(f32::from_bits(*bits), x);
    }
}
