use simple_ocl::policy::SyncPolicy;
use simple_ocl::recording::{BufferConfigError, RecordingBuffer};
use simple_ocl::sync::{retrieve_all, send_all, DeviceToFrom, Direction, TransferError};

fn buffer(words: Vec<u64>, dims: Vec<usize>, policy: SyncPolicy) -> RecordingBuffer {
    RecordingBuffer::create_from(words, dims, policy).unwrap()
}

fn both() -> SyncPolicy {
    SyncPolicy {
        push: true,
        pull: true,
    }
}

fn host_words(b: &RecordingBuffer) -> Vec<u64> {
    let mut out = Vec::new();
    let mut i = 0;
    while i < b.len() {
        out.push(b.host_elem(i));
        i += 1;
    }
    out
}

fn device_words(b: &RecordingBuffer) -> Vec<u64> {
    let mut out = Vec::new();
    let mut i = 0;
    while i < b.len() {
        out.push(b.device_elem(i));
        i += 1;
    }
    out
}

fn attempts(b: &RecordingBuffer) -> Vec<Direction> {
    let mut out = Vec::new();
    let mut i = 0;
    while i < b.attempt_count() {
        out.push(b.attempt_at(i));
        i += 1;
    }
    out
}

#[test]
fn create_rejects_redundant_policy() {
    let r = RecordingBuffer::create_from(
        vec![1, 2],
        vec![2],
        SyncPolicy {
            push: false,
            pull: false,
        },
    );
    assert!(matches!(r, Err(BufferConfigError::RedundantPolicy)));
}

#[test]
fn create_rejects_mismatched_dimensions() {
    let r = RecordingBuffer::create_from(vec![1, 2, 3], vec![2, 2], both());
    assert!(matches!(r, Err(BufferConfigError::ShapeMismatch)));
}

#[test]
fn create_zeroes_the_device_side() {
    let b = buffer(vec![5, 6, 7, 8], vec![2, 2], both());
    assert_eq!(device_words(&b), vec![0, 0, 0, 0]);
    assert_eq!(host_words(&b), vec![5, 6, 7, 8]);
    assert_eq!(b.attempt_count(), 0);
}

#[test]
fn round_trip_restores_int_contents_1d() {
    let values: Vec<i32> = vec![-3, 0, 7, i32::MAX, i32::MIN];
    let words: Vec<u64> = values.iter().map(|v| *v as u32 as u64).collect();
    let mut b = buffer(words.clone(), vec![5], both());
    let mut fields = vec![b];
    assert!(send_all(&mut fields).is_ok());
    assert!(retrieve_all(&mut fields).is_ok());
    b = fields.pop().unwrap();
    let back: Vec<i32> = host_words(&b).iter().map(|w| *w as u32 as i32).collect();
    assert_eq!(back, values);
}

#[test]
fn round_trip_restores_float_contents_2d() {
    let values: Vec<f32> = vec![0.0, -0.0, 1.5, f32::NAN, f32::INFINITY, 3.25e-7];
    let words: Vec<u64> = values.iter().map(|v| v.to_bits() as u64).collect();
    let mut fields = vec![buffer(words.clone(), vec![2, 3], both())];
    assert!(send_all(&mut fields).is_ok());
    assert!(retrieve_all(&mut fields).is_ok());
    let b = fields.pop().unwrap();
    let back: Vec<u64> = host_words(&b);
    // bit-for-bit, so even the NaN payload must survive
    assert_eq!(back, words);
}

#[test]
fn round_trip_restores_double_contents_3d() {
    let values: Vec<f64> = vec![
        0.0,
        -1.0,
        2.5,
        f64::NAN,
        f64::NEG_INFINITY,
        1.0e-300,
        -99.125,
        7.0,
    ];
    let words: Vec<u64> = values.iter().map(|v| v.to_bits()).collect();
    let mut fields = vec![buffer(words.clone(), vec![2, 2, 2], both())];
    assert!(send_all(&mut fields).is_ok());
    assert!(retrieve_all(&mut fields).is_ok());
    let back = host_words(&fields.pop().unwrap());
    assert_eq!(back, words);
}

#[test]
fn send_all_pushes_only_fields_that_opt_in() {
    let push_only = SyncPolicy {
        push: true,
        pull: false,
    };
    let pull_only = SyncPolicy {
        push: false,
        pull: true,
    };
    let mut fields = vec![
        buffer(vec![1], vec![1], push_only),
        buffer(vec![2], vec![1], both()),
        buffer(vec![3], vec![1], pull_only),
    ];
    assert!(send_all(&mut fields).is_ok());
    assert_eq!(attempts(&fields[0]), vec![Direction::Push]);
    assert_eq!(attempts(&fields[1]), vec![Direction::Push]);
    assert_eq!(attempts(&fields[2]), Vec::<Direction>::new());
    assert_eq!(device_words(&fields[0]), vec![1]);
    assert_eq!(device_words(&fields[1]), vec![2]);
    assert_eq!(device_words(&fields[2]), vec![0]);
}

#[test]
fn retrieve_all_pulls_only_fields_that_opt_in() {
    let push_only = SyncPolicy {
        push: true,
        pull: false,
    };
    let pull_only = SyncPolicy {
        push: false,
        pull: true,
    };
    let mut fields = vec![
        buffer(vec![1], vec![1], push_only),
        buffer(vec![2], vec![1], both()),
        buffer(vec![3], vec![1], pull_only),
    ];
    assert!(retrieve_all(&mut fields).is_ok());
    assert_eq!(attempts(&fields[0]), Vec::<Direction>::new());
    assert_eq!(attempts(&fields[1]), vec![Direction::Pull]);
    assert_eq!(attempts(&fields[2]), vec![Direction::Pull]);
    // pulled fields now mirror their zeroed device side
    assert_eq!(host_words(&fields[0]), vec![1]);
    assert_eq!(host_words(&fields[1]), vec![0]);
    assert_eq!(host_words(&fields[2]), vec![0]);
}

#[test]
fn send_fails_fast_at_the_faulted_field() {
    let mut second = buffer(vec![20], vec![1], both());
    second.arm_push_fault(TransferError::Device);
    let mut fields = vec![
        buffer(vec![10], vec![1], both()),
        second,
        buffer(vec![30], vec![1], both()),
    ];
    let r = send_all(&mut fields);
    assert_eq!(r, Err(TransferError::Device));
    // the field before the failure was transferred
    assert_eq!(attempts(&fields[0]), vec![Direction::Push]);
    assert_eq!(device_words(&fields[0]), vec![10]);
    // the failing field attempted its transfer
    assert_eq!(attempts(&fields[1]), vec![Direction::Push]);
    // the field after the failure was never attempted
    assert_eq!(attempts(&fields[2]), Vec::<Direction>::new());
    assert_eq!(device_words(&fields[2]), vec![0]);
}

#[test]
fn retrieve_fails_fast_at_the_faulted_field() {
    let mut first = buffer(vec![1, 2], vec![2], both());
    first.arm_pull_fault(TransferError::NotContiguous);
    let mut fields = vec![first, buffer(vec![3, 4], vec![2], both())];
    let r = retrieve_all(&mut fields);
    assert_eq!(r, Err(TransferError::NotContiguous));
    assert_eq!(attempts(&fields[0]), vec![Direction::Pull]);
    // the failing pull left the host side alone
    assert_eq!(host_words(&fields[0]), vec![1, 2]);
    assert_eq!(attempts(&fields[1]), Vec::<Direction>::new());
    assert_eq!(host_words(&fields[1]), vec![3, 4]);
}

#[test]
fn aggregate_trait_runs_the_same_bulk_operations() {
    let mut fields = vec![buffer(vec![4, 5], vec![2], both())];
    assert!(fields.send_pairedbuffs().is_ok());
    assert_eq!(device_words(&fields[0]), vec![4, 5]);
    fields[0].set_device_elem(0, 9);
    assert!(fields.retrieve_pairedbuffs().is_ok());
    assert_eq!(host_words(&fields[0]), vec![9, 5]);
}

#[test]
fn end_to_end_three_field_scenario() {
    // field a: int, push-only; field b: float, default policy;
    // field c: double, pull-only; each 5 x 5 = 25 elements
    let n = 25usize;
    let a_vals: Vec<i32> = (0..n as i32).collect();
    let b_vals: Vec<f32> = (0..n).map(|i| i as f32 * 0.25).collect();
    let a_words: Vec<u64> = a_vals.iter().map(|v| *v as u32 as u64).collect();
    let b_words: Vec<u64> = b_vals.iter().map(|v| v.to_bits() as u64).collect();
    let c_words: Vec<u64> = vec![0; n];
    let dims = vec![5usize, 5usize];
    let a = buffer(
        a_words.clone(),
        dims.clone(),
        SyncPolicy {
            push: true,
            pull: false,
        },
    );
    let b = buffer(b_words.clone(), dims.clone(), SyncPolicy::default());
    let c = buffer(
        c_words.clone(),
        dims.clone(),
        SyncPolicy {
            push: false,
            pull: true,
        },
    );
    let mut fields = vec![a, b, c];

    assert!(send_all(&mut fields).is_ok());
    // a and b's device buffers reflect host contents; c's is untouched
    assert_eq!(device_words(&fields[0]), a_words);
    assert_eq!(device_words(&fields[1]), b_words);
    assert_eq!(device_words(&fields[2]), c_words);

    // a kernel computes c = a + b and mutates b on the device side;
    // hypothetically it also scribbles over a's device buffer
    let d = 0.5f32;
    for i in 0..n {
        let av = fields[0].device_elem(i) as u32 as i32;
        let bv = f32::from_bits(fields[1].device_elem(i) as u32);
        let cv = av as f64 + bv as f64;
        fields[2].set_device_elem(i, cv.to_bits());
        fields[1].set_device_elem(i, (bv + d).to_bits() as u64);
        fields[0].set_device_elem(i, 0xdead);
    }

    assert!(retrieve_all(&mut fields).is_ok());
    // b and c's host arrays were updated
    for i in 0..n {
        let bv = f32::from_bits(fields[1].host_elem(i) as u32);
        assert_eq!(bv, b_vals[i] + d);
        let cv = f64::from_bits(fields[2].host_elem(i));
        assert_eq!(cv, a_vals[i] as f64 + b_vals[i] as f64);
    }
    // a's host array is unchanged even though its device side was modified
    assert_eq!(host_words(&fields[0]), a_words);
}
