use ccl_view::message::{grid_message, Stamp};
use ccl_view::sampling::{
    bundle_from_samples, cell_from_sample, random_buffer_bundle, side_from_sample, DataBundle,
};

#[test]
fn side_from_sample_values() {
    assert_eq!(side_from_sample(0), 1);
    assert_eq!(side_from_sample(99), 100);
    assert_eq!(side_from_sample(100), 1);
    assert_eq!(side_from_sample(250), 51);
    assert_eq!(side_from_sample(u32::MAX), 96);
}

#[test]
fn cell_from_sample_keeps_sign() {
    assert_eq!(cell_from_sample(0), 0);
    assert_eq!(cell_from_sample(1), 1);
    assert_eq!(cell_from_sample(2), 0);
    assert_eq!(cell_from_sample(127), 1);
    assert_eq!(cell_from_sample(-1), -1);
    assert_eq!(cell_from_sample(-3), -1);
    assert_eq!(cell_from_sample(-4), 0);
    assert_eq!(cell_from_sample(-128), 0);
}

#[test]
fn cell_from_sample_matches_remainder() {
    for s in i8::MIN..=i8::MAX {
        assert_eq!(cell_from_sample(s), s % 2);
    }
}

#[test]
fn random_bundles_are_well_formed() {
    for _ in 0..20 {
        let b = random_buffer_bundle();
        assert!((1..=100).contains(&b.width));
        assert!((1..=100).contains(&b.height));
        assert_eq!(b.data.len(), (b.width * b.height) as usize);
        assert!(b.data.iter().all(|&c| c == -1 || c == 0 || c == 1));
    }
}

#[test]
fn grid_message_carries_the_grid() {
    let bundle = DataBundle { data: vec![1, -1, -1, 0], width: 4, height: 1 };
    let msg = grid_message(bundle);
    assert_eq!(msg.stamp, Stamp { secs: 23, nsecs: 400 });
    assert_eq!(msg.map_load_time, Stamp { secs: 23, nsecs: 400 });
    assert_eq!(msg.frame_id, "abc");
    assert_eq!(msg.width, 4);
    assert_eq!(msg.height, 1);
    assert_eq!(msg.data, vec![1, -1, -1, 0]);
}

#[test]
fn bundle_from_samples_height_first() {
    let cells: Vec<i8> = vec![-128, -127, -1, 0, 1, 127];
    let b = bundle_from_samples(0, 105, &cells);
    assert_eq!(b.height, 1);
    assert_eq!(b.width, 6);
    assert_eq!(b.data, vec![0, -1, -1, 0, 1, 1]);
}

#[test]
fn bundle_from_samples_two_rows() {
    let cells: Vec<i8> = vec![3, -4, 5, -5];
    let b = bundle_from_samples(201, 701, &cells);
    assert_eq!((b.height, b.width), (2, 2));
    assert_eq!(b.data, vec![1, 0, 1, -1]);
}
