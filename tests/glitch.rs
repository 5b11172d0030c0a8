use glitchgui::{apply_glitches, glitch_bytes};

#[test]
fn no_draws_keep_bytes() {
    let original = vec![0xffu8, 0xd8, 0xff, 0xe0];
    assert_eq!(apply_glitches(&original, &vec![]), original);
}

#[test]
fn draw_sets_position_and_value() {
    let original = vec![1u8, 2, 3];
    assert_eq!(apply_glitches(&original, &vec![(1, 9)]), vec![1u8, 9, 3]);
}

#[test]
fn position_wraps_around_length() {
    let original = vec![1u8, 2, 3];
    assert_eq!(apply_glitches(&original, &vec![(4, 300)]), vec![1u8, 44, 3]);
}

#[test]
fn value_is_taken_modulo_256() {
    let original = vec![7u8];
    assert_eq!(apply_glitches(&original, &vec![(0, 256)]), vec![0u8]);
    assert_eq!(apply_glitches(&original, &vec![(u32::MAX, u32::MAX)]), vec![255u8]);
}

#[test]
fn later_draw_wins_at_same_position() {
    let original = vec![0u8, 0, 0, 0];
    let draws = vec![(2, 10), (6, 20), (3, 30)];
    assert_eq!(apply_glitches(&original, &draws), vec![0u8, 0, 20, 30]);
}

#[test]
fn empty_buffer_without_draws() {
    let original: Vec<u8> = vec![];
    assert_eq!(apply_glitches(&original, &vec![]), original);
    assert_eq!(glitch_bytes(&original, 0), original);
}

#[test]
fn zero_glitches_leave_image_unchanged() {
    let original: Vec<u8> = (0..=255u8).collect();
    assert_eq!(glitch_bytes(&original, 0), original);
}

#[test]
fn more_glitches_than_bytes_stay_in_bounds() {
    let original = vec![5u8, 6, 7];
    for _ in 0..20 {
        let out = glitch_bytes(&original, 1000);
        assert_eq!(out.len(), original.len());
    }
}

#[test]
fn glitches_change_at_most_their_count() {
    let original: Vec<u8> = (0..200u32).map(|i| (i % 256) as u8).collect();
    for n in [1u32, 2, 5, 17] {
        let out = glitch_bytes(&original, n);
        assert_eq!(out.len(), original.len());
        let changed = out.iter().zip(original.iter()).filter(|(a, b)| a != b).count();
        assert!(changed <= n as usize);
    }
}
