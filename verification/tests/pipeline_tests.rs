use pitch_shifter::control::{apply_command, parse_command, Command, PitchControl, Preset};
use pitch_shifter::frame::SharedFrame;
use pitch_shifter::playback::{playback_pass, render_block};

#[test]
fn new_frame_is_silence() {
    let frame = SharedFrame::new(8);
    assert_eq!(frame.len(), 8);
    assert_eq!(frame.read_frame(), vec![0; 8]);
}

#[test]
fn write_block_overwrites_head_only() {
    // Deliberate partial-update behavior: a block shorter than the frame
    // updates only its head, the stale tail persists until overwritten.
    let mut frame = SharedFrame::new(6);
    frame.write_block(&vec![1, 2, 3, 4, 5, 6]);
    frame.write_block(&vec![9, 8]);
    assert_eq!(frame.read_frame(), vec![9, 8, 3, 4, 5, 6]);
}

#[test]
fn write_block_discards_excess_input() {
    let mut frame = SharedFrame::new(3);
    frame.write_block(&vec![7, 8, 9, 10, 11]);
    assert_eq!(frame.len(), 3);
    assert_eq!(frame.read_frame(), vec![7, 8, 9]);
}

#[test]
fn reads_between_full_writes_never_mix_two_writes() {
    // Whole-buffer exchange: after each completed uniform write, a read sees
    // that write's value everywhere, never a mixture of two writes.  The
    // callbacks alternate here exactly as the capture and playback threads
    // interleave around the lock.
    let mut frame = SharedFrame::new(32);
    for round in 0..50 {
        let value: i32 = if round % 2 == 0 { 1111 } else { -2222 };
        frame.write_block(&vec![value; 32]);
        let seen = frame.read_frame();
        assert_eq!(seen.len(), 32);
        assert!(seen.iter().all(|s| *s == value));
    }
}

#[test]
fn render_block_pads_with_silence() {
    let out = render_block(&vec![4, 8], 10, 5);
    assert_eq!(out, vec![4, 8, 0, 0, 0]);
}

#[test]
fn render_block_truncates_to_device_length() {
    let out = render_block(&vec![4, 8], 10, 1);
    assert_eq!(out, vec![4]);
}

#[test]
fn control_starts_at_normal_factor() {
    let control = PitchControl::new();
    assert_eq!(control.factor_tenths(), 10);
}

#[test]
fn presets_set_exact_factors() {
    let mut control = PitchControl::new();
    control.set_preset(Preset::Low);
    assert_eq!(control.factor_tenths(), 7);
    control.set_preset(Preset::High);
    assert_eq!(control.factor_tenths(), 13);
    control.set_preset(Preset::Normal);
    assert_eq!(control.factor_tenths(), 10);
}

#[test]
fn any_preset_reachable_from_any_other() {
    let mut control = PitchControl::new();
    control.set_preset(Preset::High);
    control.set_preset(Preset::Low);
    assert_eq!(control.factor_tenths(), 7);
    control.set_preset(Preset::High);
    assert_eq!(control.factor_tenths(), 13);
}

#[test]
fn parse_command_maps_each_keystroke() {
    assert_eq!(parse_command(&b"1".to_vec()), Command::SetLow);
    assert_eq!(parse_command(&b"2".to_vec()), Command::SetHigh);
    assert_eq!(parse_command(&b"0".to_vec()), Command::SetNormal);
    assert_eq!(parse_command(&b"q".to_vec()), Command::Quit);
    assert_eq!(parse_command(&b"x".to_vec()), Command::Unknown);
    assert_eq!(parse_command(&b"10".to_vec()), Command::Unknown);
    assert_eq!(parse_command(&b"".to_vec()), Command::Unknown);
}

#[test]
fn apply_command_sets_presets_and_signals_quit() {
    let mut control = PitchControl::new();
    assert!(!apply_command(&mut control, Command::SetLow));
    assert_eq!(control.factor_tenths(), 7);
    assert!(!apply_command(&mut control, Command::SetHigh));
    assert_eq!(control.factor_tenths(), 13);
    assert!(!apply_command(&mut control, Command::SetNormal));
    assert_eq!(control.factor_tenths(), 10);
}

#[test]
fn unknown_command_leaves_factor_unchanged() {
    let mut control = PitchControl::new();
    apply_command(&mut control, Command::SetHigh);
    assert!(!apply_command(&mut control, Command::Unknown));
    assert_eq!(control.factor_tenths(), 13);
}

#[test]
fn quit_command_leaves_factor_unchanged() {
    let mut control = PitchControl::new();
    apply_command(&mut control, Command::SetLow);
    assert!(apply_command(&mut control, Command::Quit));
    assert_eq!(control.factor_tenths(), 7);
}

#[test]
fn next_playback_uses_freshly_set_preset() {
    // No staleness window: the pass right after each set renders with that
    // preset's factor, and the three presets render distinguishably.
    let mut frame = SharedFrame::new(2);
    frame.write_block(&vec![0, 2]);
    let mut control = PitchControl::new();

    control.set_preset(Preset::Normal);
    assert_eq!(playback_pass(&frame, &control, 2), vec![0, 2]);

    control.set_preset(Preset::Low);
    assert_eq!(playback_pass(&frame, &control, 2), vec![0, 1]);

    control.set_preset(Preset::High);
    // floor(20 / 13) = 1 resampled sample, then silence padding.
    assert_eq!(playback_pass(&frame, &control, 2), vec![0, 0]);
}

#[test]
fn playback_pass_reads_latest_frame_write() {
    // Last write wins: the same frame content is rendered again until the
    // next capture overwrites it, and the next pass sees the new write.
    let mut frame = SharedFrame::new(3);
    let control = PitchControl::new();
    frame.write_block(&vec![5, 6, 7]);
    assert_eq!(playback_pass(&frame, &control, 3), vec![5, 6, 7]);
    assert_eq!(playback_pass(&frame, &control, 3), vec![5, 6, 7]);
    frame.write_block(&vec![-1, -2, -3]);
    assert_eq!(playback_pass(&frame, &control, 3), vec![-1, -2, -3]);
}
