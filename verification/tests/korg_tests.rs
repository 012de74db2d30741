use nanokontrol2::korg::{Control, Korg, Message, NK2};

/// Field-by-field comparison of two snapshots.
fn same_state(a: &NK2, b: &NK2) -> bool {
    a.controls == b.controls
        && a.track_left == b.track_left
        && a.track_right == b.track_right
        && a.cycle == b.cycle
        && a.set == b.set
        && a.marker_left == b.marker_left
        && a.marker_right == b.marker_right
        && a.rewind == b.rewind
        && a.fast_forward == b.fast_forward
        && a.stop == b.stop
        && a.play == b.play
        && a.record == b.record
}

fn is_default(nk2: &NK2) -> bool {
    same_state(nk2, &NK2::default())
}

#[test]
fn decode_slider_range() {
    for data1 in 0u8..=7 {
        let m = Message::new(data1, 64, 0);
        assert_eq!(m.name, Korg::Slider);
        assert_eq!(m.group, data1);
        assert_eq!(m.value, 64);
    }
}

#[test]
fn decode_knob_range() {
    for data1 in 16u8..=23 {
        let m = Message::new(data1, 1, 0);
        assert_eq!(m.name, Korg::Knob);
        assert_eq!(m.group, data1 % 8);
    }
}

#[test]
fn decode_solo_range() {
    for data1 in 32u8..=39 {
        let m = Message::new(data1, 127, 0);
        assert_eq!(m.name, Korg::S);
        assert_eq!(m.group, data1 % 8);
    }
}

#[test]
fn decode_mute_range() {
    for data1 in 48u8..=55 {
        let m = Message::new(data1, 127, 0);
        assert_eq!(m.name, Korg::M);
        assert_eq!(m.group, data1 % 8);
    }
}

#[test]
fn decode_record_range() {
    for data1 in 64u8..=71 {
        let m = Message::new(data1, 127, 0);
        assert_eq!(m.name, Korg::R);
        assert_eq!(m.group, data1 % 8);
    }
}

#[test]
fn decode_transport_literals() {
    let table = [
        (41u8, Korg::Play),
        (42, Korg::Stop),
        (43, Korg::Rewind),
        (44, Korg::FastForward),
        (45, Korg::Record),
        (46, Korg::Cycle),
        (58, Korg::TrackLeft),
        (59, Korg::TrackRight),
        (60, Korg::SetMarker),
        (61, Korg::MarkerLeft),
        (62, Korg::MarkerRight),
    ];
    for (data1, kind) in table {
        let m = Message::new(data1, 127, 0);
        assert_eq!(m.name, kind);
        assert_eq!(m.group, 0);
    }
}

#[test]
fn decode_fallback_unmapped() {
    for data1 in [8u8, 15, 24, 31, 40, 47, 56, 57, 63, 72, 99, 127] {
        let m = Message::new(data1, 1, 0);
        assert_eq!(m.name, Korg::Cycle);
        assert_eq!(m.group, 0);
    }
}

#[test]
fn to_bool_derivation() {
    assert!(!Message::new(41, 0, 0).to_bool());
    for value in 1u8..=127 {
        assert!(Message::new(41, value, 0).to_bool());
    }
}

#[test]
fn default_state_is_all_zero() {
    let nk2 = NK2::default();
    for control in nk2.controls.iter() {
        assert_eq!(control.knob, 0);
        assert_eq!(control.slider, 0);
        assert!(!control.solo);
        assert!(!control.mute);
        assert!(!control.rec);
    }
    assert!(!nk2.track_left);
    assert!(!nk2.track_right);
    assert!(!nk2.cycle);
    assert!(!nk2.set);
    assert!(!nk2.marker_left);
    assert!(!nk2.marker_right);
    assert!(!nk2.rewind);
    assert!(!nk2.fast_forward);
    assert!(!nk2.stop);
    assert!(!nk2.play);
    assert!(!nk2.record);
    assert_eq!(Control::default(), nk2.controls[0]);
}

#[test]
fn update_is_idempotent() {
    let events = [
        Message::new(18, 77, 5),
        Message::new(3, 12, 6),
        Message::new(35, 127, 7),
        Message::new(41, 1, 8),
        Message::new(99, 9, 9),
    ];
    for event in events.iter() {
        let mut once = NK2::default();
        once.update(event);
        let mut twice = NK2::default();
        twice.update(event);
        twice.update(event);
        assert!(same_state(&once, &twice));
    }
}

#[test]
fn update_last_writer_wins() {
    let mut nk2 = NK2::default();
    nk2.update(&Message { name: Korg::Knob, group: 2, value: 10, timestamp: 0 });
    nk2.update(&Message { name: Korg::Knob, group: 2, value: 90, timestamp: 1 });
    assert_eq!(nk2.controls[2].knob, 90);
}

#[test]
fn update_isolation_knob() {
    let mut nk2 = NK2::default();
    nk2.update(&Message::new(21, 99, 0));
    assert_eq!(nk2.controls[5].knob, 99);
    for (index, control) in nk2.controls.iter().enumerate() {
        if index != 5 {
            assert_eq!(*control, Control::default());
        }
        assert_eq!(control.slider, 0);
        assert!(!control.solo && !control.mute && !control.rec);
    }
    assert!(!nk2.track_left && !nk2.track_right && !nk2.cycle && !nk2.set);
    assert!(!nk2.marker_left && !nk2.marker_right && !nk2.rewind);
    assert!(!nk2.fast_forward && !nk2.stop && !nk2.play && !nk2.record);
}

#[test]
fn update_isolation_transport() {
    let mut nk2 = NK2::default();
    nk2.update(&Message::new(42, 127, 0));
    assert!(nk2.stop);
    for control in nk2.controls.iter() {
        assert_eq!(*control, Control::default());
    }
    assert!(!nk2.track_left && !nk2.track_right && !nk2.cycle && !nk2.set);
    assert!(!nk2.marker_left && !nk2.marker_right && !nk2.rewind);
    assert!(!nk2.fast_forward && !nk2.play && !nk2.record);
}

#[test]
fn end_to_end_slider() {
    let message = Message::new(0, 64, 1000);
    assert_eq!(message.name, Korg::Slider);
    assert_eq!(message.group, 0);
    assert_eq!(message.value, 64);
    assert_eq!(message.timestamp, 1000);

    let mut nk2 = NK2::default();
    nk2.update(&message);
    assert_eq!(nk2.controls[0].slider, 64);

    let mut expected = NK2::default();
    expected.controls[0].slider = 64;
    assert!(same_state(&nk2, &expected));
}

#[test]
fn end_to_end_solo() {
    let message = Message::new(35, 127, 2000);
    assert_eq!(message.name, Korg::S);
    assert_eq!(message.group, 3);
    assert_eq!(message.value, 127);
    assert_eq!(message.timestamp, 2000);

    let mut nk2 = NK2::default();
    nk2.update(&message);
    assert!(nk2.controls[3].solo);

    let mut expected = NK2::default();
    expected.controls[3].solo = true;
    assert!(same_state(&nk2, &expected));
}

#[test]
fn update_releases_button() {
    let mut nk2 = NK2::default();
    nk2.update(&Message::new(66, 127, 0));
    assert!(nk2.controls[2].rec);
    nk2.update(&Message::new(66, 0, 1));
    assert!(!nk2.controls[2].rec);
    assert!(is_default(&nk2));
}
