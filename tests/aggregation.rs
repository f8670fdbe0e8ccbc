use muse_decoder::{
    classify_channel, ChannelKind, MotionVector, MuseModel, MusePacketType, MuseProcessedData,
    MuseState,
};

fn eeg_packet(counter: u8, fill: u8) -> Vec<u8> {
    let mut p = vec![0u8, counter];
    p.extend(std::iter::repeat(fill).take(18));
    p
}

fn assert_cleared(state: &MuseState) {
    for ch in 0..7 {
        assert_eq!(state.buffered_eeg_samples(ch), 0, "channel {}", ch);
        assert!(!state.is_channel_received(ch), "channel {}", ch);
    }
}

fn feed(state: &mut MuseState, channel: i32, data: &[u8]) -> Option<MuseProcessedData> {
    state.parse_packet(channel, data, 1_000)
}

#[test]
fn classification_depends_on_channel_count() {
    let s = MuseModel::MuseS;
    for ch in 0..5 {
        assert_eq!(classify_channel(ch, s), ChannelKind::Eeg(ch as usize));
    }
    assert_eq!(classify_channel(5, s), ChannelKind::Accelerometer);
    assert_eq!(classify_channel(6, s), ChannelKind::Gyroscope);
    assert_eq!(classify_channel(7, s), ChannelKind::Optical(0));
    assert_eq!(classify_channel(9, s), ChannelKind::Optical(2));
    assert_eq!(classify_channel(10, s), ChannelKind::Unrecognized);
    assert_eq!(classify_channel(-1, s), ChannelKind::Unrecognized);
    let athena = MuseModel::MuseSAthena;
    assert_eq!(classify_channel(5, athena), ChannelKind::Eeg(5));
    assert_eq!(classify_channel(6, athena), ChannelKind::Eeg(6));
    assert_eq!(classify_channel(4, MuseModel::Muse2), ChannelKind::Unrecognized);
}

#[test]
fn five_channel_frame_needs_channel_four() {
    let mut state = MuseState::new(MuseModel::MuseS);
    for ch in [3, 1, 0, 2] {
        assert!(feed(&mut state, ch, &eeg_packet(ch as u8, 0x80)).is_none());
    }
    for ch in [0, 1, 2, 3] {
        assert!(state.is_channel_received(ch));
        assert_eq!(state.buffered_eeg_samples(ch), 12);
    }
    let frame = feed(&mut state, 4, &eeg_packet(4, 0x80)).expect("frame on channel 4");
    assert_eq!(frame.eeg.len(), 5);
    for row in &frame.eeg {
        assert_eq!(row.len(), 12);
    }
    assert_eq!(frame.packet_types, vec![MusePacketType::Eeg]);
    assert_cleared(&state);
}

#[test]
fn repeated_channels_do_not_complete_a_frame() {
    let mut state = MuseState::new(MuseModel::MuseS);
    for ch in [0, 0, 1, 2, 1, 3, 3] {
        assert!(feed(&mut state, ch, &eeg_packet(0, 0x10)).is_none());
    }
    assert_eq!(state.buffered_eeg_samples(0), 24);
    assert_eq!(state.buffered_eeg_samples(3), 24);
    let frame = feed(&mut state, 4, &eeg_packet(0, 0x10)).unwrap();
    assert_eq!(frame.eeg[0].len(), 24);
    assert_eq!(frame.eeg[4].len(), 12);
}

#[test]
fn four_channel_frame_after_channels_zero_to_three() {
    for model in [MuseModel::Muse2, MuseModel::Muse2016, MuseModel::Unknown] {
        let mut state = MuseState::new(model);
        for ch in [2, 0, 3] {
            assert!(feed(&mut state, ch, &eeg_packet(0, 0x80)).is_none());
        }
        let frame = feed(&mut state, 1, &eeg_packet(0, 0x80)).expect("four channels suffice");
        assert_eq!(frame.eeg.len(), 4);
        assert_cleared(&state);
    }
}

#[test]
fn seven_channel_frame_uses_ids_five_and_six() {
    let mut state = MuseState::new(MuseModel::MuseSAthena);
    for ch in 0..6 {
        assert!(feed(&mut state, ch, &eeg_packet(0, 0x80)).is_none());
    }
    let frame = feed(&mut state, 6, &eeg_packet(0, 0x80)).unwrap();
    assert_eq!(frame.eeg.len(), 7);
    assert_eq!(frame.eeg[0][0], 0x808 - 0x2000);
}

#[test]
fn frame_rows_hold_decoded_samples() {
    let mut state = MuseState::new(MuseModel::Muse2);
    let mut frame = None;
    for ch in 0..4 {
        frame = feed(&mut state, ch, &eeg_packet(0, 0x80));
    }
    let frame = frame.unwrap();
    // 0x80 0x80 0x80 packs 0x808 and 0x080.
    let row: Vec<i32> = (0..12).map(|i| if i % 2 == 0 { 0x808 - 0x800 } else { 0x080 - 0x800 }).collect();
    for r in &frame.eeg {
        assert_eq!(r, &row);
    }
    assert_eq!(frame.timestamp_us, 1_000);
}

#[test]
fn next_round_reproduces_the_same_frame() {
    let mut state = MuseState::new(MuseModel::MuseS);
    let payloads: Vec<Vec<u8>> = (0..5u8).map(|i| eeg_packet(i, 0x11 * (i + 1))).collect();
    let mut frames = Vec::new();
    for _ in 0..2 {
        for (ch, p) in payloads.iter().enumerate() {
            if let Some(f) = feed(&mut state, ch as i32, p) {
                frames.push(f);
            }
        }
        assert_cleared(&state);
    }
    assert_eq!(frames.len(), 2);
    assert_eq!(frames[0].eeg, frames[1].eeg);
    assert_eq!(frames[0].accel, frames[1].accel);
}

#[test]
fn accelerometer_frame_is_immediate_and_latched() {
    let mut state = MuseState::new(MuseModel::MuseS);
    let mut data = vec![0u8; 20];
    data[14] = 0x00;
    data[15] = 0x10;
    data[16] = 0xFF;
    data[17] = 0xF0;
    data[19] = 0x01;
    let frame = feed(&mut state, 5, &data).expect("accelerometer frame");
    assert_eq!(frame.accel, MotionVector { x: 16, y: -16, z: 1 });
    assert_eq!(frame.gyro, MotionVector { x: 0, y: 0, z: 0 });
    assert_eq!(frame.packet_types, vec![MusePacketType::Accel]);
    assert!(frame.eeg.is_empty());
    assert_eq!(state.latest_accel(), MotionVector { x: 16, y: -16, z: 1 });

    let gyro = feed(&mut state, 6, &data).expect("gyroscope frame");
    assert_eq!(gyro.gyro, MotionVector { x: 16, y: -16, z: 1 });
    assert_eq!(gyro.accel, MotionVector { x: 0, y: 0, z: 0 });
    assert_eq!(gyro.packet_types, vec![MusePacketType::Gyro]);

    for ch in 0..4 {
        assert!(feed(&mut state, ch, &eeg_packet(0, 0)).is_none());
    }
    let eeg = feed(&mut state, 4, &eeg_packet(0, 0)).unwrap();
    assert_eq!(eeg.accel, MotionVector { x: 16, y: -16, z: 1 });
    assert_eq!(eeg.gyro, MotionVector { x: 16, y: -16, z: 1 });
}

#[test]
fn optical_frame_after_two_channels() {
    let mut state = MuseState::new(MuseModel::Muse2);
    let mut data = vec![0u8; 20];
    data[4] = 100;
    assert!(feed(&mut state, 7, &data).is_none());
    assert_eq!(state.buffered_ppg_samples(0), 6);
    let frame = feed(&mut state, 8, &data).expect("infrared and red present");
    assert_eq!(frame.ppg_ir, vec![100, 0, 0, 0, 0, 0]);
    assert_eq!(frame.ppg_red, vec![100, 0, 0, 0, 0, 0]);
    assert!(frame.ppg_nir.is_empty());
    assert_eq!(frame.spo2, None);
    assert!(!frame.fnirs_applicable);
    assert_eq!(frame.packet_types, vec![MusePacketType::Ppg]);
    for i in 0..3 {
        assert_eq!(state.buffered_ppg_samples(i), 0);
    }
    // A third optical channel does not exist on this variant.
    assert!(feed(&mut state, 9, &data).is_none());
    assert_eq!(state.buffered_ppg_samples(2), 0);
}

#[test]
fn optical_packets_ignored_without_sensor() {
    let mut state = MuseState::new(MuseModel::Muse2016);
    let data = vec![1u8; 20];
    assert!(feed(&mut state, 7, &data).is_none());
    assert!(feed(&mut state, 8, &data).is_none());
    assert_eq!(state.buffered_ppg_samples(0), 0);
}

#[test]
fn near_infrared_variant_scenario() {
    let mut state = MuseState::new(MuseModel::MuseSAthena);
    let mut data = vec![0u8; 20];
    data[2] = 0x00;
    data[3] = 0xC3;
    data[4] = 0x50;
    let mut frames = Vec::new();
    for ch in 7..10 {
        if let Some(f) = feed(&mut state, ch, &data) {
            frames.push(f);
        }
    }
    assert_eq!(frames.len(), 1);
    let f = &frames[0];
    assert_eq!(f.packet_types, vec![MusePacketType::Fnirs]);
    assert!(f.fnirs_applicable);
    assert_eq!(f.ppg_ir[0], 50_000);
    assert_eq!(f.ppg_red[0], 50_000);
    assert!(f.ppg_nir.is_empty());
    // A packet carries six readings, fewer than the estimate needs.
    assert_eq!(f.spo2, None);
    assert_eq!(state.buffered_ppg_samples(2), 6);
}

#[test]
fn malformed_and_unknown_packets_change_nothing() {
    let mut state = MuseState::new(MuseModel::MuseS);
    assert!(feed(&mut state, 0, &eeg_packet(9, 0x22)).is_none());
    for len in [0usize, 19, 21] {
        assert!(feed(&mut state, 1, &vec![0x33u8; len]).is_none());
        assert!(feed(&mut state, 5, &vec![0x33u8; len]).is_none());
    }
    assert!(feed(&mut state, 10, &eeg_packet(1, 0x44)).is_none());
    assert!(feed(&mut state, -3, &eeg_packet(1, 0x44)).is_none());
    assert!(state.is_channel_received(0));
    assert!(!state.is_channel_received(1));
    assert_eq!(state.buffered_eeg_samples(0), 12);
    assert_eq!(state.buffered_eeg_samples(1), 0);
    assert_eq!(state.latest_accel(), MotionVector { x: 0, y: 0, z: 0 });
    assert_eq!(state.package_count(), 9);
}

#[test]
fn sequence_counter_is_recorded() {
    let mut state = MuseState::new(MuseModel::MuseS);
    let mut p = eeg_packet(0, 0);
    p[0] = 0x12;
    p[1] = 0x34;
    feed(&mut state, 2, &p);
    assert_eq!(state.package_count(), 0x1234);
}
