use muse_decoder::{MuseModel, MusePacketType, MuseSession};

fn eeg_packet(fill: u8) -> Vec<u8> {
    let mut p = vec![0u8, 0];
    p.extend(std::iter::repeat(fill).take(18));
    p
}

#[test]
fn first_packet_selects_default_variant() {
    let mut session = MuseSession::new();
    assert_eq!(session.model(), None);
    assert!(session.parse_muse_packet(0, &eeg_packet(1), 5).is_empty());
    assert_eq!(session.model(), Some(MuseModel::MuseS));
}

#[test]
fn malformed_packet_leaves_session_uninitialised() {
    let mut session = MuseSession::new();
    assert!(session.parse_muse_packet(0, &vec![0u8; 19], 5).is_empty());
    assert_eq!(session.model(), None);
}

#[test]
fn init_resets_the_state() {
    let mut session = MuseSession::new();
    session.init_muse_parser(MuseModel::Muse2);
    for ch in 0..3 {
        assert!(session.parse_muse_packet(ch, &eeg_packet(2), 5).is_empty());
    }
    session.init_muse_parser(MuseModel::Muse2);
    assert!(session.parse_muse_packet(3, &eeg_packet(2), 5).is_empty());
    let state = session.state().unwrap();
    assert!(state.is_channel_received(3));
    assert!(!state.is_channel_received(0));
}

#[test]
fn single_packet_frame() {
    let mut session = MuseSession::new();
    session.init_muse_parser(MuseModel::Muse2);
    let mut frames = Vec::new();
    for ch in 0..4 {
        frames.extend(session.parse_muse_packet(ch, &eeg_packet(0x80), 77));
    }
    assert_eq!(frames.len(), 1);
    assert_eq!(frames[0].eeg.len(), 4);
    assert_eq!(frames[0].timestamp_us, 77);
}

#[test]
fn batch_uses_index_as_channel() {
    let mut session = MuseSession::new();
    session.init_muse_parser(MuseModel::MuseS);
    let mut packets: Vec<Vec<u8>> = (0..5).map(|_| eeg_packet(0x80)).collect();
    packets.push(vec![0u8; 20]);
    let frames = session.parse_and_process_muse_packets(&packets, 9);
    assert_eq!(frames.len(), 2);
    assert_eq!(frames[0].packet_types, vec![MusePacketType::Eeg]);
    assert_eq!(frames[0].eeg.len(), 5);
    assert_eq!(frames[1].packet_types, vec![MusePacketType::Accel]);
}

#[test]
fn empty_batch_yields_placeholder() {
    let mut session = MuseSession::new();
    let frames = session.parse_and_process_muse_packets(&Vec::new(), 3);
    assert_eq!(frames.len(), 1);
    assert_eq!(frames[0].eeg, vec![vec![0; 12]; 5]);
    assert_eq!(frames[0].packet_types, vec![MusePacketType::Eeg]);
    assert_eq!(session.model(), None);

    session.init_muse_parser(MuseModel::MuseSAthena);
    let frames = session.parse_and_process_muse_packets(&vec![eeg_packet(1); 3], 3);
    assert_eq!(frames.len(), 1);
    assert_eq!(frames[0].eeg, vec![vec![0; 12]; 7]);
    assert!(session.state().unwrap().is_channel_received(2));
}
