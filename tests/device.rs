use muse_decoder::command::{contains_bytes, model_from_lowercase_name};
use muse_decoder::{
    get_connection_status, get_muse_model_from_name, send_muse_command, BoardQuery,
    ConnectionStatus, EegResolution, MuseModel,
};

#[test]
fn capability_table() {
    let rows = [
        (MuseModel::Muse2016, 4, EegResolution::Bits12, false, false, 0),
        (MuseModel::Muse2, 4, EegResolution::Bits12, true, false, 2),
        (MuseModel::MuseS, 5, EegResolution::Bits12, true, false, 2),
        (MuseModel::MuseSAthena, 7, EegResolution::Bits14, true, true, 3),
        (MuseModel::Unknown, 4, EegResolution::Bits12, false, false, 0),
    ];
    for (m, n, res, ppg, fnirs, optical) in rows {
        assert_eq!(m.channel_count(), n);
        assert_eq!(m.resolution(), res);
        assert_eq!(m.has_ppg(), ppg);
        assert_eq!(m.has_fnirs(), fnirs);
        assert_eq!(m.ppg_channel_count(), optical);
    }
    let s = EegResolution::Bits12.scale_factor();
    assert_eq!((s.num, s.den), (125, 256));
    assert_eq!(EegResolution::Bits12.offset(), 0x800);
}

#[test]
fn command_framing() {
    assert_eq!(send_muse_command("v1"), vec![3, b'v', b'1', 10]);
    assert_eq!(send_muse_command(""), vec![1, 10]);
    assert_eq!(send_muse_command("p50"), vec![4, b'p', b'5', b'0', 10]);
}

#[test]
fn long_command_length_wraps() {
    let cmd = "x".repeat(300);
    let packet = send_muse_command(&cmd);
    assert_eq!(packet.len(), 302);
    assert_eq!(packet[0], ((300 + 1) % 256) as u8);
    assert_eq!(packet[301], 10);
}

#[test]
fn model_from_name() {
    assert_eq!(get_muse_model_from_name("Muse S Athena 1234"), MuseModel::MuseSAthena);
    assert_eq!(get_muse_model_from_name("MuseS-ATHENA"), MuseModel::MuseSAthena);
    assert_eq!(get_muse_model_from_name("Muse-S 5A3B"), MuseModel::MuseS);
    assert_eq!(get_muse_model_from_name("MUSE S"), MuseModel::MuseS);
    assert_eq!(get_muse_model_from_name("Muse 2 headband"), MuseModel::Muse2);
    assert_eq!(get_muse_model_from_name("Muse2-0F1E"), MuseModel::Muse2);
    assert_eq!(get_muse_model_from_name("MUSE-2016"), MuseModel::Muse2016);
    // "muse 2016" also reads as "muse 2", which is tried first
    assert_eq!(get_muse_model_from_name("Muse 2016"), MuseModel::Muse2);
    assert_eq!(get_muse_model_from_name("Headband"), MuseModel::Unknown);
    assert_eq!(get_muse_model_from_name(""), MuseModel::Unknown);
}

#[test]
fn model_from_lowercase_bytes() {
    assert_eq!(model_from_lowercase_name(b"my muse-2016"), MuseModel::Muse2016);
    assert_eq!(model_from_lowercase_name(b"MUSE-2016"), MuseModel::Unknown);
}

#[test]
fn substring_search() {
    assert!(contains_bytes(b"hello", b"ell"));
    assert!(contains_bytes(b"hello", b"hello"));
    assert!(contains_bytes(b"hello", b""));
    assert!(contains_bytes(b"", b""));
    assert!(!contains_bytes(b"hello", b"hellos"));
    assert!(!contains_bytes(b"hello", b"lo!"));
    assert!(contains_bytes(b"hello", b"lo"));
}

#[test]
fn connection_status_from_query() {
    assert_eq!(get_connection_status(BoardQuery::LockFailed), ConnectionStatus::Error);
    assert_eq!(get_connection_status(BoardQuery::NoBoard), ConnectionStatus::Disconnected);
    assert_eq!(get_connection_status(BoardQuery::Prepared(true)), ConnectionStatus::Connected);
    assert_eq!(get_connection_status(BoardQuery::Prepared(false)), ConnectionStatus::Disconnected);
    assert_eq!(get_connection_status(BoardQuery::QueryFailed), ConnectionStatus::Error);
}
