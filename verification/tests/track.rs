use wildmidi::{Player, PlayerError, TrackInfo};

fn live_player() -> Player {
    Player::with_cfg("/tmp/wildmidi.cfg", 44100)
        .unwrap()
        .complete(0)
        .unwrap()
}

#[test]
fn load_buffer_parsed() {
    let player = live_player();
    let midi = player.load(vec![0x4d, 0x54, 0x68, 0x64], true).unwrap();
    assert!(!midi.at_end());
    midi.close();
}

#[test]
fn load_buffer_rejected() {
    let player = live_player();
    let err = player.load(vec![0xde, 0xad, 0xbe, 0xef], false).err();
    assert_eq!(err, Some(PlayerError::ParseFailed));
}

#[test]
fn load_file_missing_path() {
    let player = live_player();
    let err = player.load_file("/no/such/directory/song.mid").err();
    assert_eq!(err, Some(PlayerError::SourceNotFound));
}

#[test]
fn load_file_existing_path_reaches_engine() {
    let player = live_player();
    let request = player.load_file("/").unwrap();
    assert_eq!(request.path(), "/");
    let err = request.complete(false).err();
    assert_eq!(err, Some(PlayerError::ParseFailed));
}

#[test]
fn load_file_parsed_opens_track() {
    let player = live_player();
    let request = player.load_file("/").unwrap();
    let midi = request.complete(true).unwrap();
    assert!(!midi.at_end());
    midi.close();
}

#[test]
fn play_forwards_full_reads() {
    let player = live_player();
    let mut midi = player.load(vec![1, 2, 3], true).unwrap();
    let chunk = midi.play(4, vec![9, 8, 7, 6], 4);
    assert_eq!(chunk, vec![9, 8, 7, 6]);
    assert!(!midi.at_end());
}

#[test]
fn play_trims_to_reported_count() {
    let player = live_player();
    let mut midi = player.load(vec![1, 2, 3], true).unwrap();
    let chunk = midi.play(4, vec![9, 8, 7, 6], 2);
    assert_eq!(chunk, vec![9, 8]);
    assert!(midi.at_end());
}

#[test]
fn short_read_ends_stream_stably() {
    let player = live_player();
    let mut midi = player.load(vec![1, 2, 3], true).unwrap();
    assert_eq!(midi.play(4, vec![5, 5, 5, 5], 3), vec![5, 5, 5]);
    assert!(midi.at_end());
    assert_eq!(midi.play(4, vec![5, 5, 5, 5], 4), Vec::<u8>::new());
    assert_eq!(midi.play(4, vec![5, 5, 5, 5], 4), Vec::<u8>::new());
    assert!(midi.at_end());
}

#[test]
fn seek_reopens_stream() {
    let player = live_player();
    let mut midi = player.load(vec![1, 2, 3], true).unwrap();
    assert_eq!(midi.play(2, vec![4, 4], 0), Vec::<u8>::new());
    assert!(midi.at_end());
    midi.seek(0);
    assert!(!midi.at_end());
    assert_eq!(midi.play(2, vec![7, 7], 2), vec![7, 7]);
}

#[test]
fn copyright_absent() {
    let player = live_player();
    let midi = player.load(vec![1], true).unwrap();
    let info = TrackInfo {
        copyright: None,
        current_sample: 0,
        approx_total_samples: 0,
        total_midi_time: 0,
    };
    assert_eq!(midi.copyright(&info), None);
}

#[test]
fn copyright_decodes_text() {
    let player = live_player();
    let midi = player.load(vec![1], true).unwrap();
    let info = TrackInfo {
        copyright: Some(b"Copyright 1999".to_vec()),
        current_sample: 0,
        approx_total_samples: 0,
        total_midi_time: 0,
    };
    assert_eq!(midi.copyright(&info), Some(String::from("Copyright 1999")));
}

#[test]
fn copyright_invalid_text_is_absent() {
    let player = live_player();
    let midi = player.load(vec![1], true).unwrap();
    let info = TrackInfo {
        copyright: Some(vec![0xff, 0xfe, 0x41]),
        current_sample: 0,
        approx_total_samples: 0,
        total_midi_time: 0,
    };
    assert_eq!(midi.copyright(&info), None);
}

#[test]
fn metadata_passes_engine_counters_through() {
    let player = live_player();
    let midi = player.load(vec![1], true).unwrap();
    let info = TrackInfo {
        copyright: None,
        current_sample: 88200,
        approx_total_samples: 231000,
        total_midi_time: 5012,
    };
    assert_eq!(midi.current_sample(&info), 88200);
    assert_eq!(midi.total_samples(&info), 231000);
    assert_eq!(midi.total_time(&info), 5012);
}
