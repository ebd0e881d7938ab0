use player_core::messages::{AudioThreadEvent, AudioThreadMessage, TaskCommand};
use player_core::player::{AudioPlayer, Effect};
use player_core::song::SongData;

fn song(id: &str) -> SongData {
    SongData::Local {
        music_id: id.to_string(),
        file_path: format!("/music/{id}.flac"),
    }
}

fn three_song_player() -> AudioPlayer {
    let mut p = AudioPlayer::new();
    let songs = vec![song("s1"), song("s2"), song("s3")];
    p.process_message(AudioThreadMessage::SetPlaylist {
        callback_id: "cb".to_string(),
        songs,
    });
    p
}

fn recreated_song_id(effects: &[Effect]) -> Option<String> {
    effects.iter().find_map(|e| match e {
        Effect::RecreateTask { song } => Some(song.get_id()),
        _ => None,
    })
}

#[test]
fn next_song_wraps_forward() {
    let mut p = three_song_player();
    for expected in [1usize, 2, 0, 1] {
        let effects = p.process_message(AudioThreadMessage::NextSong {
            callback_id: "cb".to_string(),
        });
        assert_eq!(p.current_play_index, expected);
        assert!(p.is_playing);
        assert_eq!(effects.len(), 2);
        assert!(matches!(effects[0], Effect::RecreateTask { .. }));
        assert!(matches!(effects[1], Effect::Reply { .. }));
    }
}

#[test]
fn prev_song_wraps_backward() {
    let mut p = three_song_player();
    let effects = p.process_message(AudioThreadMessage::PrevSong {
        callback_id: "cb".to_string(),
    });
    assert_eq!(p.current_play_index, 2);
    assert_eq!(recreated_song_id(&effects).as_deref(), Some("s3"));
    let effects = p.process_message(AudioThreadMessage::PrevSong {
        callback_id: "cb".to_string(),
    });
    assert_eq!(p.current_play_index, 1);
    assert_eq!(recreated_song_id(&effects).as_deref(), Some("s2"));
}

#[test]
fn empty_playlist_commands_are_noops() {
    let mut p = AudioPlayer::new();
    for msg in [
        AudioThreadMessage::NextSong { callback_id: "cb".to_string() },
        AudioThreadMessage::PrevSong { callback_id: "cb".to_string() },
        AudioThreadMessage::JumpToSong { callback_id: "cb".to_string(), song_index: 0 },
    ] {
        let effects = p.process_message(msg);
        assert!(effects.is_empty());
        assert_eq!(p.current_play_index, 0);
        assert!(!p.is_playing);
        assert!(p.current_song.is_none());
    }
}

#[test]
fn jump_out_of_range_is_ignored() {
    let mut p = three_song_player();
    let effects = p.process_message(AudioThreadMessage::JumpToSong {
        callback_id: "cb".to_string(),
        song_index: 3,
    });
    assert!(effects.is_empty());
    assert_eq!(p.current_play_index, 0);
    assert!(!p.is_playing);
}

#[test]
fn jump_selects_exact_song() {
    let mut p = three_song_player();
    let effects = p.process_message(AudioThreadMessage::JumpToSong {
        callback_id: "cb".to_string(),
        song_index: 2,
    });
    assert_eq!(p.current_play_index, 2);
    assert_eq!(recreated_song_id(&effects).as_deref(), Some("s3"));
}

#[test]
fn set_volume_clamps_above_full() {
    let mut p = AudioPlayer::new();
    let effects = p.process_message(AudioThreadMessage::SetVolume {
        callback_id: "cb".to_string(),
        volume: 5000,
    });
    assert_eq!(p.volume, 1000);
    assert!(matches!(effects[0], Effect::SetSinkVolume { volume: 1000 }));
    assert!(matches!(
        effects[1],
        Effect::Emit { event: AudioThreadEvent::VolumeChanged { volume: 1000 } }
    ));
}

#[test]
fn relative_volume_clamps_below_zero() {
    let mut p = AudioPlayer::new();
    p.process_message(AudioThreadMessage::SetVolume {
        callback_id: "cb".to_string(),
        volume: 300,
    });
    let effects = p.process_message(AudioThreadMessage::SetVolumeRelative {
        callback_id: "cb".to_string(),
        delta: -2000,
    });
    assert_eq!(p.volume, 0);
    assert!(matches!(effects[0], Effect::SetSinkVolume { volume: 0 }));
}

#[test]
fn relative_volume_adds_within_range() {
    let mut p = AudioPlayer::new();
    let effects = p.process_message(AudioThreadMessage::SetVolumeRelative {
        callback_id: "cb".to_string(),
        delta: 250,
    });
    assert_eq!(p.volume, 750);
    assert_eq!(effects.len(), 3);
}

#[test]
fn pause_resume_toggle_forwards_and_reports() {
    let mut p = AudioPlayer::new();
    let effects = p.process_message(AudioThreadMessage::ResumeAudio {
        callback_id: "cb".to_string(),
    });
    assert!(p.is_playing);
    assert!(matches!(
        effects[0],
        Effect::ForwardToTask { command: TaskCommand::Resume }
    ));
    assert!(matches!(
        effects[1],
        Effect::Emit { event: AudioThreadEvent::PlayStatus { is_playing: true } }
    ));
    let effects = p.process_message(AudioThreadMessage::ResumeOrPauseAudio {
        callback_id: "cb".to_string(),
    });
    assert!(!p.is_playing);
    assert!(matches!(
        effects[0],
        Effect::ForwardToTask { command: TaskCommand::Pause }
    ));
}

#[test]
fn seek_is_forwarded_and_acknowledged() {
    let mut p = AudioPlayer::new();
    let effects = p.process_message(AudioThreadMessage::SeekAudio {
        callback_id: "cb7".to_string(),
        position_ms: 42_000,
    });
    assert_eq!(effects.len(), 2);
    assert!(matches!(
        effects[0],
        Effect::ForwardToTask { command: TaskCommand::Seek { position_ms: 42_000 } }
    ));
    match &effects[1] {
        Effect::Reply { callback_id } => assert_eq!(callback_id, "cb7"),
        other => panic!("expected a reply, got {other:?}"),
    }
}

#[test]
fn sync_status_reports_shared_position_after_seek() {
    let mut p = three_song_player();
    p.process_message(AudioThreadMessage::JumpToSong {
        callback_id: "cb".to_string(),
        song_index: 1,
    });
    p.set_shared_duration(180_000);
    p.set_shared_position(42_000);
    let effects = p.process_message(AudioThreadMessage::SyncStatus);
    assert_eq!(effects.len(), 1);
    match &effects[0] {
        Effect::Emit {
            event:
                AudioThreadEvent::SyncStatus {
                    music_id,
                    is_playing,
                    duration_ms,
                    position_ms,
                    volume,
                    playlist_inited,
                    playlist,
                    ..
                },
        } => {
            assert_eq!(music_id, "s2");
            assert!(*is_playing);
            assert_eq!(*duration_ms, 180_000);
            assert_eq!(*position_ms, 42_000);
            assert_eq!(*volume, 500);
            assert!(*playlist_inited);
            assert_eq!(playlist.len(), 3);
        }
        other => panic!("expected a status event, got {other:?}"),
    }
}

#[test]
fn set_playlist_marks_inited_and_replies_once() {
    let mut p = AudioPlayer::new();
    assert!(!p.playlist_inited);
    let effects = p.process_message(AudioThreadMessage::SetPlaylist {
        callback_id: "cb".to_string(),
        songs: vec![song("a")],
    });
    assert!(p.playlist_inited);
    assert!(!p.is_playing);
    assert_eq!(effects.len(), 1);
    assert!(matches!(effects[0], Effect::Reply { .. }));
}

#[test]
fn set_cookie_only_replies() {
    let mut p = AudioPlayer::new();
    let effects = p.process_message(AudioThreadMessage::SetCookie {
        callback_id: "cb".to_string(),
        cookie: "k=v".to_string(),
    });
    assert_eq!(effects.len(), 1);
    assert!(matches!(effects[0], Effect::Reply { .. }));
}
