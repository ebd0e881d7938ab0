use vstd::prelude::*;
use crate::song::SongData;

verus! {

/// Volume values are fixed-point fractions of full scale: `0` is silence and
/// `VOLUME_FULL` (one thousand thousandths) is full volume.
pub const VOLUME_FULL: u32 = 1000;

/// The quality of the loaded track, derived from its codec parameters at load
/// time and immutable for the lifetime of one load.
#[derive(Debug, Clone, Copy, PartialEq, Eq, Structural)]
pub struct AudioQuality {
    pub sample_rate: u32,
    pub bits_per_sample: u32,
    pub channels: u32,
}

impl AudioQuality {
    /// Builds the quality record from optional codec parameters, treating a
    /// missing parameter as zero.
    pub fn from_codec_params(
        sample_rate: Option<u32>,
        bits_per_sample: Option<u32>,
        channels: Option<u32>,
    ) -> (r: AudioQuality)
        ensures
            r.sample_rate == (match sample_rate { Some(v) => v, None => 0u32 }),
            r.bits_per_sample == (match bits_per_sample { Some(v) => v, None => 0u32 }),
            r.channels == (match channels { Some(v) => v, None => 0u32 }),
    {
        AudioQuality {
            sample_rate: match sample_rate { Some(v) => v, None => 0 },
            bits_per_sample: match bits_per_sample { Some(v) => v, None => 0 },
            channels: match channels { Some(v) => v, None => 0 },
        }
    }
}

impl Default for AudioQuality {
    /// The default quality is all zeroes, meaning "unknown".
    fn default() -> (r: Self)
        ensures
            r == (AudioQuality { sample_rate: 0u32, bits_per_sample: 0u32, channels: 0u32 }),
    {
        AudioQuality { sample_rate: 0, bits_per_sample: 0, channels: 0 }
    }
}

/// Shared per-song information: the active decode task is the sole writer,
/// the controller reads it when answering status queries.
#[derive(Debug, Clone)]
pub struct AudioInfo {
    pub audio_name: String,
    pub duration_ms: u64,
    pub position_ms: u64,
}

impl Default for AudioInfo {
    /// The default info has an empty name and zero duration and position.
    fn default() -> (r: Self)
        ensures
            r.audio_name@ == Seq::<char>::empty(),
            r.duration_ms == 0,
            r.position_ms == 0,
    {
        AudioInfo { audio_name: String::new(), duration_ms: 0, position_ms: 0 }
    }
}

/// The closed set of control messages the playback controller accepts.
///
/// Each command carries an opaque correlation id; the controller produces at
/// most one reply per message, routed back by that id. Positions are in
/// milliseconds; volumes are thousandths of full scale.
#[derive(Debug)]
pub enum AudioThreadMessage {
    SetCookie { callback_id: String, cookie: String },
    SeekAudio { callback_id: String, position_ms: u64 },
    ResumeAudio { callback_id: String },
    PauseAudio { callback_id: String },
    ResumeOrPauseAudio { callback_id: String },
    PrevSong { callback_id: String },
    NextSong { callback_id: String },
    JumpToSong { callback_id: String, song_index: usize },
    SetPlaylist { callback_id: String, songs: Vec<SongData> },
    SyncStatus,
    SetVolume { callback_id: String, volume: u32 },
    SetVolumeRelative { callback_id: String, delta: i32 },
}

/// The closed set of outbound events consumed by the application layer.
///
/// Every event is fire-and-forget: a gone receiver is never fatal to playback.
/// `FFTData` carries fixed-point spectral magnitudes produced downstream of
/// the sample buffer.
#[derive(Debug, Clone)]
pub enum AudioThreadEvent {
    LoadingAudio { music_id: String },
    LoadAudio { music_id: String, duration_ms: u64, quality: AudioQuality },
    LoadError { message: String },
    PlayStatus { is_playing: bool },
    SetDuration { duration_ms: u64 },
    PlayPosition { position_ms: u64 },
    VolumeChanged { volume: u32 },
    FFTData { data: Vec<u32> },
    SyncStatus {
        music_id: String,
        is_playing: bool,
        duration_ms: u64,
        position_ms: u64,
        volume: u32,
        playlist_inited: bool,
        playlist: Vec<SongData>,
        quality: AudioQuality,
    },
}

/// A transport command relayed from the controller into the running decode
/// task over its private control channel.
#[derive(Debug, Clone, Copy, PartialEq, Eq, Structural)]
pub enum TaskCommand {
    Seek { position_ms: u64 },
    Pause,
    Resume,
}

} // verus!
