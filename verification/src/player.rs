use vstd::prelude::*;
use vstd::arithmetic::div_mod::{
    lemma_mod_add_multiples_vanish, lemma_mod_self_0, lemma_small_mod,
};
use crate::messages::{
    AudioInfo, AudioQuality, AudioThreadEvent, AudioThreadMessage, TaskCommand, VOLUME_FULL,
};
use crate::song::SongData;

verus! {

/// One side effect the controller asks the application layer to perform.
///
/// The controller itself only decides; performing a reply, an event emission,
/// a channel send, a task abort-and-spawn or a sink call is the caller's job.
#[derive(Debug)]
pub enum Effect {
    /// Route a single reply back to the command's origin.
    Reply { callback_id: String },
    /// Broadcast one event to the application layer.
    Emit { event: AudioThreadEvent },
    /// Relay a transport command to the active decode task.
    ForwardToTask { command: TaskCommand },
    /// Cancel the active decode task and spawn a fresh one for `song`.
    RecreateTask { song: SongData },
    /// Push the new volume to the output sink.
    SetSinkVolume { volume: u32 },
}

/// Clamps an absolute volume request to the valid range.
pub open spec fn clamped_volume(v: u32) -> u32 {
    if v > VOLUME_FULL {
        VOLUME_FULL
    } else {
        v
    }
}

/// The volume that results from adding `delta` to `v` and clamping to the
/// valid range.
pub open spec fn volume_after_delta(v: u32, delta: i32) -> u32 {
    let s = v as int + delta as int;
    if s < 0 {
        0u32
    } else if s > VOLUME_FULL as int {
        VOLUME_FULL
    } else {
        s as u32
    }
}

/// The music id a status query reports: the current song's id, or empty when
/// no song is current.
pub open spec fn sync_music_id(p: AudioPlayer) -> Seq<char> {
    match p.current_song {
        Some(s) => s.id(),
        None => Seq::empty(),
    }
}

/// The controller state after the shared playback position was overwritten by
/// the decode task.
pub open spec fn with_shared_position(p: AudioPlayer, position_ms: u64) -> AudioPlayer {
    AudioPlayer {
        current_audio_info: AudioInfo { position_ms, ..p.current_audio_info },
        ..p
    }
}

/// Law: a volume command always lands in the valid range, however far out of
/// range its input was: an absolute request is cut to the range, and a
/// relative one moves from the current volume and is then cut to the range.
pub proof fn lemma_volume_always_in_range(v: u32, delta: i32)
    ensures
        clamped_volume(v) <= VOLUME_FULL,
        volume_after_delta(v, delta) <= VOLUME_FULL,
        v > VOLUME_FULL ==> clamped_volume(v) == VOLUME_FULL,
        (v as int + delta as int) < 0 ==> volume_after_delta(v, delta) == 0,
{
}

/// Law: once a seek has published its target `t` into the shared audio info,
/// a status query answered from that state reports position exactly `t`,
/// even before any packet has been decoded past that point; nothing else the
/// query reports is disturbed.
pub proof fn lemma_seek_then_sync_reports_target(p: AudioPlayer, t: u64)
    ensures
        with_shared_position(p, t).current_audio_info.position_ms == t,
        sync_music_id(with_shared_position(p, t)) == sync_music_id(p),
        with_shared_position(p, t).current_audio_info.duration_ms
            == p.current_audio_info.duration_ms,
        with_shared_position(p, t).is_playing == p.is_playing,
        with_shared_position(p, t).volume == p.volume,
        with_shared_position(p, t).playlist == p.playlist,
{
}

/// Law: in a playlist of length `n`, stepping back from index `i` lands on
/// `(i - 1 + n) % n`, and stepping forward lands on `(i + 1) % n`; both stay
/// inside the playlist.
pub proof fn lemma_playlist_wraparound(i: int, n: int)
    requires
        0 <= i < n,
    ensures
        (if i == 0 { n - 1 } else { i - 1 }) == (i - 1 + n) % n,
        (if i + 1 == n { 0int } else { i + 1 }) == (i + 1) % n,
        0 <= (i - 1 + n) % n < n,
        0 <= (i + 1) % n < n,
{
    if i == 0 {
        lemma_small_mod((n - 1) as nat, n as nat);
    } else {
        lemma_mod_add_multiples_vanish(i - 1, n);
        lemma_small_mod((i - 1) as nat, n as nat);
    }
    if i + 1 == n {
        lemma_mod_self_0(n);
    } else {
        lemma_small_mod((i + 1) as nat, n as nat);
    }
}

/// Returns a copy of the playlist, element for element.
fn clone_songs(v: &Vec<SongData>) -> (r: Vec<SongData>)
    ensures
        r@ == v@,
{
    let mut r: Vec<SongData> = Vec::new();
    let mut i: usize = 0;
    while i < v.len()
        invariant
            i <= v.len(),
            r@ == v@.subrange(0, i as int),
        decreases v.len() - i,
    {
        r.push(v[i].clone());
        proof {
            assert(v@.subrange(0, i + 1) =~= v@.subrange(0, i as int).push(v@[i as int]));
        }
        i += 1;
    }
    proof {
        assert(v@.subrange(0, v.len() as int) =~= v@);
    }
    r
}

/// The playback controller: owns the playlist, the current index, the volume
/// and the play flag, and turns each control message into a state mutation
/// plus a list of effects for the application layer to perform.
pub struct AudioPlayer {
    pub volume: u32,
    pub is_playing: bool,
    pub playlist: Vec<SongData>,
    pub playlist_inited: bool,
    pub current_play_index: usize,
    pub current_song: Option<SongData>,
    pub current_audio_info: AudioInfo,
    pub current_quality: AudioQuality,
}

impl AudioPlayer {
    /// Well-formedness: the current index stays inside a non-empty playlist,
    /// and the volume never leaves the valid range.
    pub open spec fn wf(self) -> bool {
        &&& self.playlist.len() > 0 ==> self.current_play_index < self.playlist.len()
        &&& self.volume <= VOLUME_FULL
    }

    /// A fresh controller: half volume, stopped, with an empty playlist.
    pub fn new() -> (r: AudioPlayer)
        ensures
            r.wf(),
            r.volume == 500u32,
            !r.is_playing,
            r.playlist@ == Seq::<SongData>::empty(),
            !r.playlist_inited,
            r.current_play_index == 0,
            r.current_song is None,
            r.current_audio_info.audio_name@ == Seq::<char>::empty(),
            r.current_audio_info.duration_ms == 0,
            r.current_audio_info.position_ms == 0,
            r.current_quality == (AudioQuality { sample_rate: 0u32, bits_per_sample: 0u32, channels: 0u32 }),
    {
        AudioPlayer {
            volume: 500,
            is_playing: false,
            playlist: Vec::new(),
            playlist_inited: false,
            current_play_index: 0,
            current_song: None,
            current_audio_info: AudioInfo::default(),
            current_quality: AudioQuality::default(),
        }
    }

    /// Records the playback position the decode task published into the
    /// shared audio info.
    pub fn set_shared_position(&mut self, position_ms: u64)
        ensures
            *final(self) == with_shared_position(*old(self), position_ms),
    {
        self.current_audio_info.position_ms = position_ms;
    }

    /// Records the duration the decode task computed at load time, and rewinds
    /// the shared position to the start of the song.
    pub fn set_shared_duration(&mut self, duration_ms: u64)
        ensures
            *final(self) == (AudioPlayer {
                current_audio_info: (AudioInfo {
                    duration_ms,
                    position_ms: 0u64,
                    ..old(self).current_audio_info
                }),
                ..*old(self)
            }),
    {
        self.current_audio_info.duration_ms = duration_ms;
        self.current_audio_info.position_ms = 0;
    }

    /// Records the quality of the track the decode task loaded.
    pub fn set_shared_quality(&mut self, quality: AudioQuality)
        ensures
            *final(self) == (AudioPlayer { current_quality: quality, ..*old(self) }),
    {
        self.current_quality = quality;
    }

    /// Applies one control message: mutates the controller state and returns
    /// the ordered effects the application layer must perform.
    ///
    /// Song-changing commands wrap around the playlist; on an empty playlist
    /// they leave the state untouched and ask for nothing. A jump to an index
    /// beyond the playlist is likewise ignored, so the current index never
    /// leaves a non-empty playlist. Volume commands clamp to the valid range.
    /// A status query is pure: it reads the state and emits one event.
    pub fn process_message(&mut self, msg: AudioThreadMessage) -> (effects: Vec<Effect>)
        requires
            old(self).wf(),
        ensures
            final(self).wf(),
            match msg {
                AudioThreadMessage::SetCookie { callback_id, .. } => {
                    &&& *final(self) == *old(self)
                    &&& effects@ =~= seq![(Effect::Reply { callback_id })]
                },
                AudioThreadMessage::SeekAudio { callback_id, position_ms } => {
                    &&& *final(self) == *old(self)
                    &&& effects@ =~= seq![
                        (Effect::ForwardToTask { command: TaskCommand::Seek { position_ms } }),
                        (Effect::Reply { callback_id }),
                    ]
                },
                AudioThreadMessage::ResumeAudio { callback_id } => {
                    &&& *final(self) == (AudioPlayer { is_playing: true, ..*old(self) })
                    &&& effects@ =~= seq![
                        (Effect::ForwardToTask { command: TaskCommand::Resume }),
                        (Effect::Emit { event: AudioThreadEvent::PlayStatus { is_playing: true } }),
                        (Effect::Reply { callback_id }),
                    ]
                },
                AudioThreadMessage::PauseAudio { callback_id } => {
                    &&& *final(self) == (AudioPlayer { is_playing: false, ..*old(self) })
                    &&& effects@ =~= seq![
                        (Effect::ForwardToTask { command: TaskCommand::Pause }),
                        (Effect::Emit { event: AudioThreadEvent::PlayStatus { is_playing: false } }),
                        (Effect::Reply { callback_id }),
                    ]
                },
                AudioThreadMessage::ResumeOrPauseAudio { callback_id } => {
                    &&& *final(self) == (AudioPlayer {
                        is_playing: !old(self).is_playing,
                        ..*old(self)
                    })
                    &&& effects@ =~= (if !old(self).is_playing {
                        seq![
                            (Effect::ForwardToTask { command: TaskCommand::Resume }),
                            (Effect::Emit {
                                event: AudioThreadEvent::PlayStatus { is_playing: true },
                            }),
                            (Effect::Reply { callback_id }),
                        ]
                    } else {
                        seq![
                            (Effect::ForwardToTask { command: TaskCommand::Pause }),
                            (Effect::Emit {
                                event: AudioThreadEvent::PlayStatus { is_playing: false },
                            }),
                            (Effect::Reply { callback_id }),
                        ]
                    })
                },
                AudioThreadMessage::PrevSong { callback_id } => {
                    if old(self).playlist.len() == 0 {
                        &&& *final(self) == *old(self)
                        &&& effects@ =~= Seq::<Effect>::empty()
                    } else {
                        let n = old(self).playlist.len() as int;
                        let i = old(self).current_play_index as int;
                        let j = (i - 1 + n) % n;
                        &&& final(self).current_play_index == j
                        &&& final(self).current_song == Some(old(self).playlist@[j])
                        &&& final(self).is_playing
                        &&& final(self).playlist == old(self).playlist
                        &&& final(self).playlist_inited == old(self).playlist_inited
                        &&& final(self).volume == old(self).volume
                        &&& final(self).current_audio_info == old(self).current_audio_info
                        &&& final(self).current_quality == old(self).current_quality
                        &&& effects@ =~= seq![
                            (Effect::RecreateTask { song: old(self).playlist@[j] }),
                            (Effect::Reply { callback_id }),
                        ]
                    }
                },
                AudioThreadMessage::NextSong { callback_id } => {
                    if old(self).playlist.len() == 0 {
                        &&& *final(self) == *old(self)
                        &&& effects@ =~= Seq::<Effect>::empty()
                    } else {
                        let n = old(self).playlist.len() as int;
                        let i = old(self).current_play_index as int;
                        let j = (i + 1) % n;
                        &&& final(self).current_play_index == j
                        &&& final(self).current_song == Some(old(self).playlist@[j])
                        &&& final(self).is_playing
                        &&& final(self).playlist == old(self).playlist
                        &&& final(self).playlist_inited == old(self).playlist_inited
                        &&& final(self).volume == old(self).volume
                        &&& final(self).current_audio_info == old(self).current_audio_info
                        &&& final(self).current_quality == old(self).current_quality
                        &&& effects@ =~= seq![
                            (Effect::RecreateTask { song: old(self).playlist@[j] }),
                            (Effect::Reply { callback_id }),
                        ]
                    }
                },
                AudioThreadMessage::JumpToSong { callback_id, song_index } => {
                    if old(self).playlist.len() == 0 || song_index >= old(self).playlist.len() {
                        &&& *final(self) == *old(self)
                        &&& effects@ =~= Seq::<Effect>::empty()
                    } else {
                        &&& final(self).current_play_index == song_index
                        &&& final(self).current_song == Some(old(self).playlist@[song_index as int])
                        &&& final(self).is_playing
                        &&& final(self).playlist == old(self).playlist
                        &&& final(self).playlist_inited == old(self).playlist_inited
                        &&& final(self).volume == old(self).volume
                        &&& final(self).current_audio_info == old(self).current_audio_info
                        &&& final(self).current_quality == old(self).current_quality
                        &&& effects@ =~= seq![
                            (Effect::RecreateTask { song: old(self).playlist@[song_index as int] }),
                            (Effect::Reply { callback_id }),
                        ]
                    }
                },
                AudioThreadMessage::SetPlaylist { callback_id, songs } => {
                    &&& final(self).playlist == songs
                    &&& final(self).playlist_inited
                    &&& final(self).current_play_index == (
                        if songs.len() > 0 && old(self).current_play_index >= songs.len() {
                            0int
                        } else {
                            old(self).current_play_index as int
                        })
                    &&& final(self).current_song == old(self).current_song
                    &&& final(self).is_playing == old(self).is_playing
                    &&& final(self).volume == old(self).volume
                    &&& final(self).current_audio_info == old(self).current_audio_info
                    &&& final(self).current_quality == old(self).current_quality
                    &&& effects@ =~= seq![(Effect::Reply { callback_id })]
                },
                AudioThreadMessage::SyncStatus => {
                    &&& *final(self) == *old(self)
                    &&& effects@.len() == 1
                    &&& effects@[0] matches Effect::Emit {
                        event: AudioThreadEvent::SyncStatus {
                            music_id,
                            is_playing,
                            duration_ms,
                            position_ms,
                            volume,
                            playlist_inited,
                            playlist,
                            quality,
                        },
                    } && {
                        &&& music_id@ == sync_music_id(*old(self))
                        &&& is_playing == old(self).is_playing
                        &&& duration_ms == old(self).current_audio_info.duration_ms
                        &&& position_ms == old(self).current_audio_info.position_ms
                        &&& volume == old(self).volume
                        &&& playlist_inited == old(self).playlist_inited
                        &&& playlist@ == old(self).playlist@
                        &&& quality == old(self).current_quality
                    }
                },
                AudioThreadMessage::SetVolume { callback_id, volume } => {
                    &&& *final(self) == (AudioPlayer {
                        volume: clamped_volume(volume),
                        ..*old(self)
                    })
                    &&& effects@ =~= seq![
                        (Effect::SetSinkVolume { volume: clamped_volume(volume) }),
                        (Effect::Emit {
                            event: AudioThreadEvent::VolumeChanged { volume: clamped_volume(volume) },
                        }),
                        (Effect::Reply { callback_id }),
                    ]
                },
                AudioThreadMessage::SetVolumeRelative { callback_id, delta } => {
                    let v2 = volume_after_delta(old(self).volume, delta);
                    &&& *final(self) == (AudioPlayer { volume: v2, ..*old(self) })
                    &&& effects@ =~= seq![
                        (Effect::SetSinkVolume { volume: v2 }),
                        (Effect::Emit { event: AudioThreadEvent::VolumeChanged { volume: v2 } }),
                        (Effect::Reply { callback_id }),
                    ]
                },
            },
    {
        match msg {
            AudioThreadMessage::SetCookie { callback_id, cookie: _ } => {
                let mut v: Vec<Effect> = Vec::new();
                v.push(Effect::Reply { callback_id });
                v
            },
            AudioThreadMessage::SeekAudio { callback_id, position_ms } => {
                let mut v: Vec<Effect> = Vec::new();
                v.push(Effect::ForwardToTask { command: TaskCommand::Seek { position_ms } });
                v.push(Effect::Reply { callback_id });
                v
            },
            AudioThreadMessage::ResumeAudio { callback_id } => {
                self.is_playing = true;
                let mut v: Vec<Effect> = Vec::new();
                v.push(Effect::ForwardToTask { command: TaskCommand::Resume });
                v.push(Effect::Emit { event: AudioThreadEvent::PlayStatus { is_playing: true } });
                v.push(Effect::Reply { callback_id });
                v
            },
            AudioThreadMessage::PauseAudio { callback_id } => {
                self.is_playing = false;
                let mut v: Vec<Effect> = Vec::new();
                v.push(Effect::ForwardToTask { command: TaskCommand::Pause });
                v.push(Effect::Emit { event: AudioThreadEvent::PlayStatus { is_playing: false } });
                v.push(Effect::Reply { callback_id });
                v
            },
            AudioThreadMessage::ResumeOrPauseAudio { callback_id } => {
                self.is_playing = !self.is_playing;
                let mut v: Vec<Effect> = Vec::new();
                if self.is_playing {
                    v.push(Effect::ForwardToTask { command: TaskCommand::Resume });
                    v.push(Effect::Emit {
                        event: AudioThreadEvent::PlayStatus { is_playing: true },
                    });
                } else {
                    v.push(Effect::ForwardToTask { command: TaskCommand::Pause });
                    v.push(Effect::Emit {
                        event: AudioThreadEvent::PlayStatus { is_playing: false },
                    });
                }
                v.push(Effect::Reply { callback_id });
                v
            },
            AudioThreadMessage::PrevSong { callback_id } => {
                if self.playlist.len() == 0 {
                    Vec::new()
                } else {
                    let n = self.playlist.len();
                    let i = self.current_play_index;
                    let j: usize = if i == 0 { n - 1 } else { i - 1 };
                    proof {
                        lemma_playlist_wraparound(i as int, n as int);
                    }
                    self.current_play_index = j;
                    self.current_song = Some(self.playlist[j].clone());
                    self.is_playing = true;
                    let mut v: Vec<Effect> = Vec::new();
                    if let Some(e) = self.recreate_play_task() {
                        v.push(e);
                    }
                    v.push(Effect::Reply { callback_id });
                    v
                }
            },
            AudioThreadMessage::NextSong { callback_id } => {
                if self.playlist.len() == 0 {
                    Vec::new()
                } else {
                    let n = self.playlist.len();
                    let i = self.current_play_index;
                    let j: usize = (i + 1) % n;
                    self.current_play_index = j;
                    self.current_song = Some(self.playlist[j].clone());
                    self.is_playing = true;
                    let mut v: Vec<Effect> = Vec::new();
                    if let Some(e) = self.recreate_play_task() {
                        v.push(e);
                    }
                    v.push(Effect::Reply { callback_id });
                    v
                }
            },
            AudioThreadMessage::JumpToSong { callback_id, song_index } => {
                if self.playlist.len() == 0 || song_index >= self.playlist.len() {
                    Vec::new()
                } else {
                    self.current_play_index = song_index;
                    self.current_song = Some(self.playlist[song_index].clone());
                    self.is_playing = true;
                    let mut v: Vec<Effect> = Vec::new();
                    if let Some(e) = self.recreate_play_task() {
                        v.push(e);
                    }
                    v.push(Effect::Reply { callback_id });
                    v
                }
            },
            AudioThreadMessage::SetPlaylist { callback_id, songs } => {
                self.playlist_inited = true;
                self.playlist = songs;
                if self.playlist.len() > 0 && self.current_play_index >= self.playlist.len() {
                    self.current_play_index = 0;
                }
                let mut v: Vec<Effect> = Vec::new();
                v.push(Effect::Reply { callback_id });
                v
            },
            AudioThreadMessage::SyncStatus => {
                let music_id = match &self.current_song {
                    Some(s) => s.get_id(),
                    None => String::new(),
                };
                let playlist_copy = clone_songs(&self.playlist);
                let event = AudioThreadEvent::SyncStatus {
                    music_id,
                    is_playing: self.is_playing,
                    duration_ms: self.current_audio_info.duration_ms,
                    position_ms: self.current_audio_info.position_ms,
                    volume: self.volume,
                    playlist_inited: self.playlist_inited,
                    playlist: playlist_copy,
                    quality: self.current_quality,
                };
                let mut v: Vec<Effect> = Vec::new();
                v.push(Effect::Emit { event });
                v
            },
            AudioThreadMessage::SetVolume { callback_id, volume } => {
                let v2: u32 = if volume > VOLUME_FULL { VOLUME_FULL } else { volume };
                self.volume = v2;
                let mut v: Vec<Effect> = Vec::new();
                v.push(Effect::SetSinkVolume { volume: v2 });
                v.push(Effect::Emit { event: AudioThreadEvent::VolumeChanged { volume: v2 } });
                v.push(Effect::Reply { callback_id });
                v
            },
            AudioThreadMessage::SetVolumeRelative { callback_id, delta } => {
                let sum: i64 = self.volume as i64 + delta as i64;
                let v2: u32 = if sum < 0 {
                    0
                } else if sum > VOLUME_FULL as i64 {
                    VOLUME_FULL
                } else {
                    sum as u32
                };
                self.volume = v2;
                let mut v: Vec<Effect> = Vec::new();
                v.push(Effect::SetSinkVolume { volume: v2 });
                v.push(Effect::Emit { event: AudioThreadEvent::VolumeChanged { volume: v2 } });
                v.push(Effect::Reply { callback_id });
                v
            },
        }
    }

    /// The recreation decision: when a current song exists, ask the
    /// application layer to cancel the running decode task and spawn a fresh
    /// one bound to that song; when none exists, playback stays stopped and
    /// nothing is asked.
    pub fn recreate_play_task(&self) -> (r: Option<Effect>)
        ensures
            match self.current_song {
                Some(s) => r == Some(Effect::RecreateTask { song: s }),
                None => r is None,
            },
    {
        match &self.current_song {
            Some(s) => Some(Effect::RecreateTask { song: s.clone() }),
            None => None,
        }
    }
}

} // verus!
