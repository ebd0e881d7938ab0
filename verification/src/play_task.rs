use vstd::prelude::*;
use vstd::string::StringExecFns;
use crate::messages::{AudioQuality, AudioThreadEvent, TaskCommand};

verus! {

/// The two live states of a decode task, plus the load phase it starts in and
/// the terminal state every exit path ends in.
#[derive(Debug, Clone, Copy, PartialEq, Eq, Structural)]
pub enum PlayState {
    Loading,
    Playing,
    Paused,
    Finished,
}

/// One side effect a decode-task step asks the application layer to perform.
///
/// The task decides; opening the source, the blocking seek, the decode call,
/// the sink write and every channel send are the caller's job.
#[derive(Debug)]
pub enum TaskEffect {
    /// Broadcast one event to the application layer.
    Emit { event: AudioThreadEvent },
    /// Publish a position snapshot to the position tracker.
    PublishSnapshot { is_playing: bool, position_ms: u64 },
    /// Overwrite the shared playback position read by status queries.
    SetSharedPosition { position_ms: u64 },
    /// Overwrite the shared duration read by status queries.
    SetSharedDuration { duration_ms: u64 },
    /// Perform a coarse seek on the container format.
    DoSeek { position_ms: u64 },
    /// Push the just-decoded samples into the spectral sample buffer.
    PushFftSamples,
    /// Write the just-decoded samples to the output sink.
    WriteToSink,
    /// Ask the controller to advance to the next song.
    RequestNextSong,
}

/// What the load phase produced on success: the track's frame count, its time
/// base as a rational number of seconds per frame, and its quality.
#[derive(Debug, Clone, Copy)]
pub struct TrackInfo {
    pub n_frames: u64,
    pub tb_num: u32,
    pub tb_den: u32,
    pub quality: AudioQuality,
}

/// Why the load phase failed. Every variant is terminal for the song and
/// non-retried; the playlist advances afterwards.
#[derive(Debug, Clone, Copy, PartialEq, Eq, Structural)]
pub enum LoadFailure {
    /// The source could not be opened or read.
    OpenFailed,
    /// The container format was not recognized.
    ProbeFailed,
    /// The container holds no decodable default track.
    NoDefaultTrack,
    /// No decoder accepts the default track's codec.
    NoDecoder,
}

/// Why reading the next packet from the container failed.
#[derive(Debug, Clone, Copy, PartialEq, Eq, Structural)]
pub enum ReadFailure {
    /// A transient would-block condition; the read is retried silently.
    WouldBlock,
    /// Any other I/O failure; terminal for the song.
    Io,
    /// Any other container-level failure; terminal for the song.
    Other,
}

/// What one attempt to read the next packet produced.
#[derive(Debug, Clone, Copy)]
pub enum PacketReadOutcome {
    /// A packet with the given timestamp in time-base units.
    Packet { ts: u64 },
    /// The normal end of the stream; the playlist advances.
    EndOfStream,
    /// The read failed as described.
    Failed { failure: ReadFailure },
}

/// The timestamp `ts`, counted in time-base units of `tb_num / tb_den`
/// seconds each, converted to whole milliseconds (rounded down).
pub open spec fn scaled_ms(ts: u64, tb_num: u32, tb_den: u32) -> int {
    (ts * tb_num * 1000) / (tb_den as int)
}

/// The message text reported when the load phase fails.
pub open spec fn load_failure_text(f: LoadFailure) -> Seq<char> {
    match f {
        LoadFailure::OpenFailed => "cannot open the audio source"@,
        LoadFailure::ProbeFailed => "cannot probe the audio format"@,
        LoadFailure::NoDefaultTrack => "no decodable default track"@,
        LoadFailure::NoDecoder => "no decoder accepts this track"@,
    }
}

/// The message text reported when reading a packet fails terminally.
pub open spec fn read_failure_text(f: ReadFailure) -> Seq<char> {
    match f {
        ReadFailure::WouldBlock => Seq::empty(),
        ReadFailure::Io => "io error while reading a packet"@,
        ReadFailure::Other => "error while reading a packet"@,
    }
}

/// The message text reported when the decoder fails at the stream level.
pub open spec fn decode_failure_text() -> Seq<char> {
    "codec error while decoding"@
}

/// The message text reported when the task's control channel is gone.
pub open spec fn channel_closed_text() -> Seq<char> {
    "control channel disconnected"@
}

/// One per-song decode task, as a state machine over the decisions the task
/// takes; the blocking work between the decisions stays with the caller.
pub struct PlayTask {
    pub music_id: String,
    pub state: PlayState,
    pub last_position_ms: u64,
    pub duration_ms: u64,
    pub tb_num: u32,
    pub tb_den: u32,
}

/// The task state after one transport command was applied.
///
/// A seek moves the decode position to the seek target in either live state
/// and resumes nothing; a pause only pauses a playing task; a resume only
/// resumes a paused one.
pub open spec fn state_after_control(t: PlayTask, cmd: TaskCommand) -> PlayTask {
    match cmd {
        TaskCommand::Seek { position_ms } => PlayTask { last_position_ms: position_ms, ..t },
        TaskCommand::Pause => if t.state == PlayState::Playing {
            PlayTask { state: PlayState::Paused, ..t }
        } else {
            t
        },
        TaskCommand::Resume => if t.state == PlayState::Paused {
            PlayTask { state: PlayState::Playing, ..t }
        } else {
            t
        },
    }
}

/// The effects one transport command asks for: a seek is performed and its
/// target published immediately, without waiting for the next decoded packet;
/// a pause publishes the position playback stopped at; a resume asks nothing.
pub open spec fn control_effects(t: PlayTask, cmd: TaskCommand) -> Seq<TaskEffect> {
    match cmd {
        TaskCommand::Seek { position_ms } => seq![
            (TaskEffect::DoSeek { position_ms }),
            (TaskEffect::PublishSnapshot { is_playing: false, position_ms }),
            (TaskEffect::SetSharedPosition { position_ms }),
        ],
        TaskCommand::Pause => if t.state == PlayState::Playing {
            seq![
                (TaskEffect::PublishSnapshot {
                    is_playing: false,
                    position_ms: t.last_position_ms,
                }),
            ]
        } else {
            Seq::empty()
        },
        TaskCommand::Resume => Seq::empty(),
    }
}

/// The task state after a whole run of transport commands, applied in order.
pub open spec fn state_after_controls(t: PlayTask, cmds: Seq<TaskCommand>) -> PlayTask
    decreases cmds.len(),
{
    if cmds.len() == 0 {
        t
    } else {
        state_after_controls(state_after_control(t, cmds[0]), cmds.skip(1))
    }
}

/// Law: a run of transport commands that contains no seek — pauses and
/// resumes in any order and number — leaves the decode position exactly
/// where it was: the position never rewinds, and only an explicit seek can
/// move it.
pub proof fn lemma_no_seek_keeps_position(t: PlayTask, cmds: Seq<TaskCommand>)
    requires
        forall|i: int|
            0 <= i < cmds.len() ==> !(#[trigger] cmds[i] matches TaskCommand::Seek { .. }),
    ensures
        state_after_controls(t, cmds).last_position_ms == t.last_position_ms,
    decreases cmds.len(),
{
    if cmds.len() > 0 {
        let rest = cmds.skip(1);
        assert forall|i: int|
            0 <= i < rest.len() implies !(#[trigger] rest[i] matches TaskCommand::Seek {
            ..
        }) by {
            assert(rest[i] == cmds[i + 1]);
        }
        lemma_no_seek_keeps_position(state_after_control(t, cmds[0]), rest);
    }
}

/// Law: a pause followed by a resume puts the task back in the playing state
/// with the decode position exactly where it was, so the position never
/// rewinds across the round trip; a seek between them is the one command that
/// moves the position, to its explicit target.
pub proof fn lemma_pause_resume_keeps_position(t: PlayTask, p: u64)
    requires
        t.state == PlayState::Playing,
    ensures
        state_after_control(state_after_control(t, TaskCommand::Pause), TaskCommand::Resume)
            == (PlayTask { state: PlayState::Playing, ..t }),
        state_after_control(
            state_after_control(
                state_after_control(t, TaskCommand::Pause),
                TaskCommand::Seek { position_ms: p },
            ),
            TaskCommand::Resume,
        ).last_position_ms == p,
{
}

impl PlayTask {
    /// Well-formedness: the time base denominator is never zero.
    pub open spec fn wf(self) -> bool {
        self.tb_den > 0
    }

    /// Spawns the task for one song: it starts loading and announces that.
    pub fn start(music_id: String) -> (r: (PlayTask, Vec<TaskEffect>))
        ensures
            r.0.wf(),
            r.0.music_id == music_id,
            r.0.state == PlayState::Loading,
            r.0.last_position_ms == 0,
            r.0.duration_ms == 0,
            r.1@ =~= seq![
                (TaskEffect::Emit {
                    event: AudioThreadEvent::LoadingAudio { music_id },
                }),
            ],
    {
        let id_for_event = music_id.clone();
        let task = PlayTask {
            music_id,
            state: PlayState::Loading,
            last_position_ms: 0,
            duration_ms: 0,
            tb_num: 0,
            tb_den: 1,
        };
        let mut effects: Vec<TaskEffect> = Vec::new();
        effects.push(TaskEffect::Emit {
            event: AudioThreadEvent::LoadingAudio { music_id: id_for_event },
        });
        (task, effects)
    }

    /// Applies the outcome of the load phase.
    ///
    /// On success the task computes the song's duration from the frame count
    /// and time base, enters the playing state and announces the loaded
    /// audio, the play status and the duration, then seeds the position
    /// tracker at zero. On failure the task is finished: it reports exactly
    /// one load error and asks for exactly one advance to the next song, and
    /// announces nothing else for this file.
    pub fn on_load_result(&mut self, outcome: Result<TrackInfo, LoadFailure>) -> (effects: Vec<
        TaskEffect,
    >)
        requires
            old(self).wf(),
            old(self).state == PlayState::Loading,
            outcome matches Ok(t) ==> t.tb_den > 0 && scaled_ms(t.n_frames, t.tb_num, t.tb_den)
                <= u64::MAX,
        ensures
            final(self).wf(),
            final(self).music_id == old(self).music_id,
            match outcome {
                Ok(t) => {
                    let d = scaled_ms(t.n_frames, t.tb_num, t.tb_den);
                    &&& *final(self) == (PlayTask {
                        state: PlayState::Playing,
                        last_position_ms: 0u64,
                        duration_ms: d as u64,
                        tb_num: t.tb_num,
                        tb_den: t.tb_den,
                        ..*old(self)
                    })
                    &&& effects@ =~= seq![
                        (TaskEffect::SetSharedDuration { duration_ms: d as u64 }),
                        (TaskEffect::Emit {
                            event: AudioThreadEvent::LoadAudio {
                                music_id: old(self).music_id,
                                duration_ms: d as u64,
                                quality: t.quality,
                            },
                        }),
                        (TaskEffect::Emit {
                            event: AudioThreadEvent::PlayStatus { is_playing: true },
                        }),
                        (TaskEffect::Emit {
                            event: AudioThreadEvent::SetDuration { duration_ms: d as u64 },
                        }),
                        (TaskEffect::PublishSnapshot { is_playing: false, position_ms: 0u64 }),
                    ]
                },
                Err(f) => {
                    &&& *final(self) == (PlayTask { state: PlayState::Finished, ..*old(self) })
                    &&& effects@.len() == 2
                    &&& effects@[0] matches TaskEffect::Emit {
                        event: AudioThreadEvent::LoadError { message },
                    } && message@ == load_failure_text(f)
                    &&& effects@[1] == TaskEffect::RequestNextSong
                },
            },
    {
        match outcome {
            Ok(t) => {
                let d = calc_time_ms(t.n_frames, t.tb_num, t.tb_den);
                self.state = PlayState::Playing;
                self.last_position_ms = 0;
                self.duration_ms = d;
                self.tb_num = t.tb_num;
                self.tb_den = t.tb_den;
                let mut effects: Vec<TaskEffect> = Vec::new();
                effects.push(TaskEffect::SetSharedDuration { duration_ms: d });
                effects.push(TaskEffect::Emit {
                    event: AudioThreadEvent::LoadAudio {
                        music_id: self.music_id.clone(),
                        duration_ms: d,
                        quality: t.quality,
                    },
                });
                effects.push(TaskEffect::Emit {
                    event: AudioThreadEvent::PlayStatus { is_playing: true },
                });
                effects.push(TaskEffect::Emit {
                    event: AudioThreadEvent::SetDuration { duration_ms: d },
                });
                effects.push(TaskEffect::PublishSnapshot { is_playing: false, position_ms: 0 });
                effects
            },
            Err(f) => {
                self.state = PlayState::Finished;
                let message = match f {
                    LoadFailure::OpenFailed => String::from_str("cannot open the audio source"),
                    LoadFailure::ProbeFailed => String::from_str("cannot probe the audio format"),
                    LoadFailure::NoDefaultTrack => String::from_str("no decodable default track"),
                    LoadFailure::NoDecoder => String::from_str("no decoder accepts this track"),
                };
                let mut effects: Vec<TaskEffect> = Vec::new();
                effects.push(TaskEffect::Emit {
                    event: AudioThreadEvent::LoadError { message },
                });
                effects.push(TaskEffect::RequestNextSong);
                effects
            },
        }
    }

    /// Applies one transport command in a live state.
    pub fn on_control(&mut self, cmd: TaskCommand) -> (effects: Vec<TaskEffect>)
        requires
            old(self).state == PlayState::Playing || old(self).state == PlayState::Paused,
        ensures
            *final(self) == state_after_control(*old(self), cmd),
            effects@ =~= control_effects(*old(self), cmd),
    {
        match cmd {
            TaskCommand::Seek { position_ms } => {
                self.last_position_ms = position_ms;
                let mut effects: Vec<TaskEffect> = Vec::new();
                effects.push(TaskEffect::DoSeek { position_ms });
                effects.push(TaskEffect::PublishSnapshot { is_playing: false, position_ms });
                effects.push(TaskEffect::SetSharedPosition { position_ms });
                effects
            },
            TaskCommand::Pause => {
                let mut effects: Vec<TaskEffect> = Vec::new();
                if matches!(self.state, PlayState::Playing) {
                    self.state = PlayState::Paused;
                    effects.push(TaskEffect::PublishSnapshot {
                        is_playing: false,
                        position_ms: self.last_position_ms,
                    });
                }
                effects
            },
            TaskCommand::Resume => {
                if matches!(self.state, PlayState::Paused) {
                    self.state = PlayState::Playing;
                }
                Vec::new()
            },
        }
    }

    /// Applies the outcome of one attempt to read the next packet while
    /// playing.
    ///
    /// A packet leaves the task unchanged, ready to decode it. End of stream
    /// is the normal terminal condition: the task finishes and the playlist
    /// advances, with no error reported. A would-block condition is retried
    /// silently. Any other read failure finishes the task with exactly one
    /// load error and exactly one advance.
    pub fn on_packet_read(&mut self, outcome: PacketReadOutcome) -> (effects: Vec<TaskEffect>)
        requires
            old(self).state == PlayState::Playing,
        ensures
            final(self).music_id == old(self).music_id,
            match outcome {
                PacketReadOutcome::Packet { .. } => {
                    &&& *final(self) == *old(self)
                    &&& effects@ =~= Seq::<TaskEffect>::empty()
                },
                PacketReadOutcome::EndOfStream => {
                    &&& *final(self) == (PlayTask { state: PlayState::Finished, ..*old(self) })
                    &&& effects@ =~= seq![TaskEffect::RequestNextSong]
                },
                PacketReadOutcome::Failed { failure } => {
                    if failure == ReadFailure::WouldBlock {
                        &&& *final(self) == *old(self)
                        &&& effects@ =~= Seq::<TaskEffect>::empty()
                    } else {
                        &&& *final(self) == (PlayTask {
                            state: PlayState::Finished,
                            ..*old(self)
                        })
                        &&& effects@.len() == 2
                        &&& effects@[0] matches TaskEffect::Emit {
                            event: AudioThreadEvent::LoadError { message },
                        } && message@ == read_failure_text(failure)
                        &&& effects@[1] == TaskEffect::RequestNextSong
                    }
                },
            },
    {
        match outcome {
            PacketReadOutcome::Packet { .. } => Vec::new(),
            PacketReadOutcome::EndOfStream => {
                self.state = PlayState::Finished;
                let mut effects: Vec<TaskEffect> = Vec::new();
                effects.push(TaskEffect::RequestNextSong);
                effects
            },
            PacketReadOutcome::Failed { failure } => {
                match failure {
                    ReadFailure::WouldBlock => Vec::new(),
                    ReadFailure::Io => {
                        self.state = PlayState::Finished;
                        let mut effects: Vec<TaskEffect> = Vec::new();
                        effects.push(TaskEffect::Emit {
                            event: AudioThreadEvent::LoadError {
                                message: String::from_str("io error while reading a packet"),
                            },
                        });
                        effects.push(TaskEffect::RequestNextSong);
                        effects
                    },
                    ReadFailure::Other => {
                        self.state = PlayState::Finished;
                        let mut effects: Vec<TaskEffect> = Vec::new();
                        effects.push(TaskEffect::Emit {
                            event: AudioThreadEvent::LoadError {
                                message: String::from_str("error while reading a packet"),
                            },
                        });
                        effects.push(TaskEffect::RequestNextSong);
                        effects
                    },
                }
            },
        }
    }

    /// Applies one successfully decoded packet: the decode position moves to
    /// the packet's timestamp, the shared position follows, the playing
    /// snapshot is published to the position tracker, and the samples go to
    /// the sink. Only the feed into the spectral sample buffer is gated on an
    /// open observer window, purely to avoid wasted work when nothing is
    /// visualizing.
    pub fn on_packet_decoded(&mut self, ts: u64, windows_active: bool) -> (effects: Vec<
        TaskEffect,
    >)
        requires
            old(self).state == PlayState::Playing,
            old(self).wf(),
            scaled_ms(ts, old(self).tb_num, old(self).tb_den) <= u64::MAX,
        ensures
            ({
                let p = scaled_ms(ts, old(self).tb_num, old(self).tb_den) as u64;
                &&& *final(self) == (PlayTask { last_position_ms: p, ..*old(self) })
                &&& effects@ =~= (if windows_active {
                    seq![
                        (TaskEffect::SetSharedPosition { position_ms: p }),
                        (TaskEffect::PublishSnapshot { is_playing: true, position_ms: p }),
                        (TaskEffect::PushFftSamples),
                        (TaskEffect::WriteToSink),
                    ]
                } else {
                    seq![
                        (TaskEffect::SetSharedPosition { position_ms: p }),
                        (TaskEffect::PublishSnapshot { is_playing: true, position_ms: p }),
                        (TaskEffect::WriteToSink),
                    ]
                })
            }),
    {
        let p = calc_time_ms(ts, self.tb_num, self.tb_den);
        self.last_position_ms = p;
        let mut effects: Vec<TaskEffect> = Vec::new();
        effects.push(TaskEffect::SetSharedPosition { position_ms: p });
        effects.push(TaskEffect::PublishSnapshot { is_playing: true, position_ms: p });
        if windows_active {
            effects.push(TaskEffect::PushFftSamples);
        }
        effects.push(TaskEffect::WriteToSink);
        effects
    }

    /// Applies a decode failure for one packet. A packet-level decode error
    /// is skipped and playback continues; a codec-internal stream error
    /// finishes the task with exactly one load error and exactly one advance.
    pub fn on_decode_error(&mut self, fatal: bool) -> (effects: Vec<TaskEffect>)
        requires
            old(self).state == PlayState::Playing,
        ensures
            if fatal {
                &&& *final(self) == (PlayTask { state: PlayState::Finished, ..*old(self) })
                &&& effects@.len() == 2
                &&& effects@[0] matches TaskEffect::Emit {
                    event: AudioThreadEvent::LoadError { message },
                } && message@ == decode_failure_text()
                &&& effects@[1] == TaskEffect::RequestNextSong
            } else {
                &&& *final(self) == *old(self)
                &&& effects@ =~= Seq::<TaskEffect>::empty()
            },
    {
        if fatal {
            self.state = PlayState::Finished;
            let mut effects: Vec<TaskEffect> = Vec::new();
            effects.push(TaskEffect::Emit {
                event: AudioThreadEvent::LoadError {
                    message: String::from_str("codec error while decoding"),
                },
            });
            effects.push(TaskEffect::RequestNextSong);
            effects
        } else {
            Vec::new()
        }
    }

    /// Applies the loss of the task's control channel: an abnormal stop,
    /// terminal for the task, reported once and followed by one advance.
    pub fn on_control_channel_closed(&mut self) -> (effects: Vec<TaskEffect>)
        requires
            old(self).state == PlayState::Playing || old(self).state == PlayState::Paused,
        ensures
            *final(self) == (PlayTask { state: PlayState::Finished, ..*old(self) }),
            effects@.len() == 2,
            effects@[0] matches TaskEffect::Emit {
                event: AudioThreadEvent::LoadError { message },
            } && message@ == channel_closed_text(),
            effects@[1] == TaskEffect::RequestNextSong,
    {
        self.state = PlayState::Finished;
        let mut effects: Vec<TaskEffect> = Vec::new();
        effects.push(TaskEffect::Emit {
            event: AudioThreadEvent::LoadError {
                message: String::from_str("control channel disconnected"),
            },
        });
        effects.push(TaskEffect::RequestNextSong);
        effects
    }
}

/// Converts a timestamp in time-base units to whole milliseconds: `ts` units
/// of `tb_num / tb_den` seconds each, rounded down to the millisecond.
pub fn calc_time_ms(ts: u64, tb_num: u32, tb_den: u32) -> (r: u64)
    requires
        tb_den > 0,
        scaled_ms(ts, tb_num, tb_den) <= u64::MAX,
    ensures
        r == scaled_ms(ts, tb_num, tb_den),
{
    proof {
        assert((ts as int) * (tb_num as int) * 1000 <= 0xFFFF_FFFF_FFFF_FFFF * 0xFFFF_FFFF
            * 1000) by (nonlinear_arith)
            requires
                ts as int <= 0xFFFF_FFFF_FFFF_FFFF,
                tb_num as int <= 0xFFFF_FFFF,
        ;
    }
    let prod: u128 = (ts as u128) * (tb_num as u128) * 1000;
    let q: u128 = prod / (tb_den as u128);
    q as u64
}

} // verus!
