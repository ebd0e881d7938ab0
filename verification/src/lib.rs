//! The decision core of an audio playback engine.
//!
//! Playback is run by a small set of cooperating tasks: a controller that
//! owns the playlist, volume and play flag and answers control messages; one
//! decode task per song that loads, decodes and paces the audio; a position
//! tracker that smooths the decode task's sparse position snapshots into a
//! continuous readout; and a sample buffer feeding the spectral display.
//!
//! This crate holds the decisions those tasks take, as verified state
//! machines over plain values: positions in milliseconds, volumes in
//! thousandths of full scale. Every step returns the effects the caller must
//! perform — channel sends, blocking codec work, sink writes — so the
//! blocking and concurrent parts stay outside while everything the engine
//! decides is proved against its contract.

pub mod fft_player;
pub mod messages;
pub mod metadata;
pub mod play_task;
pub mod player;
pub mod song;
pub mod tracker;
