//! The audio sink abstraction: one hardware output channel with a queue of
//! decoded sources, and a deterministic in-memory model of it for tests.

use vstd::prelude::*;
use crate::engine::AudioInfo;

verus! {

/// Why the sink could not enqueue a source.
#[derive(Debug, Clone, Copy, PartialEq, Eq, Structural)]
pub enum SinkError {
    /// The source could not be demuxed or decoded.
    Decode,
    /// The source could not be opened or read.
    Io,
}

/// Outcome of an in-place seek attempt on the sink.
#[derive(Debug, Clone, Copy, PartialEq, Eq, Structural)]
pub enum SeekOutcome {
    /// The sink repositioned the current source in place.
    Done,
    /// The decoder cannot seek this format in place.
    NotSupported,
    /// The decoder supports seeking but the attempt failed.
    Failed,
}

/// One hardware output channel plus its decode/playback queue.
///
/// The engine relies only on what is stated here. Filling the queue is
/// asynchronous relative to the caller: `append_source` does not promise that
/// `queued` has grown by the time it returns, so callers confirm readiness
/// through `poll_nonempty`, which may wait a short, bounded interval before
/// checking. Transport and parameter changes never alter what is queued.
pub trait AudioSink: Sized {
    /// How many sources are queued, the one being played included.
    spec fn queued(&self) -> nat;

    /// Stop playback and discard everything queued.
    fn drain(&mut self)
        ensures
            final(self).queued() == 0,
    ;

    /// Whether nothing remains queued or playing.
    fn empty(&self) -> (r: bool)
        ensures
            r <==> self.queued() == 0,
    ;

    /// Open, decode and enqueue the source at `path`, skipping the first
    /// `skip_seconds` seconds of decoded audio. Does not block on playback;
    /// the queue may report the new source only after a later poll.
    fn append_source(&mut self, path: &str, skip_seconds: u64) -> (r: Result<(), SinkError>)
        ensures
            r is Err ==> final(self).queued() == old(self).queued(),
    ;

    /// One bounded readiness check: report whether anything is queued now,
    /// possibly after waiting one short, capped interval.
    fn poll_nonempty(&mut self) -> (r: bool)
        ensures
            r <==> final(self).queued() > 0,
    ;

    /// Resume or start playback of whatever is queued.
    fn play(&mut self)
        ensures
            final(self).queued() == old(self).queued(),
    ;

    /// Halt playback without discarding the queue.
    fn pause(&mut self)
        ensures
            final(self).queued() == old(self).queued(),
    ;

    /// Apply an already clamped volume, in hundredths of full scale.
    fn set_volume(&mut self, volume_hundredths: u32)
        ensures
            final(self).queued() == old(self).queued(),
    ;

    /// Apply an already clamped playback rate, in hundredths of real time.
    fn set_speed(&mut self, speed_hundredths: u32)
        ensures
            final(self).queued() == old(self).queued(),
    ;

    /// Try to reposition the current source in place.
    fn try_seek(&mut self, position_seconds: u64) -> (r: SeekOutcome)
        ensures
            final(self).queued() == old(self).queued(),
    ;

    /// Best-effort metadata for the source at `path`; `None` when extraction
    /// fails, which never prevents a load.
    fn probe_info(&mut self, path: &str) -> (r: Option<AudioInfo>)
        ensures
            final(self).queued() == old(self).queued(),
    ;
}

/// A deterministic, purely in-memory sink: it counts queued sources and
/// records the transport state, so engine behaviour can be exercised without
/// an audio device. Decoding success and in-place seek support are
/// configurable to drive the engine down each of its paths.
pub struct SimSink {
    queued_count: u64,
    playing: bool,
    volume_hundredths: u32,
    speed_hundredths: u32,
    native_seek: bool,
    decode_ok: bool,
    decode_budget: Option<u64>,
    info: Option<AudioInfo>,
}

impl SimSink {
    pub closed spec fn spec_playing(&self) -> bool {
        self.playing
    }

    pub closed spec fn spec_volume(&self) -> u32 {
        self.volume_hundredths
    }

    pub closed spec fn spec_speed(&self) -> u32 {
        self.speed_hundredths
    }

    pub closed spec fn spec_native_seek(&self) -> bool {
        self.native_seek
    }

    pub closed spec fn spec_decode_ok(&self) -> bool {
        self.decode_ok
    }

    pub fn new() -> (r: SimSink)
        ensures
            r.queued() == 0,
            !r.spec_playing(),
            r.spec_volume() == 100,
            r.spec_speed() == 100,
            r.spec_native_seek(),
            r.spec_decode_ok(),
    {
        SimSink {
            queued_count: 0,
            playing: false,
            volume_hundredths: 100,
            speed_hundredths: 100,
            native_seek: true,
            decode_ok: true,
            decode_budget: None,
            info: None,
        }
    }

    /// Choose whether `try_seek` reports in-place seeking as supported.
    pub fn set_native_seek(&mut self, on: bool)
        ensures
            final(self).spec_native_seek() == on,
            final(self).queued() == old(self).queued(),
            final(self).spec_decode_ok() == old(self).spec_decode_ok(),
    {
        self.native_seek = on;
    }

    /// Choose whether `append_source` succeeds.
    pub fn set_decode_ok(&mut self, on: bool)
        ensures
            final(self).spec_decode_ok() == on,
            final(self).queued() == old(self).queued(),
            final(self).spec_native_seek() == old(self).spec_native_seek(),
    {
        self.decode_ok = on;
    }

    /// Let only the next `n` decodes succeed; later ones fail.
    pub fn set_decode_budget(&mut self, n: u64)
        ensures
            final(self).queued() == old(self).queued(),
            final(self).spec_native_seek() == old(self).spec_native_seek(),
    {
        self.decode_budget = Some(n);
    }

    /// Choose what `probe_info` reports.
    pub fn set_probe_result(&mut self, info: Option<AudioInfo>)
        ensures
            final(self).queued() == old(self).queued(),
            final(self).spec_native_seek() == old(self).spec_native_seek(),
            final(self).spec_decode_ok() == old(self).spec_decode_ok(),
    {
        self.info = info;
    }

    /// Whether the transport is currently running.
    pub fn is_playing(&self) -> (r: bool)
        ensures
            r == self.spec_playing(),
    {
        self.playing
    }
}

impl AudioSink for SimSink {
    closed spec fn queued(&self) -> nat {
        self.queued_count as nat
    }

    fn drain(&mut self) {
        self.queued_count = 0;
        self.playing = false;
    }

    fn empty(&self) -> (r: bool) {
        self.queued_count == 0
    }

    fn append_source(&mut self, path: &str, skip_seconds: u64) -> (r: Result<(), SinkError>) {
        if !self.decode_ok {
            return Err(SinkError::Decode);
        }
        match self.decode_budget {
            Some(n) => {
                if n == 0 {
                    return Err(SinkError::Decode);
                }
                self.decode_budget = Some(n - 1);
            },
            None => {},
        }
        if self.queued_count < u64::MAX {
            self.queued_count = self.queued_count + 1;
        }
        Ok(())
    }

    fn poll_nonempty(&mut self) -> (r: bool) {
        self.queued_count > 0
    }

    fn play(&mut self) {
        self.playing = true;
    }

    fn pause(&mut self) {
        self.playing = false;
    }

    fn set_volume(&mut self, volume_hundredths: u32) {
        self.volume_hundredths = volume_hundredths;
    }

    fn set_speed(&mut self, speed_hundredths: u32) {
        self.speed_hundredths = speed_hundredths;
    }

    fn try_seek(&mut self, position_seconds: u64) -> (r: SeekOutcome) {
        if self.native_seek && self.queued_count > 0 {
            SeekOutcome::Done
        } else {
            SeekOutcome::NotSupported
        }
    }

    fn probe_info(&mut self, path: &str) -> (r: Option<AudioInfo>) {
        match &self.info {
            Some(i) => Some(i.duplicate()),
            None => None,
        }
    }
}

} // verus!
