//! The audio playback engine: transport state machine and synthetic position
//! clock over one audio sink.
//!
//! The engine never trusts the sink's own position reporting. Instead it
//! keeps a synthetic clock — segment start, pause mark, paused time, scaled
//! progress of earlier segments, and the seek baseline — and computes the
//! playback position from that clock and the current speed alone. All times
//! are taken as explicit millisecond arguments, so the whole clock is a pure
//! function of the calls made on it; the hosting layer supplies wall-clock
//! readings and is expected to serialize operations and hand in
//! non-decreasing times, as a single monotone clock does.

use vstd::prelude::*;
use crate::sink::{AudioSink, SeekOutcome, SinkError};

verus! {

/// Transport state; exactly one per engine, changed only by engine calls.
#[derive(Debug, Clone, Copy, PartialEq, Eq, Structural)]
pub enum PlaybackState {
    Stopped,
    Playing,
    Paused,
}

/// Errors of the fallible engine operations. Pause, stop, volume and speed
/// are total and never fail.
#[derive(Debug, Clone, Copy, PartialEq, Eq, Structural)]
pub enum EngineError {
    /// Play or seek was attempted with nothing loaded.
    NoFileLoaded,
    /// The sink never reported content within the bounded retry budget.
    LoadTimeout,
    /// The source could not be demuxed or decoded.
    DecodeFailed,
    /// Both the native and the reload seek paths failed.
    SeekFailed,
    /// The source could not be opened or read.
    IoFailed,
}

/// Read-only metadata about a loaded source, extracted once per load,
/// best-effort: a failed extraction degrades to `defaults()`.
#[derive(Debug, Clone)]
pub struct AudioInfo {
    pub title: Option<String>,
    pub artist: Option<String>,
    pub album: Option<String>,
    /// Duration in seconds.
    pub duration: Option<u64>,
    pub file_size: u64,
    pub sample_rate: Option<u32>,
    pub channels: Option<u16>,
    pub bitrate: Option<u32>,
}

/// View of an optional string, for contracts that compare copies.
pub open spec fn opt_string_view(o: Option<String>) -> Option<Seq<char>> {
    match o {
        Some(s) => Some(s@),
        None => None,
    }
}

/// Field-by-field view equality of two metadata records.
pub open spec fn audio_info_like(a: AudioInfo, b: AudioInfo) -> bool {
    &&& opt_string_view(a.title) == opt_string_view(b.title)
    &&& opt_string_view(a.artist) == opt_string_view(b.artist)
    &&& opt_string_view(a.album) == opt_string_view(b.album)
    &&& a.duration == b.duration
    &&& a.file_size == b.file_size
    &&& a.sample_rate == b.sample_rate
    &&& a.channels == b.channels
    &&& a.bitrate == b.bitrate
}

impl AudioInfo {
    /// The degraded record used when extraction fails.
    pub fn defaults() -> (r: AudioInfo)
        ensures
            r.title is None,
            r.artist is None,
            r.album is None,
            r.duration is None,
            r.file_size == 0,
            r.sample_rate is None,
            r.channels is None,
            r.bitrate is None,
    {
        AudioInfo {
            title: None,
            artist: None,
            album: None,
            duration: None,
            file_size: 0,
            sample_rate: None,
            channels: None,
            bitrate: None,
        }
    }

    /// A copy equal to `self` field by field.
    pub fn duplicate(&self) -> (r: AudioInfo)
        ensures
            audio_info_like(r, *self),
    {
        AudioInfo {
            title: match &self.title {
                Some(s) => Some(s.clone()),
                None => None,
            },
            artist: match &self.artist {
                Some(s) => Some(s.clone()),
                None => None,
            },
            album: match &self.album {
                Some(s) => Some(s.clone()),
                None => None,
            },
            duration: self.duration,
            file_size: self.file_size,
            sample_rate: self.sample_rate,
            channels: self.channels,
            bitrate: self.bitrate,
        }
    }
}

/// A read-only snapshot of the engine. Volume and speed are in hundredths:
/// full volume is 100, real-time speed is 100.
#[derive(Debug, Clone)]
pub struct PlaybackStatus {
    pub state: PlaybackState,
    /// Position in seconds.
    pub position: u64,
    /// Duration in seconds, when known.
    pub duration: Option<u64>,
    pub volume: u32,
    pub speed: u32,
    pub current_file: Option<String>,
}

/// The synthetic clock: everything the position computation reads.
///
/// `start_time_ms` is the wall-clock start of the current playback segment
/// (`None` before the first play and while stopped). `pause_time_ms` is set
/// exactly while paused. `paused_ms` accumulates time spent paused within the
/// current segment. `scaled_ms` carries the speed-scaled progress of earlier
/// segments, folded in whenever the speed changes. `seek_offset_secs` is the
/// baseline set by the most recent seek or load.
#[derive(Debug, Clone, Copy)]
pub struct SyntheticClock {
    pub start_time_ms: Option<u64>,
    pub pause_time_ms: Option<u64>,
    pub paused_ms: u64,
    pub scaled_ms: u64,
    pub seek_offset_secs: u64,
}

/// Subtraction on u64 that bottoms out at zero.
pub open spec fn sat_sub64(a: u64, b: u64) -> u64 {
    if a >= b {
        (a - b) as u64
    } else {
        0u64
    }
}

/// Addition on u64 that tops out at `u64::MAX`.
pub open spec fn sat_add64(a: u64, b: u64) -> u64 {
    if a + b <= u64::MAX {
        (a + b) as u64
    } else {
        u64::MAX
    }
}

/// The clock as a load or a stop leaves it.
pub open spec fn clock_zero() -> SyntheticClock {
    SyntheticClock {
        start_time_ms: None,
        pause_time_ms: None,
        paused_ms: 0,
        scaled_ms: 0,
        seek_offset_secs: 0,
    }
}

/// Wall-clock time covered by the current segment: up to the pause mark when
/// paused, up to `now_ms` otherwise; zero before the segment started.
pub open spec fn spec_elapsed_ms(c: SyntheticClock, now_ms: u64) -> u64 {
    match c.start_time_ms {
        Some(s) => match c.pause_time_ms {
            Some(p) => sat_sub64(p, s),
            None => sat_sub64(now_ms, s),
        },
        None => 0u64,
    }
}

/// Elapsed time of the current segment with the paused share removed.
pub open spec fn spec_active_ms(c: SyntheticClock, now_ms: u64) -> u64 {
    sat_sub64(spec_elapsed_ms(c, now_ms), c.paused_ms)
}

/// Active time of one segment scaled by its playback speed (hundredths).
pub open spec fn spec_segment_scaled_ms(active_ms: u64, speed_hundredths: u32) -> int {
    (active_ms * speed_hundredths) / 100
}

/// Scaled progress of the whole playback: earlier segments plus the current
/// one at the current speed, saturating at `u64::MAX` milliseconds.
pub open spec fn spec_total_scaled_ms(c: SyntheticClock, speed_hundredths: u32, now_ms: u64) -> u64 {
    let seg = spec_segment_scaled_ms(spec_active_ms(c, now_ms), speed_hundredths);
    if c.scaled_ms + seg <= u64::MAX {
        (c.scaled_ms + seg) as u64
    } else {
        u64::MAX
    }
}

/// The playback position in whole seconds: the seek baseline plus the scaled
/// progress. Pure in the clock, the speed and the time; never reads the sink.
pub open spec fn spec_position(c: SyntheticClock, speed_hundredths: u32, now_ms: u64) -> u64 {
    sat_add64(c.seek_offset_secs, spec_total_scaled_ms(c, speed_hundredths, now_ms) / 1000)
}

/// The clock after `play` at `now_ms`: a pause ends and its span is added to
/// `paused_ms`; the segment start is set if this is the first play.
pub open spec fn spec_play_clock(c: SyntheticClock, now_ms: u64) -> SyntheticClock {
    SyntheticClock {
        start_time_ms: match c.start_time_ms {
            Some(s) => Some(s),
            None => Some(now_ms),
        },
        pause_time_ms: None,
        paused_ms: match c.pause_time_ms {
            Some(p) => sat_add64(c.paused_ms, sat_sub64(now_ms, p)),
            None => c.paused_ms,
        },
        scaled_ms: c.scaled_ms,
        seek_offset_secs: c.seek_offset_secs,
    }
}

/// The clock after `pause` at `now_ms`: only the pause mark moves.
pub open spec fn spec_pause_clock(c: SyntheticClock, now_ms: u64) -> SyntheticClock {
    SyntheticClock {
        start_time_ms: c.start_time_ms,
        pause_time_ms: Some(now_ms),
        paused_ms: c.paused_ms,
        scaled_ms: c.scaled_ms,
        seek_offset_secs: c.seek_offset_secs,
    }
}

/// The clock after a successful seek to `pos_secs` at `now_ms`, in the given
/// resulting transport state: the baseline moves to the target and the
/// segment restarts (or stays unstarted while stopped), so the position is
/// exactly `pos_secs` and stays frozen unless playing.
pub open spec fn spec_seek_clock(state: PlaybackState, pos_secs: u64, now_ms: u64) -> SyntheticClock {
    SyntheticClock {
        start_time_ms: if state is Stopped {
            None
        } else {
            Some(now_ms)
        },
        pause_time_ms: if state is Paused {
            Some(now_ms)
        } else {
            None
        },
        paused_ms: 0,
        scaled_ms: 0,
        seek_offset_secs: pos_secs,
    }
}

/// The clock after a speed change at `now_ms`: the progress of the segment so
/// far is folded into `scaled_ms` at the old speed and the segment restarts,
/// so earlier time is never rescaled by the new speed.
pub open spec fn spec_rebase_clock(c: SyntheticClock, old_speed_hundredths: u32, now_ms: u64) -> SyntheticClock {
    SyntheticClock {
        start_time_ms: if c.start_time_ms is Some {
            Some(now_ms)
        } else {
            None
        },
        pause_time_ms: if c.pause_time_ms is Some {
            Some(now_ms)
        } else {
            None
        },
        paused_ms: 0,
        scaled_ms: spec_total_scaled_ms(c, old_speed_hundredths, now_ms),
        seek_offset_secs: c.seek_offset_secs,
    }
}

/// Volume input clamped to [0, 100] hundredths; out-of-range values are
/// silently clamped, never rejected.
pub open spec fn spec_clamp_volume(v: i64) -> u32 {
    if v < 0 {
        0u32
    } else if v > 100 {
        100u32
    } else {
        v as u32
    }
}

/// Speed input clamped to [25, 400] hundredths.
pub open spec fn spec_clamp_speed(s: i64) -> u32 {
    if s < 25 {
        25u32
    } else if s > 400 {
        400u32
    } else {
        s as u32
    }
}

/// Seek target clamped to zero or more seconds.
pub open spec fn spec_clamp_seek(p: i64) -> u64 {
    if p < 0 {
        0u64
    } else {
        p as u64
    }
}

/// A clock with no carried progress and no active time reads exactly its
/// seek baseline, whatever the speed.
pub proof fn lemma_still_clock_position(c: SyntheticClock, speed_hundredths: u32, t: u64)
    requires
        c.scaled_ms == 0,
        spec_active_ms(c, t) == 0,
    ensures
        spec_position(c, speed_hundredths, t) == c.seek_offset_secs,
{
    assert(spec_segment_scaled_ms(0, speed_hundredths) == 0) by {
        assert(0u64 * speed_hundredths == 0) by (nonlinear_arith);
    }
    assert(spec_total_scaled_ms(c, speed_hundredths, t) == 0);
}

/// The engine: one sink, the identity of the loaded source, the transport
/// state, the clamped volume and speed, and the synthetic clock.
pub struct AudioEngine<S: AudioSink> {
    sink: S,
    current_file: Option<String>,
    current_audio_info: Option<AudioInfo>,
    state: PlaybackState,
    volume_hundredths: u32,
    speed_hundredths: u32,
    clock: SyntheticClock,
}

impl<S: AudioSink> AudioEngine<S> {
    pub closed spec fn spec_sink(&self) -> S {
        self.sink
    }

    pub closed spec fn spec_file(&self) -> Option<String> {
        self.current_file
    }

    pub closed spec fn spec_info(&self) -> Option<AudioInfo> {
        self.current_audio_info
    }

    pub closed spec fn spec_state(&self) -> PlaybackState {
        self.state
    }

    pub closed spec fn spec_volume(&self) -> u32 {
        self.volume_hundredths
    }

    pub closed spec fn spec_speed(&self) -> u32 {
        self.speed_hundredths
    }

    pub closed spec fn spec_clock(&self) -> SyntheticClock {
        self.clock
    }

    /// Validity: volume and speed are within their clamped ranges.
    pub open spec fn wf(&self) -> bool {
        &&& self.spec_volume() <= 100
        &&& 25 <= self.spec_speed() <= 400
    }

    /// Everything but the sink and the clock-and-state is unchanged.
    pub open spec fn parameters_preserved(pre: &Self, post: &Self) -> bool {
        &&& post.spec_volume() == pre.spec_volume()
        &&& post.spec_speed() == pre.spec_speed()
        &&& post.spec_file() == pre.spec_file()
        &&& post.spec_info() == pre.spec_info()
    }

    /// Transport and clock are unchanged.
    pub open spec fn transport_preserved(pre: &Self, post: &Self) -> bool {
        &&& post.spec_state() == pre.spec_state()
        &&& post.spec_clock() == pre.spec_clock()
    }

    /// A fresh engine around `sink`: stopped, nothing loaded, full volume,
    /// real-time speed, zero clock.
    pub fn new(sink: S) -> (r: Self)
        ensures
            r.wf(),
            r.spec_sink() == sink,
            r.spec_file() is None,
            r.spec_info() is None,
            r.spec_state() is Stopped,
            r.spec_volume() == 100,
            r.spec_speed() == 100,
            r.spec_clock() == clock_zero(),
    {
        AudioEngine {
            sink,
            current_file: None,
            current_audio_info: None,
            state: PlaybackState::Stopped,
            volume_hundredths: 100,
            speed_hundredths: 100,
            clock: SyntheticClock {
                start_time_ms: None,
                pause_time_ms: None,
                paused_ms: 0,
                scaled_ms: 0,
                seek_offset_secs: 0,
            },
        }
    }

    /// Poll the sink for content up to `attempts` times; reports exactly
    /// whether the sink ended up non-empty.
    fn wait_for_fill(sink: &mut S, attempts: u32) -> (r: bool)
        requires
            attempts >= 1,
        ensures
            r <==> final(sink).queued() > 0,
    {
        let mut i: u32 = 0;
        while i < attempts
            invariant
                i <= attempts,
                i > 0 ==> sink.queued() == 0,
            decreases attempts - i,
        {
            if sink.poll_nonempty() {
                return true;
            }
            i = i + 1;
        }
        false
    }

    /// Load the source at `path`: drain the sink, extract metadata
    /// best-effort, decode and enqueue the source, and wait — bounded — for
    /// the sink to confirm content. On success the engine is stopped with a
    /// zero clock, so the position is 0 whatever time is asked about. On any
    /// failure the engine's own state is exactly as before the call.
    pub fn load_file(&mut self, path: &str) -> (r: Result<(), EngineError>)
        ensures
            final(self).spec_volume() == old(self).spec_volume(),
            final(self).spec_speed() == old(self).spec_speed(),
            match r {
                Ok(()) => {
                    &&& final(self).spec_state() is Stopped
                    &&& final(self).spec_clock() == clock_zero()
                    &&& (final(self).spec_file() matches Some(f) && f@ == path@)
                    &&& final(self).spec_info() is Some
                    &&& final(self).spec_sink().queued() > 0
                    &&& forall|t: u64| spec_position(final(self).spec_clock(), final(self).spec_speed(), t) == 0
                },
                Err(e) => {
                    &&& (e is DecodeFailed || e is IoFailed || e is LoadTimeout)
                    &&& Self::transport_preserved(old(self), final(self))
                    &&& final(self).spec_file() == old(self).spec_file()
                    &&& final(self).spec_info() == old(self).spec_info()
                    &&& final(self).spec_sink().queued() == 0
                },
            },
    {
        self.sink.drain();
        let info = match self.sink.probe_info(path) {
            Some(i) => i,
            None => AudioInfo::defaults(),
        };
        match self.sink.append_source(path, 0) {
            Ok(()) => {},
            Err(SinkError::Decode) => {
                return Err(EngineError::DecodeFailed);
            },
            Err(SinkError::Io) => {
                return Err(EngineError::IoFailed);
            },
        }
        if !Self::wait_for_fill(&mut self.sink, 100) {
            return Err(EngineError::LoadTimeout);
        }
        self.current_file = Some(path.to_owned());
        self.current_audio_info = Some(info);
        self.state = PlaybackState::Stopped;
        self.clock = SyntheticClock {
            start_time_ms: None,
            pause_time_ms: None,
            paused_ms: 0,
            scaled_ms: 0,
            seek_offset_secs: 0,
        };
        proof {
            assert forall|t: u64| spec_position(self.spec_clock(), self.spec_speed(), t) == 0 by {
                lemma_still_clock_position(self.spec_clock(), self.spec_speed(), t);
            }
        }
        Ok(())
    }

    /// Start or resume playback at wall-clock `now_ms`. Fails with
    /// `NoFileLoaded` only when the sink held no content at the call — so a
    /// play on a non-empty sink always succeeds; a failed play changes
    /// nothing.
    pub fn play(&mut self, now_ms: u64) -> (r: Result<(), EngineError>)
        ensures
            Self::parameters_preserved(old(self), final(self)),
            match r {
                Ok(()) => {
                    &&& final(self).spec_state() is Playing
                    &&& final(self).spec_clock() == spec_play_clock(old(self).spec_clock(), now_ms)
                    &&& final(self).spec_sink().queued() > 0
                },
                Err(e) => {
                    &&& e is NoFileLoaded
                    &&& old(self).spec_sink().queued() == 0
                    &&& Self::transport_preserved(old(self), final(self))
                    &&& final(self).spec_sink().queued() == 0
                },
            },
    {
        if self.sink.empty() {
            if !self.sink.poll_nonempty() {
                return Err(EngineError::NoFileLoaded);
            }
        }
        self.sink.play();
        let c = self.clock;
        let new_paused: u64 = match c.pause_time_ms {
            Some(p) => {
                let gap: u64 = if now_ms >= p {
                    now_ms - p
                } else {
                    0
                };
                if c.paused_ms <= u64::MAX - gap {
                    c.paused_ms + gap
                } else {
                    u64::MAX
                }
            },
            None => c.paused_ms,
        };
        let new_start: Option<u64> = match c.start_time_ms {
            Some(s) => Some(s),
            None => Some(now_ms),
        };
        self.clock = SyntheticClock {
            start_time_ms: new_start,
            pause_time_ms: None,
            paused_ms: new_paused,
            scaled_ms: c.scaled_ms,
            seek_offset_secs: c.seek_offset_secs,
        };
        self.state = PlaybackState::Playing;
        Ok(())
    }

    /// Pause playback at wall-clock `now_ms`. Total: cannot fail.
    pub fn pause(&mut self, now_ms: u64)
        ensures
            Self::parameters_preserved(old(self), final(self)),
            final(self).spec_state() is Paused,
            final(self).spec_clock() == spec_pause_clock(old(self).spec_clock(), now_ms),
            final(self).spec_sink().queued() == old(self).spec_sink().queued(),
    {
        self.sink.pause();
        let c = self.clock;
        self.clock = SyntheticClock {
            start_time_ms: c.start_time_ms,
            pause_time_ms: Some(now_ms),
            paused_ms: c.paused_ms,
            scaled_ms: c.scaled_ms,
            seek_offset_secs: c.seek_offset_secs,
        };
        self.state = PlaybackState::Paused;
    }

    /// Stop playback, drain the sink and zero the whole clock, whatever the
    /// prior state: afterwards the position is 0 at every time. Total.
    pub fn stop(&mut self)
        ensures
            Self::parameters_preserved(old(self), final(self)),
            final(self).spec_state() is Stopped,
            final(self).spec_clock() == clock_zero(),
            final(self).spec_sink().queued() == 0,
            forall|t: u64| spec_position(final(self).spec_clock(), final(self).spec_speed(), t) == 0,
    {
        self.sink.drain();
        self.clock = SyntheticClock {
            start_time_ms: None,
            pause_time_ms: None,
            paused_ms: 0,
            scaled_ms: 0,
            seek_offset_secs: 0,
        };
        self.state = PlaybackState::Stopped;
        proof {
            assert forall|t: u64| spec_position(self.spec_clock(), self.spec_speed(), t) == 0 by {
                lemma_still_clock_position(self.spec_clock(), self.spec_speed(), t);
            }
        }
    }

    /// Seek to `position_seconds` (clamped to zero or more) at wall-clock
    /// `now_ms`. Tries the sink's in-place seek first; when the format does
    /// not support it, falls back to reloading the source and skipping
    /// forward. Right after a successful seek the position reads exactly the
    /// clamped target, whichever path was taken. Playback continues only if
    /// it was playing; after a fallback from a non-playing state the engine
    /// is stopped with the source loaded. A failed fallback still ends in a
    /// well-defined terminal state: stopped, clock zeroed.
    pub fn seek(&mut self, position_seconds: i64, now_ms: u64) -> (r: Result<(), EngineError>)
        ensures
            Self::parameters_preserved(old(self), final(self)),
            (r == Result::<(), EngineError>::Err(EngineError::NoFileLoaded)) <==> old(self).spec_file() is None,
            match r {
                Ok(()) => {
                    &&& final(self).spec_clock() == spec_seek_clock(
                        final(self).spec_state(),
                        spec_clamp_seek(position_seconds),
                        now_ms,
                    )
                    &&& spec_position(final(self).spec_clock(), final(self).spec_speed(), now_ms)
                        == spec_clamp_seek(position_seconds)
                    &&& (old(self).spec_state() is Playing ==> final(self).spec_state() is Playing)
                    &&& (final(self).spec_state() == old(self).spec_state()
                        || (old(self).spec_state() is Paused && final(self).spec_state() is Stopped))
                },
                Err(e) => {
                    &&& (e is NoFileLoaded || e is SeekFailed)
                    &&& (e is NoFileLoaded ==> Self::transport_preserved(old(self), final(self)))
                    &&& (e is SeekFailed ==> final(self).spec_state() is Stopped
                        && final(self).spec_clock() == clock_zero())
                },
            },
    {
        let pos: u64 = if position_seconds < 0 {
            0
        } else {
            position_seconds as u64
        };
        let path: String = match &self.current_file {
            Some(p) => p.clone(),
            None => {
                return Err(EngineError::NoFileLoaded);
            },
        };
        match self.sink.try_seek(pos) {
            SeekOutcome::Done => {
                let st = self.state;
                self.clock = SyntheticClock {
                    start_time_ms: match st {
                        PlaybackState::Stopped => None,
                        _ => Some(now_ms),
                    },
                    pause_time_ms: match st {
                        PlaybackState::Paused => Some(now_ms),
                        _ => None,
                    },
                    paused_ms: 0,
                    scaled_ms: 0,
                    seek_offset_secs: pos,
                };
                proof {
                    lemma_still_clock_position(self.spec_clock(), self.spec_speed(), now_ms);
                }
                Ok(())
            },
            SeekOutcome::NotSupported | SeekOutcome::Failed => self.seek_fallback(&path, pos, now_ms),
        }
    }

    /// The reload seek path: drain, re-decode the same source skipping `pos`
    /// seconds, wait — bounded — for content, and resume only if playing
    /// before. Any failure ends stopped with a zero clock.
    fn seek_fallback(&mut self, path: &str, pos: u64, now_ms: u64) -> (r: Result<(), EngineError>)
        ensures
            Self::parameters_preserved(old(self), final(self)),
            match r {
                Ok(()) => {
                    &&& final(self).spec_clock() == spec_seek_clock(final(self).spec_state(), pos, now_ms)
                    &&& spec_position(final(self).spec_clock(), final(self).spec_speed(), now_ms) == pos
                    &&& (old(self).spec_state() is Playing ==> final(self).spec_state() is Playing)
                    &&& (final(self).spec_state() == old(self).spec_state()
                        || (old(self).spec_state() is Paused && final(self).spec_state() is Stopped))
                },
                Err(e) => {
                    &&& e is SeekFailed
                    &&& final(self).spec_state() is Stopped
                    &&& final(self).spec_clock() == clock_zero()
                },
            },
    {
        let was_playing = match self.state {
            PlaybackState::Playing => true,
            _ => false,
        };
        self.sink.drain();
        let appended = self.sink.append_source(path, pos);
        let filled = match appended {
            Ok(()) => Self::wait_for_fill(&mut self.sink, 150),
            Err(_) => false,
        };
        if !filled {
            self.state = PlaybackState::Stopped;
            self.clock = SyntheticClock {
                start_time_ms: None,
                pause_time_ms: None,
                paused_ms: 0,
                scaled_ms: 0,
                seek_offset_secs: 0,
            };
            return Err(EngineError::SeekFailed);
        }
        if was_playing {
            self.sink.play();
            self.state = PlaybackState::Playing;
            self.clock = SyntheticClock {
                start_time_ms: Some(now_ms),
                pause_time_ms: None,
                paused_ms: 0,
                scaled_ms: 0,
                seek_offset_secs: pos,
            };
        } else {
            self.state = PlaybackState::Stopped;
            self.clock = SyntheticClock {
                start_time_ms: None,
                pause_time_ms: None,
                paused_ms: 0,
                scaled_ms: 0,
                seek_offset_secs: pos,
            };
        }
        proof {
            lemma_still_clock_position(self.spec_clock(), self.spec_speed(), now_ms);
        }
        Ok(())
    }

    /// Set the volume, clamped to [0, 100] hundredths. Total.
    pub fn set_volume(&mut self, volume: i64)
        ensures
            final(self).spec_volume() == spec_clamp_volume(volume),
            final(self).spec_speed() == old(self).spec_speed(),
            final(self).spec_file() == old(self).spec_file(),
            final(self).spec_info() == old(self).spec_info(),
            Self::transport_preserved(old(self), final(self)),
            final(self).spec_sink().queued() == old(self).spec_sink().queued(),
    {
        let v: u32 = if volume < 0 {
            0
        } else if volume > 100 {
            100
        } else {
            volume as u32
        };
        self.sink.set_volume(v);
        self.volume_hundredths = v;
    }

    /// The clamped volume, in hundredths.
    pub fn get_volume(&self) -> (r: u32)
        ensures
            r == self.spec_volume(),
    {
        self.volume_hundredths
    }

    /// Set the playback speed, clamped to [25, 400] hundredths, at wall-clock
    /// `now_ms`. The progress made so far is folded in at the old speed, so
    /// the new speed applies only prospectively and the position at `now_ms`
    /// is unchanged by this call. Total.
    pub fn set_speed(&mut self, speed: i64, now_ms: u64)
        ensures
            final(self).spec_speed() == spec_clamp_speed(speed),
            final(self).spec_volume() == old(self).spec_volume(),
            final(self).spec_file() == old(self).spec_file(),
            final(self).spec_info() == old(self).spec_info(),
            final(self).spec_state() == old(self).spec_state(),
            final(self).spec_clock() == spec_rebase_clock(
                old(self).spec_clock(),
                old(self).spec_speed(),
                now_ms,
            ),
            final(self).spec_sink().queued() == old(self).spec_sink().queued(),
    {
        let s: u32 = if speed < 25 {
            25
        } else if speed > 400 {
            400
        } else {
            speed as u32
        };
        let total = Self::total_scaled_ms(&self.clock, self.speed_hundredths, now_ms);
        let c = self.clock;
        self.clock = SyntheticClock {
            start_time_ms: match c.start_time_ms {
                Some(_) => Some(now_ms),
                None => None,
            },
            pause_time_ms: match c.pause_time_ms {
                Some(_) => Some(now_ms),
                None => None,
            },
            paused_ms: 0,
            scaled_ms: total,
            seek_offset_secs: c.seek_offset_secs,
        };
        self.sink.set_speed(s);
        self.speed_hundredths = s;
    }

    /// The clamped speed, in hundredths.
    pub fn get_speed(&self) -> (r: u32)
        ensures
            r == self.spec_speed(),
    {
        self.speed_hundredths
    }

    /// The scaled progress of the whole playback at `now_ms`, in
    /// milliseconds.
    fn total_scaled_ms(c: &SyntheticClock, speed_hundredths: u32, now_ms: u64) -> (r: u64)
        ensures
            r == spec_total_scaled_ms(*c, speed_hundredths, now_ms),
    {
        let elapsed: u64 = match c.start_time_ms {
            Some(s) => match c.pause_time_ms {
                Some(p) => {
                    if p >= s {
                        p - s
                    } else {
                        0
                    }
                },
                None => {
                    if now_ms >= s {
                        now_ms - s
                    } else {
                        0
                    }
                },
            },
            None => 0,
        };
        let active: u64 = if elapsed >= c.paused_ms {
            elapsed - c.paused_ms
        } else {
            0
        };
        proof {
            assert((active as int) * (speed_hundredths as int) <= (u64::MAX as int) * (u32::MAX
                as int)) by (nonlinear_arith)
                requires
                    active <= u64::MAX,
                    speed_hundredths <= u32::MAX,
            ;
        }
        let seg: u128 = (active as u128) * (speed_hundredths as u128) / 100;
        let total: u128 = (c.scaled_ms as u128) + seg;
        if total > u64::MAX as u128 {
            u64::MAX
        } else {
            total as u64
        }
    }

    /// The playback position in seconds at wall-clock `now_ms`: a pure
    /// function of the synthetic clock and the current speed. Never touches
    /// the sink. Total.
    pub fn get_position(&self, now_ms: u64) -> (r: u64)
        ensures
            r == spec_position(self.spec_clock(), self.spec_speed(), now_ms),
    {
        let total = Self::total_scaled_ms(&self.clock, self.speed_hundredths, now_ms);
        let secs: u64 = total / 1000;
        if self.clock.seek_offset_secs <= u64::MAX - secs {
            self.clock.seek_offset_secs + secs
        } else {
            u64::MAX
        }
    }

    /// A read-only snapshot: state, position at `now_ms`, known duration,
    /// volume, speed and the loaded file. No side effects.
    pub fn get_status(&self, now_ms: u64) -> (r: PlaybackStatus)
        ensures
            r.state == self.spec_state(),
            r.position == spec_position(self.spec_clock(), self.spec_speed(), now_ms),
            r.duration == (match self.spec_info() {
                Some(i) => i.duration,
                None => None,
            }),
            r.volume == self.spec_volume(),
            r.speed == self.spec_speed(),
            opt_string_view(r.current_file) == opt_string_view(self.spec_file()),
    {
        PlaybackStatus {
            state: self.state,
            position: self.get_position(now_ms),
            duration: match &self.current_audio_info {
                Some(i) => i.duration,
                None => None,
            },
            volume: self.volume_hundredths,
            speed: self.speed_hundredths,
            current_file: match &self.current_file {
                Some(f) => Some(f.clone()),
                None => None,
            },
        }
    }
}

} // verus!
