//! A simpler position-tracking player around the engine: it keeps its own
//! pause-aware clock in whole wall-clock seconds, unscaled by speed and
//! unmoved by seeks, and reports it in place of the engine's position.

use vstd::prelude::*;
use crate::engine::{
    AudioEngine, EngineError, PlaybackStatus, SyntheticClock, clock_zero, opt_string_view,
    spec_clamp_seek, spec_clamp_speed, spec_clamp_volume, spec_pause_clock, spec_play_clock,
    spec_position, spec_rebase_clock,
};
use crate::sink::AudioSink;

verus! {

/// One engine plus the player's own elapsed-time clock.
pub struct AudioPlayer<S: AudioSink> {
    engine: AudioEngine<S>,
    clock: SyntheticClock,
}

impl<S: AudioSink> AudioPlayer<S> {
    pub closed spec fn eng(&self) -> AudioEngine<S> {
        self.engine
    }

    pub closed spec fn spec_clock(&self) -> SyntheticClock {
        self.clock
    }

    /// A fresh player: stopped engine, zero clock.
    pub fn new(sink: S) -> (r: Self)
        ensures
            r.eng().wf(),
            r.eng().spec_sink() == sink,
            r.eng().spec_state() is Stopped,
            r.eng().spec_file() is None,
            r.spec_clock() == clock_zero(),
    {
        AudioPlayer { engine: AudioEngine::new(sink), clock: clock_zero_exec() }
    }

    /// Load a source and reset the player's clock; on failure both the
    /// engine's state and the player's clock stand as before.
    pub fn load_file(&mut self, path: &str) -> (r: Result<(), EngineError>)
        ensures
            final(self).eng().spec_volume() == old(self).eng().spec_volume(),
            final(self).eng().spec_speed() == old(self).eng().spec_speed(),
            match r {
                Ok(()) => {
                    &&& final(self).spec_clock() == clock_zero()
                    &&& final(self).eng().spec_state() is Stopped
                    &&& final(self).eng().spec_clock() == clock_zero()
                    &&& (final(self).eng().spec_file() matches Some(f) && f@ == path@)
                },
                Err(e) => {
                    &&& (e is DecodeFailed || e is IoFailed || e is LoadTimeout)
                    &&& final(self).spec_clock() == old(self).spec_clock()
                    &&& final(self).eng().spec_state() == old(self).eng().spec_state()
                    &&& final(self).eng().spec_clock() == old(self).eng().spec_clock()
                    &&& final(self).eng().spec_file() == old(self).eng().spec_file()
                },
            },
    {
        match self.engine.load_file(path) {
            Ok(()) => {},
            Err(e) => {
                return Err(e);
            },
        }
        self.clock = clock_zero_exec();
        Ok(())
    }

    /// Start or resume playback; the player's clock ends a pause and starts
    /// its segment exactly as the engine's does. Fails only when the sink
    /// held no content at the call.
    pub fn play(&mut self, now_ms: u64) -> (r: Result<(), EngineError>)
        ensures
            final(self).eng().spec_volume() == old(self).eng().spec_volume(),
            final(self).eng().spec_speed() == old(self).eng().spec_speed(),
            final(self).eng().spec_file() == old(self).eng().spec_file(),
            match r {
                Ok(()) => {
                    &&& final(self).spec_clock() == spec_play_clock(old(self).spec_clock(), now_ms)
                    &&& final(self).eng().spec_clock() == spec_play_clock(
                        old(self).eng().spec_clock(),
                        now_ms,
                    )
                    &&& final(self).eng().spec_state() is Playing
                },
                Err(e) => {
                    &&& e is NoFileLoaded
                    &&& old(self).eng().spec_sink().queued() == 0
                    &&& final(self).spec_clock() == old(self).spec_clock()
                    &&& final(self).eng().spec_state() == old(self).eng().spec_state()
                    &&& final(self).eng().spec_clock() == old(self).eng().spec_clock()
                },
            },
    {
        match self.engine.play(now_ms) {
            Ok(()) => {},
            Err(e) => {
                return Err(e);
            },
        }
        let c = self.clock;
        let new_paused: u64 = match c.pause_time_ms {
            Some(p) => {
                let gap: u64 = if now_ms >= p {
                    now_ms - p
                } else {
                    0
                };
                if c.paused_ms <= u64::MAX - gap {
                    c.paused_ms + gap
                } else {
                    u64::MAX
                }
            },
            None => c.paused_ms,
        };
        self.clock = SyntheticClock {
            start_time_ms: match c.start_time_ms {
                Some(s) => Some(s),
                None => Some(now_ms),
            },
            pause_time_ms: None,
            paused_ms: new_paused,
            scaled_ms: c.scaled_ms,
            seek_offset_secs: c.seek_offset_secs,
        };
        Ok(())
    }

    /// Pause playback and freeze the player's clock at `now_ms`. Total.
    pub fn pause(&mut self, now_ms: u64)
        ensures
            final(self).eng().spec_volume() == old(self).eng().spec_volume(),
            final(self).eng().spec_speed() == old(self).eng().spec_speed(),
            final(self).eng().spec_file() == old(self).eng().spec_file(),
            final(self).spec_clock() == spec_pause_clock(old(self).spec_clock(), now_ms),
            final(self).eng().spec_clock() == spec_pause_clock(old(self).eng().spec_clock(), now_ms),
            final(self).eng().spec_state() is Paused,
    {
        self.engine.pause(now_ms);
        let c = self.clock;
        self.clock = SyntheticClock {
            start_time_ms: c.start_time_ms,
            pause_time_ms: Some(now_ms),
            paused_ms: c.paused_ms,
            scaled_ms: c.scaled_ms,
            seek_offset_secs: c.seek_offset_secs,
        };
    }

    /// Stop playback, drain the sink and zero both clocks. Total.
    pub fn stop(&mut self)
        ensures
            final(self).eng().spec_volume() == old(self).eng().spec_volume(),
            final(self).eng().spec_speed() == old(self).eng().spec_speed(),
            final(self).eng().spec_file() == old(self).eng().spec_file(),
            final(self).spec_clock() == clock_zero(),
            final(self).eng().spec_clock() == clock_zero(),
            final(self).eng().spec_state() is Stopped,
            final(self).eng().spec_sink().queued() == 0,
            forall|t: u64| spec_position(final(self).spec_clock(), 100, t) == 0,
    {
        self.engine.stop();
        self.clock = clock_zero_exec();
        proof {
            assert forall|t: u64| spec_position(self.spec_clock(), 100, t) == 0 by {
                crate::engine::lemma_still_clock_position(self.spec_clock(), 100, t);
            }
        }
    }

    /// Set the engine volume, clamped to [0, 100] hundredths. Total.
    pub fn set_volume(&mut self, volume: i64)
        ensures
            final(self).eng().spec_volume() == spec_clamp_volume(volume),
            final(self).eng().spec_speed() == old(self).eng().spec_speed(),
            final(self).eng().spec_file() == old(self).eng().spec_file(),
            final(self).eng().spec_state() == old(self).eng().spec_state(),
            final(self).eng().spec_clock() == old(self).eng().spec_clock(),
            final(self).spec_clock() == old(self).spec_clock(),
    {
        self.engine.set_volume(volume);
    }

    /// The engine's clamped volume, in hundredths.
    pub fn get_volume(&self) -> (r: u32)
        ensures
            r == self.eng().spec_volume(),
    {
        self.engine.get_volume()
    }

    /// Set the engine speed, clamped to [25, 400] hundredths; the player's
    /// own clock is unscaled and stays as it is. Total.
    pub fn set_speed(&mut self, speed: i64, now_ms: u64)
        ensures
            final(self).eng().spec_speed() == spec_clamp_speed(speed),
            final(self).eng().spec_volume() == old(self).eng().spec_volume(),
            final(self).eng().spec_file() == old(self).eng().spec_file(),
            final(self).eng().spec_state() == old(self).eng().spec_state(),
            final(self).eng().spec_clock() == spec_rebase_clock(
                old(self).eng().spec_clock(),
                old(self).eng().spec_speed(),
                now_ms,
            ),
            final(self).spec_clock() == old(self).spec_clock(),
    {
        self.engine.set_speed(speed, now_ms);
    }

    /// The engine's clamped speed, in hundredths.
    pub fn get_speed(&self) -> (r: u32)
        ensures
            r == self.eng().spec_speed(),
    {
        self.engine.get_speed()
    }

    /// Seek within the engine; the player's own clock is deliberately left
    /// alone — it tracks listening time, not the seek target. A failed
    /// fallback still leaves the engine in its well-defined terminal state:
    /// stopped, clock zeroed.
    pub fn seek(&mut self, position_seconds: i64, now_ms: u64) -> (r: Result<(), EngineError>)
        ensures
            final(self).spec_clock() == old(self).spec_clock(),
            final(self).eng().spec_volume() == old(self).eng().spec_volume(),
            final(self).eng().spec_speed() == old(self).eng().spec_speed(),
            final(self).eng().spec_file() == old(self).eng().spec_file(),
            (r == Result::<(), EngineError>::Err(EngineError::NoFileLoaded)) <==> old(self).eng().spec_file() is None,
            match r {
                Ok(()) => {
                    &&& spec_position(
                        final(self).eng().spec_clock(),
                        final(self).eng().spec_speed(),
                        now_ms,
                    ) == spec_clamp_seek(position_seconds)
                    &&& (old(self).eng().spec_state() is Playing
                        ==> final(self).eng().spec_state() is Playing)
                    &&& (final(self).eng().spec_state() == old(self).eng().spec_state()
                        || (old(self).eng().spec_state() is Paused
                        && final(self).eng().spec_state() is Stopped))
                },
                Err(e) => {
                    &&& (e is NoFileLoaded || e is SeekFailed)
                    &&& (e is NoFileLoaded ==> final(self).eng().spec_state()
                        == old(self).eng().spec_state() && final(self).eng().spec_clock()
                        == old(self).eng().spec_clock())
                    &&& (e is SeekFailed ==> final(self).eng().spec_state() is Stopped
                        && final(self).eng().spec_clock() == clock_zero())
                },
            },
    {
        self.engine.seek(position_seconds, now_ms)
    }

    /// Seconds of active listening: elapsed wall-clock time of the current
    /// segment minus pauses, unscaled; 0 before the first play. Total.
    pub fn get_position(&self, now_ms: u64) -> (r: u64)
        ensures
            r == spec_position(self.spec_clock(), 100, now_ms),
    {
        let elapsed: u64 = match self.clock.start_time_ms {
            Some(s) => match self.clock.pause_time_ms {
                Some(p) => {
                    if p >= s {
                        p - s
                    } else {
                        0
                    }
                },
                None => {
                    if now_ms >= s {
                        now_ms - s
                    } else {
                        0
                    }
                },
            },
            None => 0,
        };
        let active: u64 = if elapsed >= self.clock.paused_ms {
            elapsed - self.clock.paused_ms
        } else {
            0
        };
        proof {
            lemma_unit_position(self.spec_clock(), now_ms);
        }
        let total: u64 = if self.clock.scaled_ms <= u64::MAX - active {
            self.clock.scaled_ms + active
        } else {
            u64::MAX
        };
        let secs: u64 = total / 1000;
        if self.clock.seek_offset_secs <= u64::MAX - secs {
            self.clock.seek_offset_secs + secs
        } else {
            u64::MAX
        }
    }

    /// The engine's snapshot with the position replaced by the player's own
    /// elapsed-listening clock.
    pub fn get_enhanced_status(&self, now_ms: u64) -> (r: PlaybackStatus)
        ensures
            r.state == self.eng().spec_state(),
            r.position == spec_position(self.spec_clock(), 100, now_ms),
            r.duration == (match self.eng().spec_info() {
                Some(i) => i.duration,
                None => None,
            }),
            r.volume == self.eng().spec_volume(),
            r.speed == self.eng().spec_speed(),
            opt_string_view(r.current_file) == opt_string_view(self.eng().spec_file()),
    {
        let mut status = self.engine.get_status(now_ms);
        status.position = self.get_position(now_ms);
        status
    }
}

/// The zero clock, as a runtime value.
fn clock_zero_exec() -> (r: SyntheticClock)
    ensures
        r == clock_zero(),
{
    SyntheticClock {
        start_time_ms: None,
        pause_time_ms: None,
        paused_ms: 0,
        scaled_ms: 0,
        seek_offset_secs: 0,
    }
}

/// At unit speed the scaled progress is exactly the active time.
proof fn lemma_unit_position(c: SyntheticClock, now_ms: u64)
    ensures
        crate::engine::spec_segment_scaled_ms(crate::engine::spec_active_ms(c, now_ms), 100)
            == crate::engine::spec_active_ms(c, now_ms),
{
    let a = crate::engine::spec_active_ms(c, now_ms);
    assert(a * 100 / 100 == a) by (nonlinear_arith);
}

} // verus!
