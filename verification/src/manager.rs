//! The audio manager: one engine, a FIFO play queue and the current-track
//! slot. Immediate playback always pre-empts the queue; queued playback
//! advances strictly in insertion order.

use vstd::prelude::*;
use std::collections::VecDeque;
use crate::engine::{AudioEngine, EngineError, PlaybackStatus, clock_zero, opt_string_view, spec_position, spec_clamp_seek, spec_clamp_volume, spec_clamp_speed, spec_play_clock, spec_pause_clock, spec_rebase_clock, spec_seek_clock};
use crate::sink::AudioSink;

verus! {

/// One playable unit: an identity, a source path and optional display data.
#[derive(Debug)]
pub struct Track {
    pub id: String,
    pub file_path: String,
    pub title: Option<String>,
    /// Duration in seconds, when known.
    pub duration: Option<u64>,
}

/// Field-by-field view equality of two tracks.
pub open spec fn track_like(a: Track, b: Track) -> bool {
    &&& a.id@ == b.id@
    &&& a.file_path@ == b.file_path@
    &&& opt_string_view(a.title) == opt_string_view(b.title)
    &&& a.duration == b.duration
}

/// Pairwise view equality of two track sequences.
pub open spec fn tracks_like(a: Seq<Track>, b: Seq<Track>) -> bool {
    &&& a.len() == b.len()
    &&& forall|i: int| 0 <= i < a.len() ==> track_like(#[trigger] a[i], b[i])
}

impl Clone for Track {
    fn clone(&self) -> (r: Self)
        ensures
            track_like(r, *self),
    {
        Track {
            id: self.id.clone(),
            file_path: self.file_path.clone(),
            title: match &self.title {
                Some(t) => Some(t.clone()),
                None => None,
            },
            duration: self.duration,
        }
    }
}

/// How playback continues once the queue is exhausted.
#[derive(Debug, Clone, Copy, PartialEq, Eq, Structural)]
pub enum RepeatMode {
    Off,
    Track,
    Queue,
}

/// One engine plus the queue it feeds.
pub struct AudioManager<S: AudioSink> {
    engine: AudioEngine<S>,
    current_track: Option<Track>,
    queue: VecDeque<Track>,
    repeat_mode: RepeatMode,
    shuffle_enabled: bool,
}

impl<S: AudioSink> AudioManager<S> {
    pub closed spec fn eng(&self) -> AudioEngine<S> {
        self.engine
    }

    pub closed spec fn spec_queue(&self) -> Seq<Track> {
        self.queue@
    }

    pub closed spec fn spec_current(&self) -> Option<Track> {
        self.current_track
    }

    pub closed spec fn spec_repeat(&self) -> RepeatMode {
        self.repeat_mode
    }

    pub closed spec fn spec_shuffle(&self) -> bool {
        self.shuffle_enabled
    }

    /// Queue, current track and playback settings are unchanged.
    pub open spec fn library_preserved(pre: &Self, post: &Self) -> bool {
        &&& post.spec_queue() == pre.spec_queue()
        &&& post.spec_current() == pre.spec_current()
        &&& post.spec_repeat() == pre.spec_repeat()
        &&& post.spec_shuffle() == pre.spec_shuffle()
    }

    /// A fresh manager around `sink`: stopped engine, empty queue, nothing
    /// current, no repeat, no shuffle.
    pub fn new(sink: S) -> (r: Self)
        ensures
            r.eng().wf(),
            r.eng().spec_sink() == sink,
            r.eng().spec_state() is Stopped,
            r.eng().spec_clock() == clock_zero(),
            r.eng().spec_file() is None,
            r.eng().spec_volume() == 100,
            r.eng().spec_speed() == 100,
            r.spec_queue() == Seq::<Track>::empty(),
            r.spec_current() is None,
            r.spec_repeat() == RepeatMode::Off,
            !r.spec_shuffle(),
    {
        AudioManager {
            engine: AudioEngine::new(sink),
            current_track: None,
            queue: VecDeque::new(),
            repeat_mode: RepeatMode::Off,
            shuffle_enabled: false,
        }
    }

    /// Load `track` right away, replacing whatever is current, and clear the
    /// queue: an immediate request pre-empts the playlist instead of joining
    /// it. On a load failure the queue and the current track are untouched.
    pub fn play_track_immediately(&mut self, track: Track) -> (r: Result<(), EngineError>)
        ensures
            final(self).eng().spec_volume() == old(self).eng().spec_volume(),
            final(self).eng().spec_speed() == old(self).eng().spec_speed(),
            final(self).spec_repeat() == old(self).spec_repeat(),
            final(self).spec_shuffle() == old(self).spec_shuffle(),
            match r {
                Ok(()) => {
                    &&& final(self).spec_queue() == Seq::<Track>::empty()
                    &&& final(self).spec_current() == Some(track)
                    &&& final(self).eng().spec_state() is Stopped
                    &&& final(self).eng().spec_clock() == clock_zero()
                    &&& (final(self).eng().spec_file() matches Some(f) && f@ == track.file_path@)
                    &&& forall|t: u64|
                        spec_position(final(self).eng().spec_clock(), final(self).eng().spec_speed(), t) == 0
                },
                Err(e) => {
                    &&& (e is DecodeFailed || e is IoFailed || e is LoadTimeout)
                    &&& final(self).spec_queue() == old(self).spec_queue()
                    &&& final(self).spec_current() == old(self).spec_current()
                    &&& final(self).eng().spec_state() == old(self).eng().spec_state()
                    &&& final(self).eng().spec_clock() == old(self).eng().spec_clock()
                    &&& final(self).eng().spec_file() == old(self).eng().spec_file()
                },
            },
    {
        match self.engine.load_file(track.file_path.as_str()) {
            Ok(()) => {},
            Err(e) => {
                return Err(e);
            },
        }
        self.current_track = Some(track);
        self.queue.clear();
        Ok(())
    }

    /// Start or resume playback. Deliberately no reload-and-retry on failure:
    /// a reload would zero the synthetic clock and corrupt the position over
    /// a merely transient failure, so errors propagate unmodified — and they
    /// arise only when the sink held no content at the call.
    pub fn play(&mut self, now_ms: u64) -> (r: Result<(), EngineError>)
        ensures
            Self::library_preserved(old(self), final(self)),
            final(self).eng().spec_volume() == old(self).eng().spec_volume(),
            final(self).eng().spec_speed() == old(self).eng().spec_speed(),
            final(self).eng().spec_file() == old(self).eng().spec_file(),
            match r {
                Ok(()) => {
                    &&& final(self).eng().spec_state() is Playing
                    &&& final(self).eng().spec_clock() == spec_play_clock(old(self).eng().spec_clock(), now_ms)
                },
                Err(e) => {
                    &&& e is NoFileLoaded
                    &&& old(self).eng().spec_sink().queued() == 0
                    &&& final(self).eng().spec_state() == old(self).eng().spec_state()
                    &&& final(self).eng().spec_clock() == old(self).eng().spec_clock()
                },
            },
    {
        self.engine.play(now_ms)
    }

    /// Pause the current track. Total.
    pub fn pause(&mut self, now_ms: u64)
        ensures
            Self::library_preserved(old(self), final(self)),
            final(self).eng().spec_volume() == old(self).eng().spec_volume(),
            final(self).eng().spec_speed() == old(self).eng().spec_speed(),
            final(self).eng().spec_file() == old(self).eng().spec_file(),
            final(self).eng().spec_state() is Paused,
            final(self).eng().spec_clock() == spec_pause_clock(old(self).eng().spec_clock(), now_ms),
    {
        self.engine.pause(now_ms);
    }

    /// Stop the current track and zero the clock. Total.
    pub fn stop(&mut self)
        ensures
            Self::library_preserved(old(self), final(self)),
            final(self).eng().spec_volume() == old(self).eng().spec_volume(),
            final(self).eng().spec_speed() == old(self).eng().spec_speed(),
            final(self).eng().spec_file() == old(self).eng().spec_file(),
            final(self).eng().spec_state() is Stopped,
            final(self).eng().spec_clock() == clock_zero(),
            forall|t: u64|
                spec_position(final(self).eng().spec_clock(), final(self).eng().spec_speed(), t) == 0,
    {
        self.engine.stop();
    }

    /// Append `track` to the tail of the queue; playback is untouched.
    pub fn add_to_queue(&mut self, track: Track)
        ensures
            final(self).spec_queue() == old(self).spec_queue().push(track),
            final(self).spec_current() == old(self).spec_current(),
            final(self).eng() == old(self).eng(),
            final(self).spec_repeat() == old(self).spec_repeat(),
            final(self).spec_shuffle() == old(self).spec_shuffle(),
    {
        self.queue.push_back(track);
    }

    /// Append every track, in order, to the tail of the queue.
    pub fn add_tracks_to_queue(&mut self, tracks: Vec<Track>)
        ensures
            final(self).spec_queue().len() == old(self).spec_queue().len() + tracks@.len(),
            forall|j: int| 0 <= j < old(self).spec_queue().len()
                ==> final(self).spec_queue()[j] == old(self).spec_queue()[j],
            forall|j: int| 0 <= j < tracks@.len()
                ==> track_like(
                    #[trigger] final(self).spec_queue()[old(self).spec_queue().len() + j],
                    tracks@[j],
                ),
            final(self).spec_current() == old(self).spec_current(),
            final(self).eng() == old(self).eng(),
            final(self).spec_repeat() == old(self).spec_repeat(),
            final(self).spec_shuffle() == old(self).spec_shuffle(),
    {
        let n = tracks.len();
        let mut i: usize = 0;
        while i < n
            invariant
                i <= n,
                n == tracks@.len(),
                self.spec_queue().len() == old(self).spec_queue().len() + i,
                forall|j: int| 0 <= j < old(self).spec_queue().len()
                    ==> self.spec_queue()[j] == old(self).spec_queue()[j],
                forall|j: int| 0 <= j < i
                    ==> track_like(
                        #[trigger] self.spec_queue()[old(self).spec_queue().len() + j],
                        tracks@[j],
                    ),
                self.spec_current() == old(self).spec_current(),
                self.eng() == old(self).eng(),
                self.spec_repeat() == old(self).spec_repeat(),
                self.spec_shuffle() == old(self).spec_shuffle(),
            decreases n - i,
        {
            let item = tracks[i].clone();
            self.queue.push_back(item);
            i = i + 1;
        }
    }

    /// Pop the head of the queue and load it: `Ok(false)` with nothing
    /// touched when the queue is empty, otherwise the head leaves the queue
    /// and, on a successful load, becomes the current track while the rest of
    /// the queue stays for the next call — insertion order is preserved.
    pub fn play_next(&mut self) -> (r: Result<bool, EngineError>)
        ensures
            final(self).eng().spec_volume() == old(self).eng().spec_volume(),
            final(self).eng().spec_speed() == old(self).eng().spec_speed(),
            final(self).spec_repeat() == old(self).spec_repeat(),
            final(self).spec_shuffle() == old(self).spec_shuffle(),
            (r == Result::<bool, EngineError>::Ok(false)) <==> old(self).spec_queue().len() == 0,
            old(self).spec_queue().len() == 0 ==> {
                &&& final(self).spec_queue() == old(self).spec_queue()
                &&& final(self).spec_current() == old(self).spec_current()
                &&& final(self).eng() == old(self).eng()
            },
            old(self).spec_queue().len() > 0 ==> {
                &&& final(self).spec_queue() == old(self).spec_queue().drop_first()
                &&& match r {
                    Ok(b) => {
                        &&& b
                        &&& final(self).spec_current() == Some(old(self).spec_queue()[0])
                        &&& final(self).eng().spec_state() is Stopped
                        &&& final(self).eng().spec_clock() == clock_zero()
                        &&& (final(self).eng().spec_file() matches Some(f)
                            && f@ == old(self).spec_queue()[0].file_path@)
                    },
                    Err(e) => {
                        &&& (e is DecodeFailed || e is IoFailed || e is LoadTimeout)
                        &&& final(self).spec_current() == old(self).spec_current()
                        &&& final(self).eng().spec_state() == old(self).eng().spec_state()
                        &&& final(self).eng().spec_clock() == old(self).eng().spec_clock()
                        &&& final(self).eng().spec_file() == old(self).eng().spec_file()
                    },
                }
            },
    {
        match self.queue.pop_front() {
            None => Ok(false),
            Some(track) => {
                match self.engine.load_file(track.file_path.as_str()) {
                    Ok(()) => {
                        self.current_track = Some(track);
                        Ok(true)
                    },
                    Err(e) => Err(e),
                }
            },
        }
    }

    /// Restart the current track from its beginning: a seek to position zero.
    pub fn play_previous(&mut self, now_ms: u64) -> (r: Result<bool, EngineError>)
        ensures
            Self::library_preserved(old(self), final(self)),
            final(self).eng().spec_volume() == old(self).eng().spec_volume(),
            final(self).eng().spec_speed() == old(self).eng().spec_speed(),
            final(self).eng().spec_file() == old(self).eng().spec_file(),
            (r == Result::<bool, EngineError>::Err(EngineError::NoFileLoaded))
                <==> old(self).eng().spec_file() is None,
            match r {
                Ok(b) => {
                    &&& b
                    &&& final(self).eng().spec_clock() == spec_seek_clock(
                        final(self).eng().spec_state(),
                        0,
                        now_ms,
                    )
                    &&& spec_position(
                        final(self).eng().spec_clock(),
                        final(self).eng().spec_speed(),
                        now_ms,
                    ) == 0
                    &&& (old(self).eng().spec_state() is Playing
                        ==> final(self).eng().spec_state() is Playing)
                },
                Err(e) => {
                    &&& (e is NoFileLoaded || e is SeekFailed)
                    &&& (e is NoFileLoaded ==> final(self).eng().spec_state()
                        == old(self).eng().spec_state() && final(self).eng().spec_clock()
                        == old(self).eng().spec_clock())
                    &&& (e is SeekFailed ==> final(self).eng().spec_state() is Stopped
                        && final(self).eng().spec_clock() == clock_zero())
                },
            },
    {
        match self.engine.seek(0, now_ms) {
            Ok(()) => Ok(true),
            Err(e) => Err(e),
        }
    }

    /// A read-only snapshot of the engine at `now_ms`.
    pub fn get_status(&self, now_ms: u64) -> (r: PlaybackStatus)
        ensures
            r.state == self.eng().spec_state(),
            r.position == spec_position(self.eng().spec_clock(), self.eng().spec_speed(), now_ms),
            r.volume == self.eng().spec_volume(),
            r.speed == self.eng().spec_speed(),
            opt_string_view(r.current_file) == opt_string_view(self.eng().spec_file()),
    {
        self.engine.get_status(now_ms)
    }

    /// A copy of the current track, if any.
    pub fn get_current_track(&self) -> (r: Option<Track>)
        ensures
            match (r, self.spec_current()) {
                (Some(a), Some(b)) => track_like(a, b),
                (None, None) => true,
                _ => false,
            },
    {
        match &self.current_track {
            Some(t) => Some(t.clone()),
            None => None,
        }
    }

    /// A copy of the queue, head first.
    pub fn get_queue(&self) -> (r: Vec<Track>)
        ensures
            tracks_like(r@, self.spec_queue()),
    {
        let mut out: Vec<Track> = Vec::new();
        let n = self.queue.len();
        let mut i: usize = 0;
        while i < n
            invariant
                i <= n,
                n == self.spec_queue().len(),
                out@.len() == i,
                forall|j: int| 0 <= j < i ==> track_like(#[trigger] out@[j], self.spec_queue()[j]),
            decreases n - i,
        {
            out.push(self.queue[i].clone());
            i = i + 1;
        }
        out
    }

    /// Empty the queue without touching playback.
    pub fn clear_queue(&mut self)
        ensures
            final(self).spec_queue() == Seq::<Track>::empty(),
            final(self).spec_current() == old(self).spec_current(),
            final(self).eng() == old(self).eng(),
            final(self).spec_repeat() == old(self).spec_repeat(),
            final(self).spec_shuffle() == old(self).spec_shuffle(),
    {
        self.queue.clear();
    }

    /// Seek within the current track; see the engine's contract.
    pub fn seek(&mut self, position_seconds: i64, now_ms: u64) -> (r: Result<(), EngineError>)
        ensures
            Self::library_preserved(old(self), final(self)),
            final(self).eng().spec_volume() == old(self).eng().spec_volume(),
            final(self).eng().spec_speed() == old(self).eng().spec_speed(),
            final(self).eng().spec_file() == old(self).eng().spec_file(),
            (r == Result::<(), EngineError>::Err(EngineError::NoFileLoaded))
                <==> old(self).eng().spec_file() is None,
            match r {
                Ok(()) => {
                    &&& final(self).eng().spec_clock() == spec_seek_clock(
                        final(self).eng().spec_state(),
                        spec_clamp_seek(position_seconds),
                        now_ms,
                    )
                    &&& spec_position(
                        final(self).eng().spec_clock(),
                        final(self).eng().spec_speed(),
                        now_ms,
                    ) == spec_clamp_seek(position_seconds)
                    &&& (old(self).eng().spec_state() is Playing
                        ==> final(self).eng().spec_state() is Playing)
                },
                Err(e) => {
                    &&& (e is NoFileLoaded || e is SeekFailed)
                    &&& (e is NoFileLoaded ==> final(self).eng().spec_state()
                        == old(self).eng().spec_state() && final(self).eng().spec_clock()
                        == old(self).eng().spec_clock())
                    &&& (e is SeekFailed ==> final(self).eng().spec_state() is Stopped
                        && final(self).eng().spec_clock() == clock_zero())
                },
            },
    {
        self.engine.seek(position_seconds, now_ms)
    }

    /// Set the volume, clamped to [0, 100] hundredths.
    pub fn set_volume(&mut self, volume: i64)
        ensures
            Self::library_preserved(old(self), final(self)),
            final(self).eng().spec_volume() == spec_clamp_volume(volume),
            final(self).eng().spec_speed() == old(self).eng().spec_speed(),
            final(self).eng().spec_file() == old(self).eng().spec_file(),
            final(self).eng().spec_state() == old(self).eng().spec_state(),
            final(self).eng().spec_clock() == old(self).eng().spec_clock(),
    {
        self.engine.set_volume(volume);
    }

    /// Set the playback speed, clamped to [25, 400] hundredths; earlier
    /// progress keeps its old scale.
    pub fn set_speed(&mut self, speed: i64, now_ms: u64)
        ensures
            Self::library_preserved(old(self), final(self)),
            final(self).eng().spec_speed() == spec_clamp_speed(speed),
            final(self).eng().spec_volume() == old(self).eng().spec_volume(),
            final(self).eng().spec_file() == old(self).eng().spec_file(),
            final(self).eng().spec_state() == old(self).eng().spec_state(),
            final(self).eng().spec_clock() == spec_rebase_clock(
                old(self).eng().spec_clock(),
                old(self).eng().spec_speed(),
                now_ms,
            ),
    {
        self.engine.set_speed(speed, now_ms);
    }

    /// Choose how playback continues once the queue is exhausted.
    pub fn set_repeat_mode(&mut self, mode: RepeatMode)
        ensures
            final(self).spec_repeat() == mode,
            final(self).spec_queue() == old(self).spec_queue(),
            final(self).spec_current() == old(self).spec_current(),
            final(self).eng() == old(self).eng(),
            final(self).spec_shuffle() == old(self).spec_shuffle(),
    {
        self.repeat_mode = mode;
    }

    /// Toggle shuffled queue order.
    pub fn set_shuffle(&mut self, enabled: bool)
        ensures
            final(self).spec_shuffle() == enabled,
            final(self).spec_queue() == old(self).spec_queue(),
            final(self).spec_current() == old(self).spec_current(),
            final(self).eng() == old(self).eng(),
            final(self).spec_repeat() == old(self).spec_repeat(),
    {
        self.shuffle_enabled = enabled;
    }
}

} // verus!
