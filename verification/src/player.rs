//! The playback controller: owns the decoded track and the shared playback
//! context, implements the transport API, and follows the replay protocol —
//! stop, drain, rebuild — whenever a parameter captured at session-build time
//! (offset, speed) changes.
//!
//! The output device itself lives outside this crate; here the render queue
//! is modelled explicitly as the sequence of sessions appended to the device
//! and the completion signals observed back from it, in the order they
//! happen. The model is what the controller's guarantees are stated and
//! proved over: at most one session is ever live, and a restart never appends
//! a new session before the prior one's completion signal has fired.

use vstd::prelude::*;

use bytes::Bytes;

use crate::context::PlaybackContext;
use crate::track::{bytes_as_slice, bytes_content, u16_le, u32_le, wav_well_formed, TrackBuffer};

verus! {

/// An error surfaced by the playback controller.
#[derive(Debug, Clone)]
pub enum PlayerError {
    /// The bytes handed to `play` are not a well-formed supported container.
    DecodeTrackError(String),
}

impl PlayerError {
    /// The error returned when track bytes cannot be decoded.
    pub(crate) fn decode_failure() -> (r: PlayerError)
        ensures
            r is DecodeTrackError,
    {
        PlayerError::DecodeTrackError(String::from_str("unsupported or malformed track bytes"))
    }
}

/// One entry of the render-queue history: a session handed to the device, or
/// a completion signal observed back from it.
#[derive(Clone, Copy, Debug, PartialEq, Eq, Structural)]
pub enum QueueEvent {
    /// A fully configured render chain was appended to the device queue.
    Appended,
    /// The completion signal of the chain appended last fired.
    Completed,
}

/// One render session: the chain of transformations appended to the device
/// for a single playback attempt, with the parameters it captured when it
/// was built and the gates the sampler applied to it last.
#[derive(Clone, Copy, Debug, PartialEq, Eq, Structural)]
pub struct RenderSession {
    /// Offset the chain was sliced from when it was built.
    pub start_ms: u64,
    /// Speed factor (hundredths) captured when the chain was built.
    pub speed: u32,
    /// Gain (hundredths) applied by the sampler most recently; a chain is
    /// built with neutral gain and the first tick applies the real volume.
    pub gain: u8,
    /// Pause gate applied by the sampler most recently; a chain is built
    /// ungated.
    pub gated_paused: bool,
}

/// A render log is well sequenced when appends and completions strictly
/// alternate, starting with an append: session lifetimes never overlap.
pub open spec fn well_sequenced(log: Seq<QueueEvent>) -> bool {
    forall|i: int|
        0 <= i < log.len() ==> log[i] == (if i % 2 == 0 {
            QueueEvent::Appended
        } else {
            QueueEvent::Completed
        })
}

/// The model of the continuously open device queue: the session currently
/// rendering, the history of appends and completions in order, and whether
/// the queue keeps the device alive while it is empty.
pub struct RenderQueue {
    /// The session currently occupying the queue, if any.
    pub live: Option<RenderSession>,
    /// Every append and every observed completion, oldest first.
    pub log: Vec<QueueEvent>,
    /// Whether the device is kept open while the queue is empty.
    pub keep_alive: bool,
}

impl RenderQueue {
    /// Validity: the history alternates strictly, and a session is live
    /// exactly when the last logged event is an append.
    pub open spec fn wf(self) -> bool {
        &&& well_sequenced(self.log@)
        &&& (self.live is Some <==> self.log@.len() % 2 == 1)
    }
}

/// The session a restart builds: sliced from the context's current position,
/// at its current speed, with neutral gain and an open pause gate.
pub open spec fn fresh_session(c: PlaybackContext) -> RenderSession {
    RenderSession { start_ms: c.progress_ms, speed: c.speed, gain: 100, gated_paused: false }
}

/// How one restart changes the queue: the prior live session (if any) is
/// completed first, and only then is the new session appended — the two
/// never overlap.
pub open spec fn session_restarted(
    before: RenderQueue,
    after: RenderQueue,
    s: RenderSession,
) -> bool {
    &&& after.live == Some(s)
    &&& after.keep_alive == before.keep_alive
    &&& (before.live is Some ==> after.log@ == before.log@ + seq![
        QueueEvent::Completed,
        QueueEvent::Appended,
    ])
    &&& (before.live is None ==> after.log@ == before.log@ + seq![QueueEvent::Appended])
}

/// The queue did not change: same live session, same history, same
/// keep-alive behaviour.
pub open spec fn queue_frozen(before: RenderQueue, after: RenderQueue) -> bool {
    &&& after.live == before.live
    &&& after.log@ == before.log@
    &&& after.keep_alive == before.keep_alive
}

/// Saturating addition on 64-bit counters: the position counter never wraps.
pub open spec fn sat_add64(a: u64, b: u64) -> u64 {
    if a + b <= u64::MAX {
        (a + b) as u64
    } else {
        u64::MAX
    }
}

/// What the periodic sampler does on one tick, decided from a context
/// snapshot.
#[derive(Clone, Copy, Debug, PartialEq, Eq, Structural)]
pub enum SamplerAction {
    /// Terminate the render chain now; no further samples are emitted.
    Halt,
    /// Keep rendering: apply this gain and this pause gate, and advance the
    /// position counter by one sampling interval when `advance` is set.
    Apply { gain: u8, pause_gate: bool, advance: bool },
}

/// The periodic sampler's decision for one tick: a stop request terminates
/// the chain; otherwise the current volume and pause flag are applied, and
/// the position advances exactly when playback is not paused.
pub fn sampler_step(c: &PlaybackContext) -> (r: SamplerAction)
    ensures
        c.stopped ==> r == SamplerAction::Halt,
        !c.stopped ==> r == (SamplerAction::Apply {
            gain: c.volume,
            pause_gate: c.paused,
            advance: !c.paused,
        }),
{
    if c.stopped {
        SamplerAction::Halt
    } else {
        SamplerAction::Apply { gain: c.volume, pause_gate: c.paused, advance: !c.paused }
    }
}

/// What remains on the device side once the controller is disposed of: the
/// shared context and the queue, still rendering whatever was enqueued.
pub struct RenderState {
    /// The shared context as the controller left it.
    pub context: PlaybackContext,
    /// The device queue as the controller left it.
    pub queue: RenderQueue,
}

/// The playback controller.
pub struct LAudioPlayer {
    context: PlaybackContext,
    current_track: Option<TrackBuffer>,
    queue: RenderQueue,
    end_signal_held: bool,
}

impl LAudioPlayer {
    /// The shared playback context.
    pub closed spec fn ctx(self) -> PlaybackContext {
        self.context
    }

    /// The decoded track currently owned, if any.
    pub closed spec fn track(self) -> Option<TrackBuffer> {
        self.current_track
    }

    /// The model of the device queue.
    pub closed spec fn render_queue(self) -> RenderQueue {
        self.queue
    }

    /// Whether the controller still holds an undrained completion signal of
    /// the session appended last.
    pub closed spec fn signal_held(self) -> bool {
        self.end_signal_held
    }

    /// Validity: volume within the meaningful range, nonzero speed and
    /// sampling cadence, a well-sequenced queue, and a live session only
    /// while a decoded track and its completion signal are held.
    pub open spec fn wf(self) -> bool {
        &&& self.ctx().volume <= 200
        &&& self.ctx().speed >= 1
        &&& self.ctx().sample_interval_ms >= 1
        &&& self.render_queue().wf()
        &&& (self.render_queue().live is Some ==> self.signal_held() && self.track() is Some)
        &&& (self.track() matches Some(t) ==> t.wf())
    }

    /// Builds a controller with an initial context, no track, and an empty
    /// queue that keeps the device alive while idle. The device itself is
    /// opened by the caller; this is the controller-side state.
    pub fn new_idle() -> (r: LAudioPlayer)
        ensures
            r.wf(),
            r.ctx() == PlaybackContext::initial(),
            r.track() is None,
            r.render_queue().live is None,
            r.render_queue().log@ == Seq::<QueueEvent>::empty(),
            r.render_queue().keep_alive,
            !r.signal_held(),
    {
        LAudioPlayer {
            context: PlaybackContext::new(),
            current_track: None,
            queue: RenderQueue { live: None, log: Vec::new(), keep_alive: true },
            end_signal_held: false,
        }
    }

    /// Decodes the supplied bytes into a fresh track buffer, replacing the
    /// current one; on failure nothing changes.
    fn set_current_track(&mut self, track: &Bytes) -> (r: Result<(), PlayerError>)
        requires
            old(self).wf(),
        ensures
            final(self).wf(),
            final(self).ctx() == old(self).ctx(),
            final(self).render_queue() == old(self).render_queue(),
            final(self).signal_held() == old(self).signal_held(),
            r is Ok <==> wav_well_formed(bytes_content(*track)),
            r is Err ==> *final(self) == *old(self),
            r is Ok ==> (final(self).track() matches Some(t) && {
                &&& t.wf()
                &&& t.channels == u16_le(bytes_content(*track), 22)
                &&& t.sample_rate == u32_le(bytes_content(*track), 24)
                &&& t.data@ == bytes_content(*track).subrange(
                    44,
                    bytes_content(*track).len() as int,
                )
            }),
    {
        let data = bytes_as_slice(track);
        match TrackBuffer::decode(data) {
            Ok(t) => {
                self.current_track = Some(t);
                Ok(())
            },
            Err(e) => Err(e),
        }
    }

    /// Builds a render chain from the current context — sliced from
    /// `progress_ms`, at the current speed, with neutral gain and an open
    /// pause gate — and appends it to the queue as the new live session,
    /// keeping its completion signal. Without a decoded track this does
    /// nothing.
    fn start_play(&mut self)
        requires
            old(self).wf(),
            old(self).render_queue().live is None,
        ensures
            final(self).wf(),
            final(self).ctx() == old(self).ctx(),
            final(self).track() == old(self).track(),
            final(self).render_queue().keep_alive == old(self).render_queue().keep_alive,
            old(self).track() is Some ==> {
                &&& final(self).render_queue().live == Some(fresh_session(old(self).ctx()))
                &&& final(self).render_queue().log@ == old(self).render_queue().log@.push(
                    QueueEvent::Appended,
                )
                &&& final(self).signal_held()
            },
            old(self).track() is None ==> *final(self) == *old(self),
    {
        if self.current_track.is_some() {
            let s = RenderSession {
                start_ms: self.context.progress_ms,
                speed: self.context.speed,
                gain: 100,
                gated_paused: false,
            };
            self.queue.live = Some(s);
            self.queue.log.push(QueueEvent::Appended);
            self.end_signal_held = true;
            proof {
                assert forall|i: int| 0 <= i < self.queue.log@.len() implies self.queue.log@[i]
                    == (if i % 2 == 0 {
                    QueueEvent::Appended
                } else {
                    QueueEvent::Completed
                }) by {
                    if i < old(self).queue.log@.len() {
                        assert(well_sequenced(old(self).queue.log@));
                    }
                }
            }
        }
    }

    /// Blocks until the live session's completion signal fires, then lets go
    /// of the signal. In the model the wait is observed as the completion of
    /// the live session, logged strictly after its append.
    pub fn sleep_until_end(&mut self)
        requires
            old(self).wf(),
        ensures
            final(self).wf(),
            final(self).ctx() == old(self).ctx(),
            final(self).track() == old(self).track(),
            !final(self).signal_held(),
            final(self).render_queue().live is None,
            final(self).render_queue().keep_alive == old(self).render_queue().keep_alive,
            old(self).render_queue().live is Some ==> final(self).render_queue().log@ == old(
                self,
            ).render_queue().log@.push(QueueEvent::Completed),
            old(self).render_queue().live is None ==> final(self).render_queue().log@ == old(
                self,
            ).render_queue().log@,
    {
        if self.queue.live.is_some() {
            self.queue.live = None;
            self.queue.log.push(QueueEvent::Completed);
            proof {
                assert forall|i: int| 0 <= i < self.queue.log@.len() implies self.queue.log@[i]
                    == (if i % 2 == 0 {
                    QueueEvent::Appended
                } else {
                    QueueEvent::Completed
                }) by {
                    if i < old(self).queue.log@.len() {
                        assert(well_sequenced(old(self).queue.log@));
                    }
                }
            }
        }
        self.end_signal_held = false;
    }

    /// Sets the one-shot drain flag: the live session observes it on its
    /// next sampling tick and terminates early. Cooperative, not preemptive.
    pub fn drain_sink(&mut self)
        requires
            old(self).wf(),
        ensures
            final(self).wf(),
            final(self).ctx() == (PlaybackContext { stopped: true, ..old(self).ctx() }),
            final(self).track() == old(self).track(),
            final(self).render_queue() == old(self).render_queue(),
            final(self).signal_held() == old(self).signal_held(),
    {
        self.context.stopped = true;
    }

    /// Replays the current track under the present context: asks the live
    /// session to stop, waits until its completion signal has fired, clears
    /// the drain flag, and only then appends a chain rebuilt from
    /// `progress_ms` and the current speed. This is the single serialization
    /// point that keeps two sessions from rendering at once.
    pub fn replay(&mut self)
        requires
            old(self).wf(),
        ensures
            final(self).wf(),
            final(self).ctx() == (PlaybackContext { stopped: false, ..old(self).ctx() }),
            final(self).track() == old(self).track(),
            old(self).track() is Some ==> {
                &&& session_restarted(
                    old(self).render_queue(),
                    final(self).render_queue(),
                    fresh_session(old(self).ctx()),
                )
                &&& final(self).signal_held()
            },
            old(self).track() is None ==> {
                &&& queue_frozen(old(self).render_queue(), final(self).render_queue())
                &&& !final(self).signal_held()
            },
    {
        self.drain_sink();
        self.sleep_until_end();
        self.context.stopped = false;
        self.start_play();
        proof {
            if old(self).current_track is Some {
                if old(self).queue.live is Some {
                    assert(self.queue.log@ =~= old(self).queue.log@ + seq![
                        QueueEvent::Completed,
                        QueueEvent::Appended,
                    ]);
                } else {
                    assert(self.queue.log@ =~= old(self).queue.log@ + seq![QueueEvent::Appended]);
                }
            }
        }
    }

    /// Decodes the bytes into a new track (propagating the decode error and
    /// changing nothing on failure), resets the position to zero, discards
    /// any in-flight session by draining it, and starts a new session at
    /// offset zero.
    pub fn play(&mut self, track: Bytes) -> (r: Result<(), PlayerError>)
        requires
            old(self).wf(),
        ensures
            final(self).wf(),
            r is Ok <==> wav_well_formed(bytes_content(track)),
            r is Err ==> (r matches Err(e) && e is DecodeTrackError && *final(self) == *old(
                self,
            )),
            r is Ok ==> {
                &&& final(self).ctx() == (PlaybackContext {
                    progress_ms: 0,
                    stopped: false,
                    ..old(self).ctx()
                })
                &&& (final(self).track() matches Some(t) && {
                    &&& t.wf()
                    &&& t.channels == u16_le(bytes_content(track), 22)
                    &&& t.sample_rate == u32_le(bytes_content(track), 24)
                    &&& t.data@ == bytes_content(track).subrange(
                        44,
                        bytes_content(track).len() as int,
                    )
                })
                &&& session_restarted(
                    old(self).render_queue(),
                    final(self).render_queue(),
                    (RenderSession {
                        start_ms: 0,
                        speed: old(self).ctx().speed,
                        gain: 100,
                        gated_paused: false,
                    }),
                )
                &&& final(self).signal_held()
            },
    {
        let decoded = self.set_current_track(&track);
        match decoded {
            Err(e) => Err(e),
            Ok(()) => {
                self.context.progress_ms = 0;
                self.replay();
                Ok(())
            },
        }
    }

    /// Asks the live session to stop; it terminates within one sampling
    /// tick. Transport calls other than `play` never fail.
    pub fn stop(&mut self)
        requires
            old(self).wf(),
        ensures
            final(self).wf(),
            final(self).ctx() == (PlaybackContext { stopped: true, ..old(self).ctx() }),
            final(self).track() == old(self).track(),
            final(self).render_queue() == old(self).render_queue(),
            final(self).signal_held() == old(self).signal_held(),
    {
        self.drain_sink();
    }

    /// Sets the pause flag; the sampler applies it within one tick. Pausing
    /// while already paused changes nothing at all, and no session restarts.
    pub fn pause(&mut self)
        requires
            old(self).wf(),
        ensures
            final(self).wf(),
            final(self).ctx() == (PlaybackContext { paused: true, ..old(self).ctx() }),
            final(self).track() == old(self).track(),
            final(self).render_queue() == old(self).render_queue(),
            final(self).signal_held() == old(self).signal_held(),
            old(self).ctx().paused ==> *final(self) == *old(self),
    {
        self.context.paused = true;
    }

    /// Clears the pause flag; the sampler applies it within one tick.
    /// Resuming while not paused changes nothing at all, and no session
    /// restarts.
    pub fn resume(&mut self)
        requires
            old(self).wf(),
        ensures
            final(self).wf(),
            final(self).ctx() == (PlaybackContext { paused: false, ..old(self).ctx() }),
            final(self).track() == old(self).track(),
            final(self).render_queue() == old(self).render_queue(),
            final(self).signal_held() == old(self).signal_held(),
            !old(self).ctx().paused ==> *final(self) == *old(self),
    {
        self.context.paused = false;
    }

    /// Whether playback is paused.
    pub fn is_paused(&self) -> (r: bool)
        ensures
            r == self.ctx().paused,
    {
        self.context.paused
    }

    /// The current volume in hundredths; `100` is unfiltered input.
    pub fn volume(&self) -> (r: u8)
        ensures
            r == self.ctx().volume,
    {
        self.context.volume
    }

    /// Sets the volume in hundredths. Callers clamp to the meaningful range
    /// `0..=200`.
    pub fn set_volume(&mut self, value: u8)
        requires
            old(self).wf(),
            value <= 200,
        ensures
            final(self).wf(),
            final(self).ctx() == (PlaybackContext { volume: value, ..old(self).ctx() }),
            final(self).track() == old(self).track(),
            final(self).render_queue() == old(self).render_queue(),
            final(self).signal_held() == old(self).signal_held(),
    {
        self.context.volume = value;
    }

    /// Sets the speed factor in hundredths; it takes effect on the next
    /// session restart. Callers keep it nonzero.
    pub fn set_speed(&mut self, value: u32)
        requires
            old(self).wf(),
            value >= 1,
        ensures
            final(self).wf(),
            final(self).ctx() == (PlaybackContext { speed: value, ..old(self).ctx() }),
            final(self).track() == old(self).track(),
            final(self).render_queue() == old(self).render_queue(),
            final(self).signal_held() == old(self).signal_held(),
    {
        self.context.speed = value;
    }

    /// Raises the volume by `delta` hundredths and reports the result. At
    /// the ceiling nothing is applied; below it the sum is clamped to `200`,
    /// so the reported volume never exceeds the meaningful range. No session
    /// restarts.
    pub fn increase_volume(&mut self, delta: u8) -> (r: u8)
        requires
            old(self).wf(),
        ensures
            final(self).wf(),
            r <= 200,
            r == final(self).ctx().volume,
            final(self).ctx() == (PlaybackContext {
                volume: final(self).ctx().volume,
                ..old(self).ctx()
            }),
            final(self).track() == old(self).track(),
            final(self).render_queue() == old(self).render_queue(),
            final(self).signal_held() == old(self).signal_held(),
            old(self).ctx().volume >= 200 ==> *final(self) == *old(self),
            old(self).ctx().volume < 200 ==> final(self).ctx().volume == (if old(
                self,
            ).ctx().volume + delta <= 200 {
                old(self).ctx().volume + delta
            } else {
                200
            }),
    {
        let vol: u8 = self.context.volume;
        if vol >= 200 {
            return vol;
        }
        let sum: u16 = (vol as u16) + (delta as u16);
        let next: u8 = if sum <= 200 {
            sum as u8
        } else {
            200
        };
        self.context.volume = next;
        next
    }

    /// Lowers the volume by `delta` hundredths and reports the result. At
    /// the floor nothing is applied; above it the difference saturates at
    /// zero, so the reported volume never undershoots the meaningful range.
    /// No session restarts.
    pub fn decrease_volume(&mut self, delta: u8) -> (r: u8)
        requires
            old(self).wf(),
        ensures
            final(self).wf(),
            r <= 200,
            r == final(self).ctx().volume,
            final(self).ctx() == (PlaybackContext {
                volume: final(self).ctx().volume,
                ..old(self).ctx()
            }),
            final(self).track() == old(self).track(),
            final(self).render_queue() == old(self).render_queue(),
            final(self).signal_held() == old(self).signal_held(),
            old(self).ctx().volume == 0 ==> *final(self) == *old(self) && r == 0,
            old(self).ctx().volume > 0 ==> final(self).ctx().volume == (if delta < old(
                self,
            ).ctx().volume {
                old(self).ctx().volume - delta
            } else {
                0
            }),
    {
        let vol: u8 = self.context.volume;
        if vol == 0 {
            return 0;
        }
        let next: u8 = if delta < vol {
            vol - delta
        } else {
            0
        };
        self.context.volume = next;
        next
    }

    /// Moves the position to `progress_ms` and restarts rendering there: the
    /// prior session's completion signal fires strictly before the new
    /// session is appended.
    pub fn seek_ms(&mut self, progress_ms: u64)
        requires
            old(self).wf(),
        ensures
            final(self).wf(),
            final(self).ctx() == (PlaybackContext {
                progress_ms: progress_ms,
                stopped: false,
                ..old(self).ctx()
            }),
            final(self).track() == old(self).track(),
            old(self).track() is Some ==> {
                &&& session_restarted(
                    old(self).render_queue(),
                    final(self).render_queue(),
                    (RenderSession {
                        start_ms: progress_ms,
                        speed: old(self).ctx().speed,
                        gain: 100,
                        gated_paused: false,
                    }),
                )
                &&& final(self).signal_held()
            },
            old(self).track() is None ==> queue_frozen(
                old(self).render_queue(),
                final(self).render_queue(),
            ),
    {
        self.context.progress_ms = progress_ms;
        self.replay();
    }

    /// Moves the position forward by `dur_millis` (saturating at the
    /// counter's maximum) and restarts rendering there.
    pub fn forward(&mut self, dur_millis: u64)
        requires
            old(self).wf(),
        ensures
            final(self).wf(),
            final(self).ctx() == (PlaybackContext {
                progress_ms: sat_add64(old(self).ctx().progress_ms, dur_millis),
                stopped: false,
                ..old(self).ctx()
            }),
            final(self).track() == old(self).track(),
            old(self).track() is Some ==> {
                &&& session_restarted(
                    old(self).render_queue(),
                    final(self).render_queue(),
                    (RenderSession {
                        start_ms: sat_add64(old(self).ctx().progress_ms, dur_millis),
                        speed: old(self).ctx().speed,
                        gain: 100,
                        gated_paused: false,
                    }),
                )
                &&& final(self).signal_held()
            },
            old(self).track() is None ==> queue_frozen(
                old(self).render_queue(),
                final(self).render_queue(),
            ),
    {
        let p: u64 = self.context.progress_ms;
        self.context.progress_ms = if p <= u64::MAX - dur_millis {
            p + dur_millis
        } else {
            u64::MAX
        };
        self.replay();
    }

    /// Moves the position back by `dur_millis` and restarts rendering there.
    /// The subtraction saturates: rewinding past the start leaves the
    /// position at zero, never below.
    pub fn rewind(&mut self, dur_millis: u64)
        requires
            old(self).wf(),
        ensures
            final(self).wf(),
            final(self).ctx() == (PlaybackContext {
                progress_ms: (if old(self).ctx().progress_ms <= dur_millis {
                    0
                } else {
                    old(self).ctx().progress_ms - dur_millis
                }) as u64,
                stopped: false,
                ..old(self).ctx()
            }),
            dur_millis > old(self).ctx().progress_ms ==> final(self).ctx().progress_ms == 0,
            final(self).track() == old(self).track(),
            old(self).track() is Some ==> {
                &&& session_restarted(
                    old(self).render_queue(),
                    final(self).render_queue(),
                    (RenderSession {
                        start_ms: final(self).ctx().progress_ms,
                        speed: old(self).ctx().speed,
                        gain: 100,
                        gated_paused: false,
                    }),
                )
                &&& final(self).signal_held()
            },
            old(self).track() is None ==> queue_frozen(
                old(self).render_queue(),
                final(self).render_queue(),
            ),
    {
        let cursor: u64 = {
            let old_ms: u64 = self.context.progress_ms;
            let new_ms: u64 = if old_ms <= dur_millis {
                0
            } else {
                old_ms - dur_millis
            };
            new_ms
        };
        self.context.progress_ms = cursor;
        self.replay();
    }

    /// Sets the speed factor (hundredths, nonzero) and restarts rendering so
    /// the new factor takes effect.
    pub fn speed(&mut self, factor: u32)
        requires
            old(self).wf(),
            factor >= 1,
        ensures
            final(self).wf(),
            final(self).ctx() == (PlaybackContext {
                speed: factor,
                stopped: false,
                ..old(self).ctx()
            }),
            final(self).track() == old(self).track(),
            old(self).track() is Some ==> {
                &&& session_restarted(
                    old(self).render_queue(),
                    final(self).render_queue(),
                    (RenderSession {
                        start_ms: old(self).ctx().progress_ms,
                        speed: factor,
                        gain: 100,
                        gated_paused: false,
                    }),
                )
                &&& final(self).signal_held()
            },
            old(self).track() is None ==> queue_frozen(
                old(self).render_queue(),
                final(self).render_queue(),
            ),
    {
        self.set_speed(factor);
        self.replay();
    }

    /// A snapshot of the shared playback context, for external inspection.
    pub fn playback_context(&self) -> (r: PlaybackContext)
        ensures
            r == self.ctx(),
    {
        self.context
    }

    /// One sampling tick, as the render thread runs it inside the chain at
    /// the fixed cadence: a stop request terminates the live session and its
    /// completion signal fires; otherwise volume and pause are applied as
    /// the chain's gates and the position advances by one interval unless
    /// paused.
    pub fn tick(&mut self)
        requires
            old(self).wf(),
        ensures
            final(self).wf(),
            final(self).track() == old(self).track(),
            final(self).signal_held() == old(self).signal_held(),
            final(self).render_queue().keep_alive == old(self).render_queue().keep_alive,
            old(self).render_queue().live is None ==> *final(self) == *old(self),
            old(self).render_queue().live is Some && old(self).ctx().stopped ==> {
                &&& final(self).ctx() == old(self).ctx()
                &&& final(self).render_queue().live is None
                &&& final(self).render_queue().log@ == old(self).render_queue().log@.push(
                    QueueEvent::Completed,
                )
            },
            old(self).render_queue().live matches Some(s) ==> !old(self).ctx().stopped ==> {
                &&& final(self).render_queue().log@ == old(self).render_queue().log@
                &&& final(self).render_queue().live == Some((RenderSession {
                    gain: old(self).ctx().volume,
                    gated_paused: old(self).ctx().paused,
                    ..s
                }))
                &&& final(self).ctx() == (PlaybackContext {
                    progress_ms: (if old(self).ctx().paused {
                        old(self).ctx().progress_ms
                    } else {
                        sat_add64(old(self).ctx().progress_ms, old(self).ctx().sample_interval_ms)
                    }),
                    ..old(self).ctx()
                })
            },
    {
        if self.queue.live.is_some() {
            match sampler_step(&self.context) {
                SamplerAction::Halt => {
                    self.queue.live = None;
                    self.queue.log.push(QueueEvent::Completed);
                    proof {
                        assert forall|i: int|
                            0 <= i < self.queue.log@.len() implies self.queue.log@[i] == (if i % 2
                            == 0 {
                            QueueEvent::Appended
                        } else {
                            QueueEvent::Completed
                        }) by {
                            if i < old(self).queue.log@.len() {
                                assert(well_sequenced(old(self).queue.log@));
                            }
                        }
                    }
                },
                SamplerAction::Apply { gain, pause_gate, advance } => {
                    if let Some(s) = self.queue.live {
                        self.queue.live = Some(
                            RenderSession { gain: gain, gated_paused: pause_gate, ..s },
                        );
                    }
                    if advance {
                        let p: u64 = self.context.progress_ms;
                        let step: u64 = self.context.sample_interval_ms;
                        self.context.progress_ms = if p <= u64::MAX - step {
                            p + step
                        } else {
                            u64::MAX
                        };
                    }
                },
            }
        }
    }

    /// Releases the controller without signalling a stop: the device queue
    /// stays as it is and in-flight audio finishes on its own, but it no
    /// longer keeps the device alive once empty. With the controller gone,
    /// no transport call can reach the session any more.
    pub fn detach(self) -> (r: RenderState)
        requires
            self.wf(),
        ensures
            r.context == self.ctx(),
            r.queue.live == self.render_queue().live,
            r.queue.log@ == self.render_queue().log@,
            !r.queue.keep_alive,
            r.queue.wf(),
    {
        let LAudioPlayer { context, current_track: _, queue, end_signal_held: _ } = self;
        RenderState {
            context,
            queue: RenderQueue { live: queue.live, log: queue.log, keep_alive: false },
        }
    }

    /// Releases the controller on the normal teardown path: signals the
    /// live session to stop and stops keeping the device alive once the
    /// queue is empty.
    pub fn close(self) -> (r: RenderState)
        requires
            self.wf(),
        ensures
            r.context == (PlaybackContext { stopped: true, ..self.ctx() }),
            r.queue.live == self.render_queue().live,
            r.queue.log@ == self.render_queue().log@,
            !r.queue.keep_alive,
            r.queue.wf(),
    {
        let LAudioPlayer { context, current_track: _, queue, end_signal_held: _ } = self;
        RenderState {
            context: PlaybackContext { stopped: true, ..context },
            queue: RenderQueue { live: queue.live, log: queue.log, keep_alive: false },
        }
    }

    /// The decoded track currently owned, if any.
    pub fn current_track(&self) -> (r: &Option<TrackBuffer>)
        ensures
            *r == self.track(),
    {
        &self.current_track
    }

    /// Number of events in the render-queue history.
    pub fn log_len(&self) -> (r: usize)
        ensures
            r == self.render_queue().log@.len(),
    {
        self.queue.log.len()
    }

    /// The history event at position `i`, oldest first.
    pub fn log_event(&self, i: usize) -> (r: QueueEvent)
        requires
            i < self.render_queue().log@.len(),
        ensures
            r == self.render_queue().log@[i as int],
    {
        self.queue.log[i]
    }

    /// The live session, if one occupies the queue.
    pub fn live_session(&self) -> (r: Option<RenderSession>)
        ensures
            r == self.render_queue().live,
    {
        self.queue.live
    }
}

/// The volume a well-formed controller stores — and therefore every volume
/// it reports — lies within the meaningful range `0..=200`. Every transport
/// operation preserves well-formedness, so this holds across any sequence of
/// `increase_volume` and `decrease_volume` calls.
pub proof fn lemma_volume_within_range(p: LAudioPlayer)
    requires
        p.wf(),
    ensures
        0 <= p.ctx().volume <= 200,
{
}

/// In a well-sequenced render history no two sessions ever overlap: between
/// any two appends, a completion signal fired strictly after the first and
/// strictly before the second.
pub proof fn lemma_sessions_serialized(log: Seq<QueueEvent>, i: int, j: int)
    requires
        well_sequenced(log),
        0 <= i < j < log.len(),
        log[i] == QueueEvent::Appended,
        log[j] == QueueEvent::Appended,
    ensures
        exists|k: int| i < k < j && log[k] == QueueEvent::Completed,
{
    assert(i % 2 == 0);
    assert(j % 2 == 0);
    assert(i + 1 < j);
    assert(log[i + 1] == QueueEvent::Completed);
}

/// The serialization guarantee, on any well-formed controller: of any two
/// sessions its history shows appended, the earlier one's completion signal
/// fired strictly before the later one was appended. Every transport call
/// preserves well-formedness, so this holds after any call sequence — in
/// particular after `seek_ms`, `forward`, `rewind` and `speed`.
pub proof fn lemma_player_history_serialized(p: LAudioPlayer, i: int, j: int)
    requires
        p.wf(),
        0 <= i < j < p.render_queue().log@.len(),
        p.render_queue().log@[i] == QueueEvent::Appended,
        p.render_queue().log@[j] == QueueEvent::Appended,
    ensures
        exists|k: int| i < k < j && p.render_queue().log@[k] == QueueEvent::Completed,
{
    lemma_sessions_serialized(p.render_queue().log@, i, j);
}

} // verus!
