//! Sequential orchestration of synthesis, decoding and playback.
//!
//! The orchestrator is a state machine. The caller owns the outside world
//! (the synthesis process, the audio decoder, the output device); it asks
//! the orchestrator what to do next, performs that action, and reports the
//! outcome back as an event. The orchestrator decides, for every segment in
//! order: synthesize, decode, play to completion, then move on — and it
//! aborts the whole run on the first error, recording which segment failed
//! and how many had already played.

use vstd::prelude::*;

use crate::segmenter::seg_views;
use crate::segmenter::segments;
use crate::segmenter::split_by_stop_words;

verus! {

/// Which layer of the pipeline failed.
#[derive(Clone, Copy, Debug, PartialEq, Eq)]
pub enum FailureKind {
    /// The synthesis engine could not be launched at all.
    SynthesisUnavailable,
    /// The engine ran but reported a non-zero exit status.
    SynthesisFailed,
    /// The engine's output exists but could not be decoded as audio.
    AudioDecodeFailed,
    /// The output device could not be opened, or failed mid-stream.
    PlaybackDeviceUnavailable,
}

/// The first error of a run: what failed, on which segment, and how many
/// segments had already played to completion.
#[derive(Debug)]
pub struct Failure {
    pub kind: FailureKind,
    pub segment_index: usize,
    pub segment_text: String,
    pub segments_played: usize,
}

/// Summary of a fully successful run.
#[derive(Debug)]
pub struct Summary {
    pub segments_played: usize,
}

/// What the pipeline is waiting on.
#[derive(Clone, Copy, Debug, PartialEq, Eq)]
pub enum Phase {
    /// Waiting for the playback sink to open.
    OpeningSink,
    /// Waiting for the synthesis engine on the current segment.
    Synthesizing,
    /// Waiting for the current segment's audio to be decoded.
    Decoding,
    /// Waiting for playback of the current segment to finish.
    Playing,
    /// All segments played.
    Done,
    /// Aborted on the first error.
    Failed,
}

/// The outcome of one action, reported back by the caller.
#[derive(Clone, Copy, Debug, PartialEq, Eq)]
pub enum Event {
    SinkOpened,
    SinkOpenFailed,
    /// The engine could not be launched (missing binary, permissions).
    SynthLaunchFailed,
    /// The engine ran to completion; `success` is its exit status.
    SynthExited { success: bool },
    DecodeSucceeded,
    DecodeFailed,
    PlayFinished,
    PlayFailed,
}

/// What the caller must do next.
#[derive(Clone, Copy, Debug, PartialEq, Eq)]
pub enum Action {
    /// Open the output device and its playback sink.
    OpenSink,
    /// Run the synthesis engine on the segment with this index.
    Synthesize { index: usize },
    /// Decode the audio the engine just wrote for this segment.
    Decode { index: usize },
    /// Enqueue the decoded audio and block until it finishes playing.
    Play { index: usize },
    /// The run is over; collect the outcome.
    Finish,
}

/// Driver of one text-to-speech run.
pub struct Orchestrator {
    pub segments: Vec<String>,
    pub played: usize,
    pub phase: Phase,
    pub failure: Option<Failure>,
}

impl Orchestrator {
    /// Internal consistency: the played count stays within bounds, working
    /// phases point at a real current segment, and a failure report exists
    /// exactly in the failed phase and names the current segment.
    pub open spec fn wf(self) -> bool {
        &&& self.segments@.len() <= usize::MAX
        &&& self.played <= self.segments@.len()
        &&& (self.phase == Phase::Done ==> self.played == self.segments@.len())
        &&& (self.phase == Phase::OpeningSink ==> self.played == 0 && self.segments@.len() > 0)
        &&& (self.phase == Phase::Synthesizing || self.phase == Phase::Decoding || self.phase
            == Phase::Playing ==> self.played < self.segments@.len())
        &&& (self.phase == Phase::Failed <==> self.failure is Some)
        &&& (self.failure matches Some(f) ==> f.segments_played == self.played
            && f.segment_index == self.played && f.segment_index < self.segments@.len()
            && f.segment_text == self.segments@[f.segment_index as int])
    }

    /// The state after a failure of the given kind on the current segment.
    pub open spec fn spec_fail(self, kind: FailureKind) -> Orchestrator {
        Orchestrator {
            phase: Phase::Failed,
            failure: Some(
                Failure {
                    kind,
                    segment_index: self.played,
                    segment_text: self.segments@[self.played as int],
                    segments_played: self.played,
                },
            ),
            ..self
        }
    }

    /// The transition relation: the state after event `ev` arrives in state
    /// `self`. An event that does not belong to the current phase changes
    /// nothing; terminal states absorb every event.
    pub open spec fn spec_step(self, ev: Event) -> Orchestrator {
        match self.phase {
            Phase::OpeningSink => match ev {
                Event::SinkOpened => Orchestrator { phase: Phase::Synthesizing, ..self },
                Event::SinkOpenFailed => self.spec_fail(FailureKind::PlaybackDeviceUnavailable),
                _ => self,
            },
            Phase::Synthesizing => match ev {
                Event::SynthLaunchFailed => self.spec_fail(FailureKind::SynthesisUnavailable),
                Event::SynthExited { success } => if success {
                    Orchestrator { phase: Phase::Decoding, ..self }
                } else {
                    self.spec_fail(FailureKind::SynthesisFailed)
                },
                _ => self,
            },
            Phase::Decoding => match ev {
                Event::DecodeSucceeded => Orchestrator { phase: Phase::Playing, ..self },
                Event::DecodeFailed => self.spec_fail(FailureKind::AudioDecodeFailed),
                _ => self,
            },
            Phase::Playing => match ev {
                Event::PlayFinished => Orchestrator {
                    played: (self.played + 1) as usize,
                    phase: if self.played + 1 == self.segments@.len() {
                        Phase::Done
                    } else {
                        Phase::Synthesizing
                    },
                    ..self
                },
                Event::PlayFailed => self.spec_fail(FailureKind::PlaybackDeviceUnavailable),
                _ => self,
            },
            Phase::Done => self,
            Phase::Failed => self,
        }
    }

    /// Starts a run: segments the text. An empty text has nothing to play,
    /// so the run is already done and no device is ever opened.
    pub fn new(text: &str) -> (o: Orchestrator)
        ensures
            o.wf(),
            seg_views(o.segments@) == segments(text@),
            o.played == 0,
            o.failure is None,
            o.phase == (if segments(text@).len() == 0 {
                Phase::Done
            } else {
                Phase::OpeningSink
            }),
    {
        let segs = split_by_stop_words(text);
        proof {
            assert(seg_views(segs@).len() == segs@.len());
        }
        let phase = if segs.len() == 0 {
            Phase::Done
        } else {
            Phase::OpeningSink
        };
        Orchestrator { segments: segs, played: 0, phase, failure: None }
    }

    /// What the caller must do next in the current phase.
    pub fn next_action(&self) -> (a: Action)
        ensures
            self.phase == Phase::OpeningSink ==> a == Action::OpenSink,
            self.phase == Phase::Synthesizing ==> a == (Action::Synthesize {
                index: self.played,
            }),
            self.phase == Phase::Decoding ==> a == (Action::Decode { index: self.played }),
            self.phase == Phase::Playing ==> a == (Action::Play { index: self.played }),
            self.phase == Phase::Done || self.phase == Phase::Failed ==> a == Action::Finish,
    {
        match self.phase {
            Phase::OpeningSink => Action::OpenSink,
            Phase::Synthesizing => Action::Synthesize { index: self.played },
            Phase::Decoding => Action::Decode { index: self.played },
            Phase::Playing => Action::Play { index: self.played },
            Phase::Done => Action::Finish,
            Phase::Failed => Action::Finish,
        }
    }

    /// Whether the run has reached a terminal state.
    pub fn is_finished(&self) -> (b: bool)
        ensures
            b == (self.phase == Phase::Done || self.phase == Phase::Failed),
    {
        match self.phase {
            Phase::Done => true,
            Phase::Failed => true,
            _ => false,
        }
    }

    /// Advances the state machine by one reported event, exactly as
    /// `spec_step` says.
    pub fn on_event(&mut self, ev: Event)
        requires
            old(self).wf(),
        ensures
            *final(self) == old(self).spec_step(ev),
            final(self).wf(),
            final(self).segments == old(self).segments,
            final(self).played >= old(self).played,
    {
        match self.phase {
            Phase::OpeningSink => match ev {
                Event::SinkOpened => {
                    self.phase = Phase::Synthesizing;
                },
                Event::SinkOpenFailed => {
                    self.fail(FailureKind::PlaybackDeviceUnavailable);
                },
                _ => {},
            },
            Phase::Synthesizing => match ev {
                Event::SynthLaunchFailed => {
                    self.fail(FailureKind::SynthesisUnavailable);
                },
                Event::SynthExited { success } => {
                    if success {
                        self.phase = Phase::Decoding;
                    } else {
                        self.fail(FailureKind::SynthesisFailed);
                    }
                },
                _ => {},
            },
            Phase::Decoding => match ev {
                Event::DecodeSucceeded => {
                    self.phase = Phase::Playing;
                },
                Event::DecodeFailed => {
                    self.fail(FailureKind::AudioDecodeFailed);
                },
                _ => {},
            },
            Phase::Playing => match ev {
                Event::PlayFinished => {
                    let n = self.segments.len();
                    self.played = self.played + 1;
                    if self.played == n {
                        self.phase = Phase::Done;
                    } else {
                        self.phase = Phase::Synthesizing;
                    }
                },
                Event::PlayFailed => {
                    self.fail(FailureKind::PlaybackDeviceUnavailable);
                },
                _ => {},
            },
            Phase::Done => {},
            Phase::Failed => {},
        }
    }

    /// Records the first error: the run moves to the failed phase with a
    /// report naming the current segment.
    fn fail(&mut self, kind: FailureKind)
        requires
            old(self).wf(),
            old(self).phase == Phase::OpeningSink || old(self).phase == Phase::Synthesizing
                || old(self).phase == Phase::Decoding || old(self).phase == Phase::Playing,
        ensures
            *final(self) == old(self).spec_fail(kind),
    {
        let text = self.segments[self.played].clone();
        self.failure = Some(
            Failure {
                kind,
                segment_index: self.played,
                segment_text: text,
                segments_played: self.played,
            },
        );
        self.phase = Phase::Failed;
    }

    /// The number of segments of this run.
    pub fn segment_count(&self) -> (n: usize)
        ensures
            n == self.segments@.len(),
    {
        self.segments.len()
    }

    /// The text of the segment with the given index.
    pub fn segment_at(&self, i: usize) -> (s: &String)
        requires
            i < self.segments@.len(),
        ensures
            s == self.segments@[i as int],
    {
        &self.segments[i]
    }

    /// The result of a finished run: a summary with the number of segments
    /// played, or the failure report of the first error.
    pub fn outcome(self) -> (r: Result<Summary, Failure>)
        requires
            self.wf(),
            self.phase == Phase::Done || self.phase == Phase::Failed,
        ensures
            self.phase == Phase::Done ==> (r matches Ok(s) && s.segments_played
                == self.segments@.len()),
            self.phase == Phase::Failed ==> (r matches Err(f) && self.failure == Some(f)),
    {
        match self.failure {
            Some(f) => Err(f),
            None => Ok(Summary { segments_played: self.played }),
        }
    }
}

/// Terminal states absorb every event: once a run is done or failed,
/// nothing further is synthesized, decoded or played.
pub proof fn lemma_terminal_absorbs(st: Orchestrator, ev: Event)
    requires
        st.phase == Phase::Done || st.phase == Phase::Failed,
    ensures
        st.spec_step(ev) == st,
{
}

/// A step never forgets progress and never touches the segment list: the
/// segments stay what the segmenter produced and the played count never
/// decreases.
pub proof fn lemma_step_monotone(st: Orchestrator, ev: Event)
    requires
        st.wf(),
    ensures
        st.spec_step(ev).segments == st.segments,
        st.spec_step(ev).played >= st.played,
{
}

} // verus!
