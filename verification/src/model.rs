//! The mathematical model of the engine: what its state is, and what each
//! operation makes of it and asks of the shell.

use crate::action::{Action, PipelineState, SeekFlags};
use crate::media::MediaFacts;
use vstd::prelude::*;

verus! {

/// The video format of a source's most recent frame. The frame rate is
/// `fps_numer / fps_denom`.
#[derive(Clone, Copy, Debug, PartialEq, Eq, Structural)]
pub struct VideoCaps {
    pub width: u32,
    pub height: u32,
    pub fps_numer: i32,
    pub fps_denom: i32,
}

/// One open tab.
pub struct Tab<S> {
    pub path: Seq<char>,
    pub handle: S,
    pub latest: Option<VideoCaps>,
    pub info: Option<MediaFacts>,
    pub starred: bool,
}

/// One tab in the history of closed tabs.
pub struct ClosedModel {
    pub path: Seq<char>,
    pub index: int,
    pub starred: bool,
}

/// The state of the engine.
#[verifier::ext_equal]
pub struct Model<S> {
    pub tabs: Seq<Tab<S>>,
    pub closed: Seq<ClosedModel>,
    pub active: int,
    pub paused: bool,
    pub looping: bool,
    pub duration: Option<u64>,
    pub position: u64,
    pub switch_pending: Option<u64>,
    pub dirty: bool,
}

/// A message on the pipeline's bus, as far as the engine heeds it. A change of
/// duration comes with the duration that the pipeline then reports.
#[derive(Clone, Copy, Debug, PartialEq, Eq, Structural)]
pub enum BusMessage {
    Eos,
    DurationChanged { duration: Option<u64> },
    StateChanged,
    AsyncDone,
    Error,
    Other,
}

/// One more than the greatest 64-bit value.
pub const WORD: u128 = 0x1_0000_0000_0000_0000;

/// A clock time that signed 64-bit arithmetic has arrived at: what is below
/// zero, or comes out below zero, is zero.
pub open spec fn clamped(t: int) -> int {
    let bits = t % (WORD as int);
    if bits <= i64::MAX {
        bits
    } else {
        0
    }
}

/// How long a frame lasts at the rate `numer / denom`, in unsigned 64-bit
/// arithmetic; nothing where the rate is 0.
pub open spec fn frame_duration(caps: VideoCaps) -> Option<u64> {
    if caps.fps_numer == 0 {
        None
    } else {
        let span = (1_000_000_000 * caps.fps_denom) % (WORD as int);
        let rate = (caps.fps_numer as int) % (WORD as int);
        Some((span / rate) as u64)
    }
}

/// How long a frame is taken to last where nothing is known of the rate.
pub const DEFAULT_FRAME_NS: u64 = 33_333_333;

/// The pipeline state that plays or pauses.
pub open spec fn play_state(paused: bool) -> PipelineState {
    if paused {
        PipelineState::Paused
    } else {
        PipelineState::Playing
    }
}

impl<S> Model<S> {
    /// Whether the active index names a tab, or is 0 where there is none.
    pub open spec fn valid(self) -> bool {
        0 <= self.active < self.tabs.len() || (self.active == 0 && self.tabs.len() == 0)
    }

    /// The engine at the start.
    pub open spec fn initial() -> Model<S> {
        Model {
            tabs: Seq::empty(),
            closed: Seq::empty(),
            active: 0,
            paused: true,
            looping: true,
            duration: None,
            position: 0,
            switch_pending: None,
            dirty: true,
        }
    }

    /// What makes the active source the only one that sounds.
    pub open spec fn mutes(self) -> Seq<Action<S>> {
        Seq::new(
            self.tabs.len(),
            |i: int| Action::Mute { index: i as usize, mute: i != self.active },
        )
    }

    /// The position of playback, given what the pipeline reports.
    pub open spec fn current(self, reported: Option<u64>) -> u64 {
        match reported {
            Some(p) => if self.tabs.len() > 0 {
                p
            } else {
                self.position
            },
            None => self.position,
        }
    }

    /// The moment at which a new tab opens: where playback is, or the start
    /// where no tab is open and so nothing is playing.
    pub open spec fn join_at(self, reported: Option<u64>) -> u64 {
        if self.tabs.len() == 0 {
            0
        } else {
            self.current(reported)
        }
    }

    /// How long a frame of the active source lasts.
    pub open spec fn active_frame(self) -> Option<u64> {
        if self.active < self.tabs.len() && self.tabs[self.active].latest is Some {
            frame_duration(self.tabs[self.active].latest->0)
        } else {
            None
        }
    }

    /// How long a frame of the active source is taken to last.
    pub open spec fn frame_or_default(self) -> u64 {
        match self.active_frame() {
            Some(ns) => ns,
            None => DEFAULT_FRAME_NS,
        }
    }

    /// After a seek to `pos`.
    pub open spec fn sought(self, pos: u64) -> Model<S> {
        Model { position: pos, dirty: true, ..self }
    }

    /// After a switch to tab `i` at the time `now`.
    pub open spec fn switched(self, i: int, now: u64) -> Model<S> {
        Model { active: i, switch_pending: Some(now), dirty: true, ..self }
    }

    /// What a switch asks for, from the state after it.
    pub open spec fn switch_actions(self) -> Seq<Action<S>> {
        self.mutes().push(Action::Wake)
    }

    /// After playback is paused or resumed.
    pub open spec fn with_pause(self, paused: bool) -> Model<S> {
        Model { paused, dirty: self.dirty || self.tabs.len() > 0, ..self }
    }

    /// What pausing or resuming asks for.
    pub open spec fn pause_actions(self, paused: bool) -> Seq<Action<S>> {
        if self.tabs.len() > 0 {
            seq![Action::SetState { state: play_state(paused) }]
        } else {
            Seq::empty()
        }
    }

    /// After a source for `path` has been opened in a new last tab, which is
    /// then the active one.
    pub open spec fn opened(
        self,
        path: Seq<char>,
        handle: S,
        reported: Option<u64>,
        now: u64,
    ) -> Model<S> {
        let at = self.join_at(reported);
        let tab = Tab { path, handle, latest: None, info: None, starred: false };
        Model {
            tabs: self.tabs.push(tab),
            active: self.tabs.len() as int,
            position: at,
            switch_pending: Some(now),
            dirty: true,
            ..self
        }
    }

    /// What opening a source asks for: it is prerolled and moved to the shared
    /// position, the pipeline takes the shared state, and all sources are
    /// brought to one position.
    pub open spec fn open_actions(
        self,
        path: Seq<char>,
        handle: S,
        reported: Option<u64>,
        now: u64,
    ) -> Seq<Action<S>> {
        let at = self.join_at(reported);
        let index = self.tabs.len() as usize;
        let preroll = seq![Action::<S>::Preroll { index }];
        let join = if at > 0 {
            seq![Action::<S>::SeekSource { index, pos: at, flags: SeekFlags::accurate() }]
        } else {
            Seq::empty()
        };
        let state = seq![Action::<S>::SetState { state: play_state(self.paused) }];
        let align = if at > 0 {
            seq![Action::<S>::Seek { pos: at, flags: SeekFlags::flushing() }]
        } else {
            Seq::empty()
        };
        preroll + join + state + align + self.opened(path, handle, reported, now).switch_actions()
    }

    /// The tab that is recorded when tab `i` is closed.
    pub open spec fn record(self, i: int) -> ClosedModel {
        ClosedModel { path: self.tabs[i].path, index: i, starred: self.tabs[i].starred }
    }

    /// After tab `i` has been closed. The active tab stays selected; where it
    /// is the one that is closed, its successor is, or the last tab where it
    /// has none. With the last tab everything is rewound.
    pub open spec fn without(self, i: int) -> Model<S> {
        let tabs = self.tabs.remove(i);
        let closed = self.closed.push(self.record(i));
        if tabs.len() == 0 {
            Model { tabs, closed, active: 0, paused: true, duration: None, position: 0, ..self }
        } else {
            let active = if i < self.active || self.active == tabs.len() {
                self.active - 1
            } else {
                self.active
            };
            Model { tabs, closed, active, dirty: true, ..self }
        }
    }

    /// What closing tab `i` asks for.
    pub open spec fn close_actions(self, i: int) -> Seq<Action<S>> {
        let after = self.without(i);
        let detach = seq![Action::Detach { source: self.tabs[i].handle }];
        if after.tabs.len() == 0 {
            detach.push(Action::SetState { state: PipelineState::Ready })
        } else {
            detach + after.switch_actions()
        }
    }

    /// After the star of tab `i` has been flipped.
    pub open spec fn star_flipped(self, i: int) -> Model<S> {
        let tab = self.tabs[i];
        Model {
            tabs: self.tabs.update(i, Tab { starred: !tab.starred, ..tab }),
            dirty: true,
            ..self
        }
    }

    /// The last place that a tab can be moved to, at `to` or before it.
    pub open spec fn place(self, to: int) -> int {
        if to < self.tabs.len() {
            to
        } else {
            self.tabs.len() - 1
        }
    }

    /// Where the tab at `i` goes when the tab at `from` moves to `to`.
    pub open spec fn landed(i: int, from: int, to: int) -> int {
        if i == from {
            to
        } else if from < i <= to {
            i - 1
        } else if to <= i < from {
            i + 1
        } else {
            i
        }
    }

    /// After the tab at `from` has moved to `to`.
    pub open spec fn moved(self, from: int, to: int) -> Model<S> {
        Model {
            tabs: self.tabs.remove(from).insert(to, self.tabs[from]),
            active: Self::landed(self.active, from, to),
            dirty: true,
            ..self
        }
    }

    /// Whether moving the tab at `from` to `to` changes anything.
    pub open spec fn moves(self, from: int, to: int) -> bool {
        from < self.tabs.len() && from != self.place(to)
    }

    /// After a request to move the tab at `from` to `to`.
    pub open spec fn reordered(self, from: int, to: int) -> Model<S> {
        if self.moves(from, to) {
            self.moved(from, self.place(to))
        } else {
            self
        }
    }

    /// What a request to move the tab at `from` to `to` asks for.
    pub open spec fn reorder_actions(self, from: int, to: int) -> Seq<Action<S>> {
        if self.moves(from, to) {
            self.moved(from, self.place(to)).switch_actions()
        } else {
            Seq::empty()
        }
    }

    /// After the last tab has been given a star or none.
    pub open spec fn last_starred(self, starred: bool) -> Model<S> {
        if self.tabs.len() == 0 {
            self
        } else {
            let last = self.tabs.len() - 1;
            Model { tabs: self.tabs.update(last, Tab { starred, ..self.tabs[last] }), ..self }
        }
    }

    /// After the last tab has been given the star and the place of a tab that
    /// was closed.
    pub open spec fn restored(self, index: int, starred: bool) -> Model<S> {
        self.last_starred(starred).reordered(self.tabs.len() - 1, index)
    }

    /// What giving the last tab the place of a closed tab asks for.
    pub open spec fn restore_actions(self, index: int, starred: bool) -> Seq<Action<S>> {
        self.last_starred(starred).reorder_actions(self.tabs.len() - 1, index)
    }

    /// The target of a step to the keyframe behind or ahead.
    pub open spec fn keyframe_target(self, dir: int, reported: Option<u64>) -> int {
        let frame = self.frame_or_default() as int;
        let cur = self.current(reported) as int;
        if dir > 0 {
            let ahead = clamped(cur + frame);
            match self.duration {
                Some(d) => {
                    let last = clamped(d - frame);
                    if ahead < last {
                        ahead
                    } else {
                        last
                    }
                },
                None => ahead,
            }
        } else {
            clamped(cur - frame)
        }
    }

    /// The target of a seek by `delta` from where playback is.
    pub open spec fn relative_target(self, delta: int, reported: Option<u64>) -> int {
        clamped(self.current(reported) + delta)
    }

    /// The target of a step to the frame behind.
    pub open spec fn step_target(self, reported: Option<u64>) -> int {
        clamped(self.current(reported) - self.frame_or_default())
    }

    /// After a tick, given the position and the duration that the pipeline
    /// reports. The duration is taken over until it is known and not zero.
    pub open spec fn ticked(self, position: Option<u64>, duration: Option<u64>) -> Model<S> {
        Model {
            position: self.current(position),
            duration: if self.duration is None || self.duration == Some(0u64) {
                duration
            } else {
                self.duration
            },
            ..self
        }
    }

    /// After one message of the bus.
    pub open spec fn after_message(self, msg: BusMessage) -> Model<S> {
        match msg {
            BusMessage::Eos => if self.looping {
                self.sought(0)
            } else {
                self.sought(0).with_pause(true)
            },
            BusMessage::DurationChanged { duration } => Model { duration, ..self },
            _ => self,
        }
    }

    /// What one message of the bus asks for.
    pub open spec fn message_actions(self, msg: BusMessage) -> Seq<Action<S>> {
        match msg {
            BusMessage::Eos => {
                let rewind = seq![Action::<S>::Seek { pos: 0, flags: SeekFlags::flushing() }];
                if self.looping {
                    rewind
                } else {
                    rewind + self.pause_actions(true)
                }
            },
            _ => Seq::empty(),
        }
    }

    /// After the messages `msgs`, in their order.
    pub open spec fn after_messages(self, msgs: Seq<BusMessage>) -> Model<S>
        decreases msgs.len(),
    {
        if msgs.len() == 0 {
            self
        } else {
            self.after_messages(msgs.drop_last()).after_message(msgs.last())
        }
    }

    /// What the messages `msgs` ask for.
    pub open spec fn messages_actions(self, msgs: Seq<BusMessage>) -> Seq<Action<S>>
        decreases msgs.len(),
    {
        if msgs.len() == 0 {
            Seq::empty()
        } else {
            self.messages_actions(msgs.drop_last()) + self.after_messages(
                msgs.drop_last(),
            ).message_actions(msgs.last())
        }
    }
}

/// Whether a message of the bus calls for a redraw.
pub open spec fn redraws(msg: BusMessage) -> bool {
    !(msg is Error || msg is Other)
}

} // verus!
