//! The playback engine: the open tabs, and every decision about them.
//!
//! One pipeline with one shared clock keeps every source live, with its latest
//! frame retained; that is what makes switching tabs instant. The engine holds
//! the state and decides. The shell owns the pipeline, reports what it reads
//! from it, and carries out the actions that the engine returns.

use crate::action::{Action, PipelineState, SeekFlags};
use crate::media::{MediaFacts, MediaInfo};
use crate::model::{BusMessage, ClosedModel, Model, Tab, VideoCaps, DEFAULT_FRAME_NS, WORD};
use crate::numbers::{human_bytes, magnitude_of, trim_fps};
use crate::text::{basename, decimal_string, is_uri_path, push_decimal};
use vstd::prelude::*;
use vstd::string::*;

verus! {

/// One open video: the shell's handle to it, the format of its most recent
/// frame, and the static media facts once they have been probed.
struct Source<S> {
    handle: S,
    latest: Option<VideoCaps>,
    info: Option<MediaInfo>,
}

/// A tab that the user closed, kept so that it can be brought back at its old
/// place; the one closed last comes back first.
pub(crate) struct ClosedTab {
    pub(crate) path: String,
    pub(crate) index: usize,
    pub(crate) starred: bool,
}

/// The open tabs and the state of playback. `S` is the shell's handle to a
/// source.
pub struct Players<S> {
    tabs: Vec<String>,
    sources: Vec<Source<S>>,
    /// Parallel to `tabs` and `sources`: whether each tab is starred.
    starred: Vec<bool>,
    /// The tabs that the user closed, the latest last.
    closed: Vec<ClosedTab>,
    active: usize,
    paused: bool,
    /// Whether the end of the stream rewinds and keeps playing.
    loop_enabled: bool,
    /// In nanoseconds, once it is known.
    duration: Option<u64>,
    /// In nanoseconds.
    position: u64,
    /// When a tab switch happened that has not been presented yet.
    switch_pending: Option<u64>,
    /// Whether there is new content to show.
    dirty: bool,
}

/// The facts in an optional [`MediaInfo`].
pub open spec fn facts(info: Option<MediaInfo>) -> Option<MediaFacts> {
    match info {
        Some(i) => Some(i@),
        None => None,
    }
}

/// The tabs that parallel lists of paths, sources and stars stand for.
closed spec fn tabs_of<S>(
    paths: Seq<String>,
    sources: Seq<Source<S>>,
    starred: Seq<bool>,
) -> Seq<Tab<S>> {
    Seq::new(
        paths.len(),
        |i: int|
            Tab {
                path: paths[i]@,
                handle: sources[i].handle,
                latest: sources[i].latest,
                info: facts(sources[i].info),
                starred: starred[i],
            },
    )
}

/// The history that a list of closed tabs stands for.
closed spec fn closed_of(closed: Seq<ClosedTab>) -> Seq<ClosedModel> {
    Seq::new(
        closed.len(),
        |i: int|
            ClosedModel {
                path: closed[i].path@,
                index: closed[i].index as int,
                starred: closed[i].starred,
            },
    )
}

/// Removing from the three lists removes the tab.
proof fn tabs_of_remove<S>(
    paths: Seq<String>,
    sources: Seq<Source<S>>,
    starred: Seq<bool>,
    i: int,
)
    requires
        0 <= i < paths.len(),
        sources.len() == paths.len(),
        starred.len() == paths.len(),
    ensures
        tabs_of(paths.remove(i), sources.remove(i), starred.remove(i)) == tabs_of(
            paths,
            sources,
            starred,
        ).remove(i),
{
    assert(tabs_of(paths.remove(i), sources.remove(i), starred.remove(i)) =~= tabs_of(
        paths,
        sources,
        starred,
    ).remove(i));
}

/// Inserting into the three lists inserts the tab.
proof fn tabs_of_insert<S>(
    paths: Seq<String>,
    sources: Seq<Source<S>>,
    starred: Seq<bool>,
    i: int,
    path: String,
    source: Source<S>,
    star: bool,
)
    requires
        0 <= i <= paths.len(),
        sources.len() == paths.len(),
        starred.len() == paths.len(),
    ensures
        tabs_of(paths.insert(i, path), sources.insert(i, source), starred.insert(i, star))
            == tabs_of(paths, sources, starred).insert(
            i,
            Tab {
                path: path@,
                handle: source.handle,
                latest: source.latest,
                info: facts(source.info),
                starred: star,
            },
        ),
{
    let tab = Tab {
        path: path@,
        handle: source.handle,
        latest: source.latest,
        info: facts(source.info),
        starred: star,
    };
    assert(tabs_of(paths.insert(i, path), sources.insert(i, source), starred.insert(i, star))
        =~= tabs_of(paths, sources, starred).insert(i, tab));
}

/// Appending to the three lists appends the tab.
proof fn tabs_of_push<S>(
    paths: Seq<String>,
    sources: Seq<Source<S>>,
    starred: Seq<bool>,
    path: String,
    source: Source<S>,
    star: bool,
)
    requires
        sources.len() == paths.len(),
        starred.len() == paths.len(),
    ensures
        tabs_of(paths.push(path), sources.push(source), starred.push(star)) == tabs_of(
            paths,
            sources,
            starred,
        ).push(
            Tab {
                path: path@,
                handle: source.handle,
                latest: source.latest,
                info: facts(source.info),
                starred: star,
            },
        ),
{
    let tab = Tab {
        path: path@,
        handle: source.handle,
        latest: source.latest,
        info: facts(source.info),
        starred: star,
    };
    assert(tabs_of(paths.push(path), sources.push(source), starred.push(star)) =~= tabs_of(
        paths,
        sources,
        starred,
    ).push(tab));
}

impl<S> View for Players<S> {
    type V = Model<S>;

    closed spec fn view(&self) -> Model<S> {
        Model {
            tabs: tabs_of(self.tabs@, self.sources@, self.starred@),
            closed: closed_of(self.closed@),
            active: self.active as int,
            paused: self.paused,
            looping: self.loop_enabled,
            duration: self.duration,
            position: self.position,
            switch_pending: self.switch_pending,
            dirty: self.dirty,
        }
    }
}

impl<S> Players<S> {
    /// Whether tabs, sources and stars are in lockstep, and the active index
    /// is in range.
    pub closed spec fn wf(self) -> bool {
        &&& self.sources@.len() == self.tabs@.len()
        &&& self.starred@.len() == self.tabs@.len()
        &&& self@.valid()
    }

    /// What is well formed has a valid model.
    pub proof fn wf_is_valid(self)
        requires
            self.wf(),
        ensures
            self@.valid(),
            self@.tabs.len() <= usize::MAX,
    {
        assert(self.tabs.len() == self@.tabs.len());
    }

    /// An engine without tabs, paused, looping, with a first frame to draw.
    pub fn new() -> (r: Self)
        ensures
            r.wf(),
            r@ == Model::<S>::initial(),
    {
        let r = Players {
            tabs: Vec::new(),
            sources: Vec::new(),
            starred: Vec::new(),
            closed: Vec::new(),
            active: 0,
            paused: true,
            loop_enabled: true,
            duration: None,
            position: 0,
            switch_pending: None,
            dirty: true,
        };
        assert(r@ =~= Model::<S>::initial());
        r
    }

    /// Marks that there is new content to present.
    pub fn mark_dirty(&mut self)
        requires
            old(self).wf(),
        ensures
            final(self).wf(),
            final(self)@ == (Model { dirty: true, ..old(self)@ }),
    {
        self.dirty = true;
        assert(self@ =~= Model { dirty: true, ..old(self)@ });
    }

    /// Consumes the mark: returns whether the window should rebuild the frame
    /// image and redraw.
    pub fn take_dirty(&mut self) -> (r: bool)
        requires
            old(self).wf(),
        ensures
            final(self).wf(),
            r == old(self)@.dirty,
            final(self)@ == (Model { dirty: false, ..old(self)@ }),
    {
        let r = self.dirty;
        self.dirty = false;
        assert(self@ =~= Model { dirty: false, ..old(self)@ });
        r
    }

    /// Takes the time of the switch that has not been presented yet, if any.
    pub fn take_switch_pending(&mut self) -> (r: Option<u64>)
        requires
            old(self).wf(),
        ensures
            final(self).wf(),
            r == old(self)@.switch_pending,
            final(self)@ == (Model { switch_pending: None, ..old(self)@ }),
    {
        let r = self.switch_pending;
        self.switch_pending = None;
        assert(self@ =~= Model { switch_pending: None, ..old(self)@ });
        r
    }

    /// Moves playback to `pos`.
    fn send_seek(&mut self, pos: u64, flags: SeekFlags, out: &mut Vec<Action<S>>)
        requires
            old(self).wf(),
        ensures
            final(self).wf(),
            final(self)@ == old(self)@.sought(pos),
            final(out)@ == old(out)@.push(Action::Seek { pos, flags }),
    {
        self.position = pos;
        self.dirty = true;
        out.push(Action::Seek { pos, flags });
        assert(self@ =~= old(self)@.sought(pos));
    }

    /// Lets the active source sound and no other.
    fn apply_audio(&self, out: &mut Vec<Action<S>>)
        requires
            self.wf(),
        ensures
            final(out)@ == old(out)@ + self@.mutes(),
    {
        let ghost before = out@;
        let ghost all = self@.mutes();
        let mut i: usize = 0;
        assert(before + all.take(0) =~= before);
        while i < self.sources.len()
            invariant
                i <= self.sources.len(),
                self.wf(),
                all == self@.mutes(),
                out@ == before + all.take(i as int),
            decreases self.sources.len() - i,
        {
            out.push(Action::Mute { index: i, mute: i != self.active });
            assert(all.take(i + 1) =~= all.take(i as int).push(all[i as int]));
            i = i + 1;
        }
        assert(all.take(i as int) =~= all);
    }

    /// Switches to tab `i`. Because every source is live and in sync, this just
    /// changes which one is drawn and heard, so even while paused the target
    /// appears at once, at the same moment. A tab that does not exist is
    /// ignored.
    pub fn switch_to(&mut self, i: usize, now: u64) -> (actions: Vec<Action<S>>)
        requires
            old(self).wf(),
        ensures
            final(self).wf(),
            i < old(self)@.tabs.len() ==> {
                &&& final(self)@ == old(self)@.switched(i as int, now)
                &&& final(self)@.active == i
                &&& actions@ == final(self)@.switch_actions()
            },
            i >= old(self)@.tabs.len() ==> {
                &&& final(self)@ == old(self)@
                &&& actions@.len() == 0
            },
    {
        let mut out: Vec<Action<S>> = Vec::new();
        if i < self.tabs.len() {
            self.active = i;
            self.switch_pending = Some(now);
            self.dirty = true;
            assert(self@ =~= old(self)@.switched(i as int, now));
            self.apply_audio(&mut out);
            out.push(Action::Wake);
            assert(out@ =~= self@.switch_actions());
        }
        out
    }

    /// Closes tab `i` and records it for [`Players::reopen_closed`]. A tab that
    /// does not exist is ignored.
    pub fn close(&mut self, i: usize) -> (actions: Vec<Action<S>>)
        requires
            old(self).wf(),
        ensures
            final(self).wf(),
            i < old(self)@.tabs.len() ==> {
                &&& final(self)@ == old(self)@.without(i as int)
                &&& actions@ == old(self)@.close_actions(i as int)
            },
            i >= old(self)@.tabs.len() ==> {
                &&& final(self)@ == old(self)@
                &&& actions@.len() == 0
            },
    {
        let mut out: Vec<Action<S>> = Vec::new();
        if i >= self.tabs.len() {
            return out;
        }
        proof {
            tabs_of_remove(self.tabs@, self.sources@, self.starred@, i as int);
        }
        let src = self.sources.remove(i);
        let path = self.tabs.remove(i);
        let was_starred = self.starred.remove(i);
        self.closed.push(ClosedTab { path, index: i, starred: was_starred });
        out.push(Action::Detach { source: src.handle });
        if self.tabs.len() == 0 {
            self.active = 0;
            self.paused = true;
            self.position = 0;
            self.duration = None;
            out.push(Action::SetState { state: PipelineState::Ready });
            proof {
                let goal = old(self)@.without(i as int);
                assert(self@.tabs =~= goal.tabs);
                assert(self@.closed =~= goal.closed);
                assert(self@ =~= goal);
                assert(out@ =~= old(self)@.close_actions(i as int));
            }
            return out;
        }
        if i < self.active || self.active >= self.tabs.len() {
            self.active = self.active - 1;
        }
        self.dirty = true;
        proof {
            let goal = old(self)@.without(i as int);
            assert(self@.tabs =~= goal.tabs);
            assert(self@.closed =~= goal.closed);
            assert(self@ =~= goal);
        }
        self.apply_audio(&mut out);
        out.push(Action::Wake);
        assert(out@ =~= old(self)@.close_actions(i as int));
        out
    }

    /// Flips the star on tab `i`. A tab that does not exist is ignored.
    pub fn toggle_star(&mut self, i: usize) -> (actions: Vec<Action<S>>)
        requires
            old(self).wf(),
        ensures
            final(self).wf(),
            i < old(self)@.tabs.len() ==> {
                &&& final(self)@ == old(self)@.star_flipped(i as int)
                &&& actions@ == seq![Action::<S>::Wake]
            },
            i >= old(self)@.tabs.len() ==> {
                &&& final(self)@ == old(self)@
                &&& actions@.len() == 0
            },
    {
        let mut out: Vec<Action<S>> = Vec::new();
        if i < self.starred.len() {
            let star = self.starred[i];
            self.starred.set(i, !star);
            self.dirty = true;
            out.push(Action::Wake);
            proof {
                let goal = old(self)@.star_flipped(i as int);
                assert(self@.tabs =~= goal.tabs);
                assert(self@ =~= goal);
                assert(out@ =~= seq![Action::<S>::Wake]);
            }
        }
        out
    }

    /// Moves the tab at `from` to `to`, or to the end where `to` is beyond it.
    /// Tabs, sources and stars stay in lockstep, and the active tab stays
    /// selected.
    pub fn reorder(&mut self, from: usize, to: usize) -> (actions: Vec<Action<S>>)
        requires
            old(self).wf(),
        ensures
            final(self).wf(),
            final(self)@ == old(self)@.reordered(from as int, to as int),
            actions@ == old(self)@.reorder_actions(from as int, to as int),
    {
        let mut out: Vec<Action<S>> = Vec::new();
        if from >= self.tabs.len() {
            return out;
        }
        let to: usize = if to < self.tabs.len() {
            to
        } else {
            self.tabs.len() - 1
        };
        if from == to {
            return out;
        }
        let tab = self.tabs.remove(from);
        let src = self.sources.remove(from);
        let star = self.starred.remove(from);
        proof {
            tabs_of_remove(
                old(self).tabs@,
                old(self).sources@,
                old(self).starred@,
                from as int,
            );
            tabs_of_insert(
                self.tabs@,
                self.sources@,
                self.starred@,
                to as int,
                tab,
                src,
                star,
            );
        }
        self.tabs.insert(to, tab);
        self.sources.insert(to, src);
        self.starred.insert(to, star);
        self.active = if self.active == from {
            to
        } else {
            let mut a: usize = self.active;
            if from < a {
                a = a - 1;
            }
            if to <= a {
                a = a + 1;
            }
            a
        };
        self.dirty = true;
        proof {
            let goal = old(self)@.moved(from as int, to as int);
            assert(self@.tabs == goal.tabs);
            assert(self@ =~= goal);
        }
        self.apply_audio(&mut out);
        out.push(Action::Wake);
        assert(out@ =~= old(self)@.reorder_actions(from as int, to as int));
        out
    }

    /// Adds a last tab for `path`, whose source is in the pipeline, and
    /// switches to it.
    pub(crate) fn attach(
        &mut self,
        path: String,
        handle: S,
        reported: Option<u64>,
        now: u64,
    ) -> (actions: Vec<Action<S>>)
        requires
            old(self).wf(),
        ensures
            final(self).wf(),
            final(self)@ == old(self)@.opened(path@, handle, reported, now),
            actions@ == old(self)@.open_actions(path@, handle, reported, now),
    {
        let mut out: Vec<Action<S>> = Vec::new();
        let index: usize = self.tabs.len();
        let join_at: u64 = if index == 0 {
            0
        } else {
            self.current(reported)
        };
        out.push(Action::Preroll { index });
        if join_at > 0 {
            out.push(Action::SeekSource { index, pos: join_at, flags: SeekFlags::accurate() });
        }
        let src = Source { handle, latest: None, info: None };
        proof {
            tabs_of_push(self.tabs@, self.sources@, self.starred@, path, src, false);
        }
        self.tabs.push(path);
        self.sources.push(src);
        self.starred.push(false);
        let state = if self.paused {
            PipelineState::Paused
        } else {
            PipelineState::Playing
        };
        out.push(Action::SetState { state });
        if join_at > 0 {
            out.push(Action::Seek { pos: join_at, flags: SeekFlags::flushing() });
            self.dirty = true;
        }
        self.position = join_at;
        let mut switch = self.switch_to(index, now);
        out.append(&mut switch);
        proof {
            let goal = old(self)@.opened(path@, handle, reported, now);
            assert(self@.tabs == goal.tabs);
            assert(self@ =~= goal);
            assert(out@ =~= old(self)@.open_actions(path@, handle, reported, now));
        }
        out
    }

    /// Takes the tab that was closed last out of the history.
    pub(crate) fn pop_closed(&mut self) -> (r: Option<ClosedTab>)
        requires
            old(self).wf(),
        ensures
            final(self).wf(),
            old(self)@.closed.len() == 0 ==> r is None && final(self)@ == old(self)@,
            old(self)@.closed.len() > 0 ==> {
                let last = old(self)@.closed.last();
                &&& r is Some
                &&& r->0.path@ == last.path
                &&& r->0.index == last.index
                &&& r->0.starred == last.starred
                &&& final(self)@ == (Model { closed: old(self)@.closed.drop_last(), ..old(self)@ })
            },
    {
        match self.closed.pop() {
            Some(c) => {
                proof {
                    let goal = Model { closed: old(self)@.closed.drop_last(), ..old(self)@ };
                    assert(self@.closed =~= goal.closed);
                    assert(self@ =~= goal);
                }
                Some(c)
            },
            None => {
                assert(self@ =~= old(self)@);
                None
            },
        }
    }

    /// Gives the last tab the star and the place of a tab that was closed.
    pub(crate) fn restore(&mut self, index: usize, starred: bool) -> (actions: Vec<Action<S>>)
        requires
            old(self).wf(),
        ensures
            final(self).wf(),
            final(self)@ == old(self)@.restored(index as int, starred),
            actions@ == old(self)@.restore_actions(index as int, starred),
    {
        if self.tabs.len() == 0 {
            assert(self@ =~= old(self)@.restored(index as int, starred));
            return Vec::new();
        }
        let last: usize = self.tabs.len() - 1;
        self.starred.set(last, starred);
        proof {
            let goal = old(self)@.last_starred(starred);
            assert(self@.tabs =~= goal.tabs);
            assert(self@ =~= goal);
        }
        self.reorder(last, index)
    }

    /// The index of the active tab.
    pub fn active_index(&self) -> (r: usize)
        requires
            self.wf(),
        ensures
            r == self@.active,
    {
        self.active
    }

    /// Whether the end of the stream rewinds and keeps playing.
    pub fn loop_enabled(&self) -> (r: bool)
        requires
            self.wf(),
        ensures
            r == self@.looping,
    {
        self.loop_enabled
    }

    /// Flips looping; returns the new state.
    pub fn toggle_loop(&mut self) -> (r: bool)
        requires
            old(self).wf(),
        ensures
            final(self).wf(),
            r == !old(self)@.looping,
            final(self)@ == (Model { looping: r, dirty: true, ..old(self)@ }),
    {
        self.loop_enabled = !self.loop_enabled;
        self.dirty = true;
        assert(self@ =~= Model { looping: self.loop_enabled, dirty: true, ..old(self)@ });
        self.loop_enabled
    }

    /// Pauses or resumes playback.
    pub fn set_paused(&mut self, paused: bool) -> (actions: Vec<Action<S>>)
        requires
            old(self).wf(),
        ensures
            final(self).wf(),
            final(self)@ == old(self)@.with_pause(paused),
            actions@ == old(self)@.pause_actions(paused),
    {
        let mut out: Vec<Action<S>> = Vec::new();
        self.paused = paused;
        if self.tabs.len() == 0 {
            assert(self@ =~= old(self)@.with_pause(paused));
            return out;
        }
        let state = if paused {
            PipelineState::Paused
        } else {
            PipelineState::Playing
        };
        out.push(Action::SetState { state });
        self.dirty = true;
        assert(self@ =~= old(self)@.with_pause(paused));
        assert(out@ =~= old(self)@.pause_actions(paused));
        out
    }

    /// Pauses where playing, and the other way round.
    pub fn toggle_pause(&mut self) -> (actions: Vec<Action<S>>)
        requires
            old(self).wf(),
        ensures
            final(self).wf(),
            final(self)@ == old(self)@.with_pause(!old(self)@.paused),
            actions@ == old(self)@.pause_actions(!old(self)@.paused),
    {
        let paused = !self.paused;
        self.set_paused(paused)
    }

    /// The position that the pipeline reports counts where a tab is open.
    fn query_position(&self, reported: Option<u64>) -> (r: Option<u64>)
        requires
            self.wf(),
        ensures
            r == if self@.tabs.len() == 0 {
                None
            } else {
                reported
            },
    {
        if self.tabs.len() == 0 {
            None
        } else {
            reported
        }
    }

    /// The position of playback, given what the pipeline reports.
    fn current(&self, reported: Option<u64>) -> (r: u64)
        requires
            self.wf(),
        ensures
            r == self@.current(reported),
    {
        match self.query_position(reported) {
            Some(p) => p,
            None => self.position,
        }
    }

    /// How long a frame of the active source lasts, in nanoseconds, where its
    /// frame rate is known.
    pub fn active_frame_duration_ns(&self) -> (r: Option<u64>)
        requires
            self.wf(),
        ensures
            r == self@.active_frame(),
    {
        if self.active < self.sources.len() {
            match self.sources[self.active].latest {
                Some(caps) => frame_duration_ns(caps),
                None => None,
            }
        } else {
            None
        }
    }

    /// How long a frame of the active source is taken to last.
    fn frame_or_default(&self) -> (r: u64)
        requires
            self.wf(),
        ensures
            r == self@.frame_or_default(),
    {
        match self.active_frame_duration_ns() {
            Some(ns) => ns,
            None => DEFAULT_FRAME_NS,
        }
    }

    /// Moves playback to `pos` nanoseconds.
    pub fn seek_absolute(&mut self, pos: u64) -> (actions: Vec<Action<S>>)
        requires
            old(self).wf(),
        ensures
            final(self).wf(),
            final(self)@ == old(self)@.sought(pos),
            actions@ == seq![Action::<S>::Seek { pos, flags: SeekFlags::flushing() }],
    {
        let mut out: Vec<Action<S>> = Vec::new();
        self.send_seek(pos, SeekFlags::flushing(), &mut out);
        assert(out@ =~= seq![Action::<S>::Seek { pos, flags: SeekFlags::flushing() }]);
        out
    }

    /// Moves playback by `delta` nanoseconds from where the pipeline reports
    /// it to be, but not to before the start.
    pub fn seek_relative(&mut self, delta: i64, reported: Option<u64>) -> (actions: Vec<
        Action<S>,
    >)
        requires
            old(self).wf(),
        ensures
            final(self).wf(),
            ({
                let pos = old(self)@.relative_target(delta as int, reported) as u64;
                &&& final(self)@ == old(self)@.sought(pos)
                &&& actions@ == seq![Action::<S>::Seek { pos, flags: SeekFlags::flushing() }]
            }),
    {
        let cur: u64 = self.current(reported);
        let target: u64 = positive(cur.wrapping_add_signed(delta));
        self.seek_absolute(target)
    }

    /// The target of a step to the keyframe behind or ahead.
    fn keyframe_target(&self, dir: i32, reported: Option<u64>) -> (r: u64)
        requires
            self.wf(),
        ensures
            r == self@.keyframe_target(dir as int, reported),
    {
        let frame: u64 = self.frame_or_default();
        let cur: u64 = self.current(reported);
        if dir > 0 {
            let target: u64 = ahead(cur, frame);
            match self.duration {
                Some(d) => {
                    let last: u64 = back(d, frame);
                    if target < last {
                        target
                    } else {
                        last
                    }
                },
                None => target,
            }
        } else {
            back(cur, frame)
        }
    }

    /// Moves playback by a frame, to the keyframe there: ahead where `dir` is
    /// positive, but not past the last frame; back where it is negative.
    pub fn seek_keyframe(&mut self, dir: i32, reported: Option<u64>) -> (actions: Vec<Action<S>>)
        requires
            old(self).wf(),
        ensures
            final(self).wf(),
            (dir == 0 || old(self)@.tabs.len() == 0) ==> {
                &&& final(self)@ == old(self)@
                &&& actions@.len() == 0
            },
            (dir != 0 && old(self)@.tabs.len() > 0) ==> {
                let pos = old(self)@.keyframe_target(dir as int, reported) as u64;
                let flags = if dir > 0 {
                    SeekFlags::key_after()
                } else {
                    SeekFlags::key_before()
                };
                &&& final(self)@ == old(self)@.sought(pos)
                &&& actions@ == seq![Action::<S>::Seek { pos, flags }]
            },
    {
        let mut out: Vec<Action<S>> = Vec::new();
        if dir == 0 || self.tabs.len() == 0 {
            return out;
        }
        let target: u64 = self.keyframe_target(dir, reported);
        let flags = if dir > 0 {
            SeekFlags::key_after()
        } else {
            SeekFlags::key_before()
        };
        self.send_seek(target, flags, &mut out);
        assert(out@ =~= seq![Action::<S>::Seek { pos: target, flags }]);
        out
    }

    /// Shows the frame ahead, or the one behind where `dir` is negative.
    pub fn frame_step(&mut self, dir: i32, reported: Option<u64>) -> (actions: Vec<Action<S>>)
        requires
            old(self).wf(),
        ensures
            final(self).wf(),
            old(self)@.tabs.len() == 0 ==> {
                &&& final(self)@ == old(self)@
                &&& actions@.len() == 0
            },
            old(self)@.tabs.len() > 0 && dir >= 0 ==> {
                &&& final(self)@ == (Model { dirty: true, ..old(self)@ })
                &&& actions@ == seq![Action::<S>::Step]
            },
            old(self)@.tabs.len() > 0 && dir < 0 ==> {
                let pos = old(self)@.step_target(reported) as u64;
                &&& final(self)@ == old(self)@.sought(pos)
                &&& actions@ == seq![Action::<S>::Seek { pos, flags: SeekFlags::accurate() }]
            },
    {
        let mut out: Vec<Action<S>> = Vec::new();
        if self.tabs.len() == 0 {
            return out;
        }
        if dir >= 0 {
            self.dirty = true;
            out.push(Action::Step);
            assert(self@ =~= Model { dirty: true, ..old(self)@ });
            assert(out@ =~= seq![Action::<S>::Step]);
        } else {
            let frame: u64 = self.frame_or_default();
            let cur: u64 = self.current(reported);
            let target: u64 = back(cur, frame);
            self.send_seek(target, SeekFlags::accurate(), &mut out);
            assert(out@ =~= seq![Action::<S>::Seek { pos: target, flags: SeekFlags::accurate() }]);
        }
        out
    }

    /// Takes over the position that the pipeline reports, and the duration
    /// until one is known.
    pub fn tick(&mut self, position: Option<u64>, duration: Option<u64>)
        requires
            old(self).wf(),
        ensures
            final(self).wf(),
            final(self)@ == old(self)@.ticked(position, duration),
            old(self)@.tabs.len() > 0 && position is Some ==> final(self)@.position == position->0,
    {
        if let Some(p) = self.query_position(position) {
            self.position = p;
        }
        let unknown = match self.duration {
            None => true,
            Some(d) => d == 0,
        };
        if unknown {
            self.duration = duration;
        }
        assert(self@ =~= old(self)@.ticked(position, duration));
    }

    /// Heeds one message of the bus.
    fn handle_message(&mut self, msg: BusMessage, out: &mut Vec<Action<S>>) -> (redraw: bool)
        requires
            old(self).wf(),
        ensures
            final(self).wf(),
            final(self)@ == old(self)@.after_message(msg),
            final(out)@ == old(out)@ + old(self)@.message_actions(msg),
            redraw == crate::model::redraws(msg),
    {
        let ghost before = out@;
        match msg {
            BusMessage::Eos => {
                self.send_seek(0, SeekFlags::flushing(), out);
                if !self.loop_enabled {
                    let mut pause = self.set_paused(true);
                    out.append(&mut pause);
                }
                assert(out@ =~= before + old(self)@.message_actions(msg));
                true
            },
            BusMessage::DurationChanged { duration } => {
                self.duration = duration;
                assert(self@ =~= old(self)@.after_message(msg));
                assert(out@ =~= before + old(self)@.message_actions(msg));
                true
            },
            BusMessage::StateChanged => {
                assert(out@ =~= before + old(self)@.message_actions(msg));
                true
            },
            BusMessage::AsyncDone => {
                assert(out@ =~= before + old(self)@.message_actions(msg));
                true
            },
            BusMessage::Error => {
                assert(out@ =~= before + old(self)@.message_actions(msg));
                false
            },
            BusMessage::Other => {
                assert(out@ =~= before + old(self)@.message_actions(msg));
                false
            },
        }
    }

    /// Heeds the messages that wait on the bus, in their order; returns whether
    /// any calls for a redraw. The end of the stream always rewinds to the
    /// start; when looping is off it also pauses there, so that the clip ends
    /// ready to be replayed.
    pub fn pump_events(&mut self, msgs: &Vec<BusMessage>) -> (r: (bool, Vec<Action<S>>))
        requires
            old(self).wf(),
        ensures
            final(self).wf(),
            final(self)@ == old(self)@.after_messages(msgs@),
            r.0 == (exists|i: int| 0 <= i < msgs@.len() && crate::model::redraws(#[trigger] msgs@[i])),
            r.1@ == old(self)@.messages_actions(msgs@),
    {
        let mut out: Vec<Action<S>> = Vec::new();
        let mut redraw = false;
        let mut i: usize = 0;
        assert(msgs@.take(0) =~= Seq::<BusMessage>::empty());
        while i < msgs.len()
            invariant
                i <= msgs.len(),
                self.wf(),
                self@ == old(self)@.after_messages(msgs@.take(i as int)),
                redraw == (exists|j: int| 0 <= j < i && crate::model::redraws(#[trigger] msgs@[j])),
                out@ == old(self)@.messages_actions(msgs@.take(i as int)),
            decreases msgs.len() - i,
        {
            let msg = msgs[i];
            if self.handle_message(msg, &mut out) {
                redraw = true;
            }
            proof {
                let more = msgs@.take(i + 1);
                assert(more.drop_last() =~= msgs@.take(i as int));
                assert(more.last() == msg);
            }
            i = i + 1;
        }
        assert(msgs@.take(i as int) =~= msgs@);
        (redraw, out)
    }
}

/// A frame rate, `numer / denom`; neither is 0.
#[derive(Clone, Copy, Debug, PartialEq, Eq, Structural)]
pub struct Rate {
    pub numer: i32,
    pub denom: i32,
}

/// What the window needs of the engine's state for one frame. Times are in
/// nanoseconds.
#[derive(Debug, PartialEq, Eq)]
pub struct Snapshot {
    pub position: u64,
    pub duration: u64,
    pub paused: bool,
    pub path: Option<String>,
    pub width: Option<i32>,
    pub height: Option<i32>,
    pub fps: Option<Rate>,
    /// Static facts of the active tab (empty until probed).
    pub media: MediaInfo,
}

impl Default for Snapshot {
    fn default() -> (s: Snapshot)
        ensures
            s.position == 0,
            s.duration == 0,
            !s.paused,
            s.path is None,
            s.width is None,
            s.height is None,
            s.fps is None,
            s.media@ == crate::media::no_facts(),
    {
        Snapshot {
            position: 0,
            duration: 0,
            paused: false,
            path: None,
            width: None,
            height: None,
            fps: None,
            media: MediaInfo::default(),
        }
    }
}

/// A decoded RGBA frame borrowed for upload.
#[derive(Clone, Copy, Debug, PartialEq, Eq)]
pub struct FrameRef<'a> {
    pub width: i32,
    pub height: i32,
    pub stride: i32,
    pub data: &'a [u8],
}

/// The pixels of a source's latest frame, mapped for reading.
#[derive(Clone, Copy, Debug, PartialEq, Eq)]
pub struct MappedFrame<'a> {
    pub width: u32,
    pub height: u32,
    pub stride: i32,
    pub data: &'a [u8],
}

/// What the tab strip and the tooltip show of a tab.
#[derive(Debug, PartialEq, Eq)]
pub struct TabUiData {
    pub label: String,
    pub active: bool,
    pub starred: bool,
    pub path: String,
    pub info: String,
    pub video_codec: String,
    pub filesize: String,
}

/// The texts and flags of a [`TabUiData`].
pub struct TabText {
    pub label: Seq<char>,
    pub active: bool,
    pub starred: bool,
    pub path: Seq<char>,
    pub info: Seq<char>,
    pub video_codec: Seq<char>,
    pub filesize: Seq<char>,
}

impl View for TabUiData {
    type V = TabText;

    open spec fn view(&self) -> TabText {
        TabText {
            label: self.label@,
            active: self.active,
            starred: self.starred,
            path: self.path@,
            info: self.info@,
            video_codec: self.video_codec@,
            filesize: self.filesize@,
        }
    }
}

/// The frame rate of a format, where it is one.
pub open spec fn rate_of(caps: VideoCaps) -> Option<Rate> {
    if caps.fps_denom != 0 && caps.fps_numer != 0 {
        Some(Rate { numer: caps.fps_numer, denom: caps.fps_denom })
    } else {
        None
    }
}

/// A format as "width×height", with the frame rate where it has one.
pub open spec fn caps_text(caps: VideoCaps) -> Seq<char> {
    let size = crate::text::decimal(caps.width as nat) + "×"@ + crate::text::decimal(
        caps.height as nat,
    );
    match rate_of(caps) {
        Some(r) => size + " · "@ + crate::numbers::fps_text(r.numer as int, r.denom as int)
            + " fps"@,
        None => size,
    }
}

/// The size of a file, given what the file system says; nothing for a URI.
pub open spec fn filesize_text(path: Seq<char>, size: Option<u64>) -> Seq<char> {
    if crate::text::is_uri(path) || size is None {
        Seq::empty()
    } else {
        crate::numbers::size_text(size->0 as nat)
    }
}

/// What the strip shows of the tab at `i`, whose file has the size `size`.
pub open spec fn tab_text<S>(m: Model<S>, i: int, size: Option<u64>) -> TabText {
    let tab = m.tabs[i];
    TabText {
        label: crate::text::file_name(tab.path),
        active: i == m.active,
        starred: tab.starred,
        path: tab.path,
        info: match tab.latest {
            Some(caps) => caps_text(caps),
            None => Seq::empty(),
        },
        video_codec: match tab.info {
            Some(mi) => mi.video_codec,
            None => Seq::empty(),
        },
        filesize: filesize_text(tab.path, size),
    }
}

/// The entry of `sizes` for tab `i`, where there is one.
pub open spec fn size_at(sizes: Seq<Option<u64>>, i: int) -> Option<u64> {
    if i < sizes.len() {
        sizes[i]
    } else {
        None
    }
}

/// The format of the active tab's latest frame.
pub open spec fn active_caps<S>(m: Model<S>) -> Option<VideoCaps> {
    if m.active < m.tabs.len() {
        m.tabs[m.active].latest
    } else {
        None
    }
}

/// Whether `s` is the snapshot of the engine `m`.
pub open spec fn is_snapshot<S>(s: Snapshot, m: Model<S>) -> bool {
    &&& s.position == m.position
    &&& s.duration == (match m.duration {
        Some(d) => d,
        None => 0,
    })
    &&& s.paused == m.paused
    &&& m.tabs.len() == 0 ==> s.path is None && s.media@ == crate::media::no_facts()
    &&& m.tabs.len() > 0 ==> {
        &&& s.path is Some
        &&& s.path->0@ == m.tabs[m.active].path
        &&& s.media@ == (match m.tabs[m.active].info {
            Some(mi) => mi,
            None => crate::media::no_facts(),
        })
    }
    &&& match active_caps(m) {
        Some(caps) => s.width == Some(caps.width as i32) && s.height == Some(caps.height as i32)
            && s.fps == rate_of(caps),
        None => s.width is None && s.height is None && s.fps is None,
    }
}

/// The frame rate of a format, where it is one.
fn frame_rate(caps: VideoCaps) -> (r: Option<Rate>)
    ensures
        r == rate_of(caps),
{
    if caps.fps_denom != 0 && caps.fps_numer != 0 {
        Some(Rate { numer: caps.fps_numer, denom: caps.fps_denom })
    } else {
        None
    }
}

/// A format as "width×height", with the frame rate where it has one.
fn describe_caps(caps: VideoCaps) -> (text: String)
    ensures
        text@ == caps_text(caps),
{
    let mut out = decimal_string(caps.width as u64);
    out.append("×");
    push_decimal(&mut out, caps.height as u64);
    if let Some(r) = frame_rate(caps) {
        out.append(" · ");
        out.append(trim_fps(r.numer, r.denom).as_str());
        out.append(" fps");
    }
    out
}

/// The size of a file, given what the file system says; nothing for a URI.
pub fn describe_filesize(path: &str, size: Option<u64>) -> (text: String)
    ensures
        text@ == filesize_text(path@, size),
{
    match size {
        Some(bytes) => if is_uri_path(path) {
            String::new()
        } else {
            human_bytes(bytes)
        },
        None => String::new(),
    }
}

impl<S> Players<S> {
    /// The number of open tabs.
    pub fn tab_count(&self) -> (r: usize)
        requires
            self.wf(),
        ensures
            r == self@.tabs.len(),
    {
        self.tabs.len()
    }

    /// The path of tab `i`.
    pub fn path(&self, i: usize) -> (r: Option<&str>)
        requires
            self.wf(),
        ensures
            i < self@.tabs.len() ==> r is Some && r->0@ == self@.tabs[i as int].path,
            i >= self@.tabs.len() ==> r is None,
    {
        if i < self.tabs.len() {
            Some(self.tabs[i].as_str())
        } else {
            None
        }
    }

    /// The shell's handle to the source of tab `i`.
    pub fn source(&self, i: usize) -> (r: Option<&S>)
        requires
            self.wf(),
        ensures
            i < self@.tabs.len() ==> r is Some && *r->0 == self@.tabs[i as int].handle,
            i >= self@.tabs.len() ==> r is None,
    {
        if i < self.sources.len() {
            Some(&self.sources[i].handle)
        } else {
            None
        }
    }

    /// The shell's handle to the source of the active tab: the one whose frame
    /// is drawn.
    pub fn active_source(&self) -> (r: Option<&S>)
        requires
            self.wf(),
        ensures
            self@.tabs.len() > 0 ==> r is Some && *r->0 == self@.tabs[self@.active].handle,
            self@.tabs.len() == 0 ==> r is None,
    {
        self.source(self.active)
    }

    /// Records the format of the most recent frame of tab `i`.
    pub fn set_latest(&mut self, i: usize, latest: Option<VideoCaps>)
        requires
            old(self).wf(),
        ensures
            final(self).wf(),
            i < old(self)@.tabs.len() ==> final(self)@ == (Model {
                tabs: old(self)@.tabs.update(
                    i as int,
                    Tab { latest, ..old(self)@.tabs[i as int] },
                ),
                ..old(self)@
            }),
            i >= old(self)@.tabs.len() ==> final(self)@ == old(self)@,
    {
        if i < self.sources.len() {
            let src = self.sources.remove(i);
            self.sources.insert(i, Source { handle: src.handle, latest, info: src.info });
            proof {
                let tabs = old(self)@.tabs.update(
                    i as int,
                    Tab { latest, ..old(self)@.tabs[i as int] },
                );
                assert(self@.tabs =~= tabs);
                assert(self@ =~= Model { tabs, ..old(self)@ });
            }
        }
    }

    /// Records the media facts of tab `i`, once they have been probed.
    pub fn set_info(&mut self, i: usize, info: Option<MediaInfo>)
        requires
            old(self).wf(),
        ensures
            final(self).wf(),
            i < old(self)@.tabs.len() ==> final(self)@ == (Model {
                tabs: old(self)@.tabs.update(
                    i as int,
                    Tab { info: facts(info), ..old(self)@.tabs[i as int] },
                ),
                ..old(self)@
            }),
            i >= old(self)@.tabs.len() ==> final(self)@ == old(self)@,
    {
        if i < self.sources.len() {
            let src = self.sources.remove(i);
            self.sources.insert(i, Source { handle: src.handle, latest: src.latest, info });
            proof {
                let tabs = old(self)@.tabs.update(
                    i as int,
                    Tab { info: facts(info), ..old(self)@.tabs[i as int] },
                );
                assert(self@.tabs =~= tabs);
                assert(self@ =~= Model { tabs, ..old(self)@ });
            }
        }
    }

    /// The frame to upload: what `mapped` holds of the latest frame of
    /// [`Players::active_source`].
    pub fn map_active_frame<'a>(&self, mapped: Option<MappedFrame<'a>>) -> (r: Option<FrameRef<'a>>)
        requires
            self.wf(),
        ensures
            match mapped {
                Some(m) => if self@.tabs.len() > 0 {
                    r == Some(
                        FrameRef {
                            width: m.width as i32,
                            height: m.height as i32,
                            stride: m.stride,
                            data: m.data,
                        },
                    )
                } else {
                    r is None
                },
                None => r is None,
            },
    {
        if self.active >= self.sources.len() {
            return None;
        }
        match mapped {
            Some(m) => Some(
                FrameRef {
                    width: m.width as i32,
                    height: m.height as i32,
                    stride: m.stride,
                    data: m.data,
                },
            ),
            None => None,
        }
    }

    /// What the window needs of the engine's state for one frame.
    pub fn snapshot(&self) -> (s: Snapshot)
        requires
            self.wf(),
        ensures
            is_snapshot(s, self@),
    {
        let mut width: Option<i32> = None;
        let mut height: Option<i32> = None;
        let mut fps: Option<Rate> = None;
        let mut media = MediaInfo::default();
        let mut path: Option<String> = None;
        if self.active < self.sources.len() {
            if let Some(mi) = &self.sources[self.active].info {
                media = mi.clone();
            }
            if let Some(caps) = self.sources[self.active].latest {
                width = Some(caps.width as i32);
                height = Some(caps.height as i32);
                fps = frame_rate(caps);
            }
            path = Some(self.tabs[self.active].clone());
        }
        let duration: u64 = match self.duration {
            Some(d) => d,
            None => 0,
        };
        Snapshot {
            position: self.position,
            duration,
            paused: self.paused,
            path,
            width,
            height,
            fps,
            media,
        }
    }

    /// What the strip shows of tab `i`.
    fn tab_for_ui(&self, i: usize, size: Option<u64>) -> (r: TabUiData)
        requires
            self.wf(),
            i < self@.tabs.len(),
        ensures
            r@ == tab_text(self@, i as int, size),
    {
        let path = self.tabs[i].as_str();
        let info = match self.sources[i].latest {
            Some(caps) => describe_caps(caps),
            None => String::new(),
        };
        let video_codec = match &self.sources[i].info {
            Some(mi) => mi.video_codec.clone(),
            None => String::new(),
        };
        TabUiData {
            label: basename(path),
            active: i == self.active,
            starred: self.starred[i],
            path: path.to_owned(),
            info,
            video_codec,
            filesize: describe_filesize(path, size),
        }
    }

    /// What the tab strip and the tooltips show, given what the file system
    /// says of the size of each tab's file.
    pub fn tabs_for_ui(&self, sizes: &Vec<Option<u64>>) -> (r: Vec<TabUiData>)
        requires
            self.wf(),
        ensures
            r@.len() == self@.tabs.len(),
            forall|i: int|
                0 <= i < r@.len() ==> (#[trigger] r@[i])@ == tab_text(self@, i, size_at(sizes@, i)),
    {
        let mut out: Vec<TabUiData> = Vec::new();
        let mut i: usize = 0;
        while i < self.tabs.len()
            invariant
                i <= self.tabs.len(),
                self.wf(),
                self.tabs.len() == self@.tabs.len(),
                out@.len() == i,
                forall|j: int|
                    0 <= j < i ==> (#[trigger] out@[j])@ == tab_text(
                        self@,
                        j,
                        size_at(sizes@, j),
                    ),
            decreases self.tabs.len() - i,
        {
            let size: Option<u64> = if i < sizes.len() {
                sizes[i]
            } else {
                None
            };
            let tab = self.tab_for_ui(i, size);
            out.push(tab);
            i = i + 1;
        }
        out
    }
}

/// A clock time out of signed 64-bit arithmetic: zero where it is negative.
fn positive(bits: u64) -> (r: u64)
    ensures
        r == if bits <= i64::MAX {
            bits
        } else {
            0
        },
{
    if bits <= i64::MAX as u64 {
        bits
    } else {
        0
    }
}

/// `span` after the clock time `t`.
fn ahead(t: u64, span: u64) -> (r: u64)
    ensures
        r == crate::model::clamped(t + span),
{
    positive(t.wrapping_add(span))
}

/// `span` before the clock time `t`.
fn back(t: u64, span: u64) -> (r: u64)
    ensures
        r == crate::model::clamped(t - span),
{
    positive(t.wrapping_sub(span))
}

/// The 64 bits of a signed number.
fn bits_of(x: i32) -> (r: u64)
    ensures
        r == (x as int) % (WORD as int),
{
    if x >= 0 {
        x as u64
    } else {
        u64::MAX - (magnitude_of(x) - 1)
    }
}

/// How long a frame lasts, in nanoseconds; `None` where the rate is 0.
fn frame_duration_ns(caps: VideoCaps) -> (r: Option<u64>)
    ensures
        r == crate::model::frame_duration(caps),
{
    if caps.fps_numer == 0 {
        return None;
    }
    let span: u64 = 1_000_000_000u64.wrapping_mul(bits_of(caps.fps_denom));
    let rate: u64 = bits_of(caps.fps_numer);
    proof {
        let d = caps.fps_denom as int;
        let w = WORD as int;
        vstd::arithmetic::div_mod::lemma_mul_mod_noop_right(1_000_000_000, d, w);
        assert(span == (1_000_000_000 * d) % w);
        assert(span / rate <= span) by (nonlinear_arith)
            requires
                rate >= 1,
                span >= 0,
        ;
    }
    Some(span / rate)
}

} // verus!
