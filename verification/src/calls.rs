//! What callers see: how the results of calls hang together.
//!
//! Each law takes calls that were made, with their arguments and results, and
//! says what holds between them, without a word on how the engine is built.

use crate::action::{Action, PipelineState, SeekFlags};
use crate::media::MediaInfo;
use crate::model::{BusMessage, VideoCaps};
use crate::player::{FrameRef, MappedFrame, Players, Rate, Snapshot, TabUiData};
use crate::text::{begins_with, decimal};
use crate::ui::Status;
use vstd::prelude::*;

verus! {

/// Whether `actions` hold, from `at` on, one order for each of `n` sources, by
/// which source `i` sounds and no other.
pub open spec fn sounds_alone<S>(actions: Seq<Action<S>>, at: int, n: int, i: int) -> bool {
    &&& at + n <= actions.len()
    &&& forall|j: int|
        0 <= j < n ==> #[trigger] actions[at + j] == (Action::<S>::Mute {
            index: j as usize,
            mute: j != i,
        })
}

/// After a switch to tab `i` the active tab is `i`: the source that is drawn is
/// the one that tab `i` had before, it sounds alone, and the moment stays.
pub proof fn a_switch_shows_tab_i<S>(
    p: &mut Players<S>,
    i: usize,
    now: u64,
    actions: Vec<Action<S>>,
    handle: Option<&S>,
    n: usize,
    index: usize,
    drawn: Option<&S>,
    before: Snapshot,
    after: Snapshot,
)
    requires
        old(p).wf(),
        call_ensures(Players::<S>::tab_count, (&*old(p),), n),
        call_ensures(Players::<S>::source, (&*old(p), i), handle),
        call_ensures(Players::<S>::snapshot, (&*old(p),), before),
        call_ensures(Players::<S>::switch_to, (p, i, now), actions),
        call_ensures(Players::<S>::active_index, (&*final(p),), index),
        call_ensures(Players::<S>::active_source, (&*final(p),), drawn),
        call_ensures(Players::<S>::snapshot, (&*final(p),), after),
    ensures
        i < n ==> {
            &&& final(p)@ == old(p)@.switched(i as int, now)
            &&& index == i
            &&& handle is Some && drawn is Some && *drawn->0 == *handle->0
            &&& actions@.len() == n + 1
            &&& sounds_alone(actions@, 0, n as int, i as int)
            &&& actions@.last() == Action::<S>::Wake
        },
        i >= n ==> actions@.len() == 0 && final(p)@ == old(p)@,
        after.position == before.position,
        after.duration == before.duration,
        after.paused == before.paused,
{
    p.wf_is_valid();
    if i < n {
        crate::conduct::a_switch_lands_on_the_named_tab(old(p)@, i as int, now);
    }
}

/// A tick takes over the position that is reported wherever a tab is open,
/// playing or paused, and a snapshot then shows it. It selects no other tab and
/// changes no play state.
pub proof fn a_tick_moves_the_clock<S>(
    p: &mut Players<S>,
    position: Option<u64>,
    duration: Option<u64>,
    n: usize,
    before: Snapshot,
    after: Snapshot,
    was: usize,
    is: usize,
)
    requires
        old(p).wf(),
        call_ensures(Players::<S>::tab_count, (&*old(p),), n),
        call_ensures(Players::<S>::snapshot, (&*old(p),), before),
        call_ensures(Players::<S>::active_index, (&*old(p),), was),
        call_ensures(Players::<S>::tick, (p, position, duration), ()),
        call_ensures(Players::<S>::snapshot, (&*final(p),), after),
        call_ensures(Players::<S>::active_index, (&*final(p),), is),
    ensures
        n > 0 && position is Some ==> after.position == position->0,
        n == 0 || position is None ==> after.position == before.position,
        before.duration > 0 ==> after.duration == before.duration,
        before.duration == 0 && duration is Some ==> after.duration == duration->0,
        before.duration == 0 && duration is None ==> after.duration == 0,
        after.paused == before.paused,
        is == was,
        final(p)@ == old(p)@.ticked(position, duration),
{
    p.wf_is_valid();
    if position is Some {
        crate::conduct::a_tick_follows_the_clock(old(p)@, position->0, position, duration);
    } else {
        crate::conduct::a_tick_follows_the_clock(old(p)@, 0, position, duration);
    }
}

/// The order to seek to `pos`, and no other.
pub open spec fn seeks<S>(actions: Seq<Action<S>>, pos: int, flags: SeekFlags) -> bool {
    actions.len() == 1 && actions[0] is Seek && actions[0]->Seek_pos == pos
        && actions[0]->Seek_flags == flags
}

/// A step back leads exactly one frame before the position that is reported, or
/// to the start, and lands on the very frame. A step ahead asks for the next
/// frame and moves no clock. Without a tab nothing happens.
pub proof fn a_frame_step_moves_by_one_frame<S>(
    p: &mut Players<S>,
    dir: i32,
    at: u64,
    actions: Vec<Action<S>>,
    n: usize,
    frame: Option<u64>,
    before: Snapshot,
    after: Snapshot,
)
    requires
        old(p).wf(),
        at <= i64::MAX,
        call_ensures(Players::<S>::tab_count, (&*old(p),), n),
        call_ensures(Players::<S>::active_frame_duration_ns, (&*old(p),), frame),
        call_ensures(Players::<S>::snapshot, (&*old(p),), before),
        call_ensures(Players::<S>::frame_step, (p, dir, Some(at)), actions),
        call_ensures(Players::<S>::snapshot, (&*final(p),), after),
        frame is Some ==> frame->0 <= i64::MAX,
    ensures
        ({
            let span = if frame is Some {
                frame->0
            } else {
                33_333_333
            };
            let target = if at >= span {
                at - span
            } else {
                0
            };
            &&& n > 0 && dir < 0 ==> seeks(
                actions@,
                target,
                (SeekFlags {
                    flush: true,
                    accurate: true,
                    key_unit: false,
                    snap_before: false,
                    snap_after: false,
                }),
            ) && after.position == target
            &&& n > 0 && dir >= 0 ==> actions@ == seq![Action::<S>::Step] && after.position
                == before.position
            &&& n == 0 ==> actions@.len() == 0 && after.position == before.position
            &&& after.paused == before.paused
            &&& n > 0 && dir < 0 ==> final(p)@ == old(p)@.sought(target as u64)
            &&& n > 0 && dir >= 0 ==> final(p)@ == (crate::model::Model { dirty: true, ..old(p)@ })
            &&& n == 0 ==> final(p)@ == old(p)@
        }),
{
    p.wf_is_valid();
    let m = old(p)@;
    if n > 0 {
        crate::conduct::a_step_back_goes_one_frame(
            m,
            at,
            VideoCaps { width: 0, height: 0, fps_numer: 0, fps_denom: 0 },
        );
        crate::laws::times_stop_at_the_start(at - m.frame_or_default());
        crate::conduct::seek_flags_say_what_they_do();
    }
}

/// At a positive frame rate a frame lasts the full nanoseconds in its share of
/// a second; at a rate of 0, and as long as no frame has come, it is not known.
pub proof fn a_frame_lasts_its_share<S>(
    p: &Players<S>,
    s: Snapshot,
    frame: Option<u64>,
)
    requires
        p.wf(),
        call_ensures(Players::<S>::snapshot, (p,), s),
        call_ensures(Players::<S>::active_frame_duration_ns, (p,), frame),
    ensures
        s.fps is Some && s.fps->0.numer > 0 && s.fps->0.denom > 0 ==> {
            &&& frame is Some
            &&& frame->0 * s.fps->0.numer <= 1_000_000_000 * s.fps->0.denom
            &&& 1_000_000_000 * s.fps->0.denom < (frame->0 + 1) * s.fps->0.numer
        },
        s.width is None ==> frame is None,
{
    p.wf_is_valid();
    if p@.tabs.len() > 0 && p@.tabs[p@.active].latest is Some {
        crate::conduct::a_frame_lasts_its_share_of_a_second(p@, p@.tabs[p@.active].latest->0);
    }
}

/// A step to a keyframe aims one frame ahead of the position that is reported,
/// but not past the start of the last frame, and snaps on; or one frame back,
/// but not past the start, and snaps back.
pub proof fn a_keyframe_step_aims_by_one_frame<S>(
    p: &mut Players<S>,
    dir: i32,
    at: u64,
    actions: Vec<Action<S>>,
    n: usize,
    frame: Option<u64>,
    before: Snapshot,
    after: Snapshot,
)
    requires
        old(p).wf(),
        call_ensures(Players::<S>::tab_count, (&*old(p),), n),
        call_ensures(Players::<S>::active_frame_duration_ns, (&*old(p),), frame),
        call_ensures(Players::<S>::snapshot, (&*old(p),), before),
        call_ensures(Players::<S>::seek_keyframe, (p, dir, Some(at)), actions),
        call_ensures(Players::<S>::snapshot, (&*final(p),), after),
        frame is Some ==> at + frame->0 <= i64::MAX,
        at + 33_333_333 <= i64::MAX,
        before.duration <= i64::MAX,
    ensures
        ({
            let span = if frame is Some {
                frame->0
            } else {
                33_333_333
            };
            let back = if at >= span {
                at - span
            } else {
                0
            };
            let last = if before.duration >= span {
                before.duration - span
            } else {
                0
            };
            let key = SeekFlags {
                flush: true,
                accurate: false,
                key_unit: true,
                snap_before: false,
                snap_after: false,
            };
            &&& n > 0 && dir < 0 ==> seeks(actions@, back, (SeekFlags { snap_before: true, ..key }))
                && after.position == back
            &&& n > 0 && dir > 0 && before.duration > 0 && at + span <= last ==> seeks(
                actions@,
                at + span,
                (SeekFlags { snap_after: true, ..key }),
            ) && after.position == at + span
            &&& n > 0 && dir > 0 && before.duration > 0 && at + span > last ==> seeks(
                actions@,
                last,
                (SeekFlags { snap_after: true, ..key }),
            ) && after.position == last
            &&& n > 0 && dir > 0 && old(p)@.duration is None ==> seeks(
                actions@,
                at + span,
                (SeekFlags { snap_after: true, ..key }),
            ) && after.position == at + span
            &&& n == 0 || dir == 0 ==> actions@.len() == 0 && after.position == before.position
            &&& after.duration == before.duration
            &&& after.paused == before.paused
            &&& n > 0 && dir != 0 ==> final(p)@ == old(p)@.sought(after.position)
            &&& n == 0 || dir == 0 ==> final(p)@ == old(p)@
        }),
{
    p.wf_is_valid();
    let m = old(p)@;
    let span = m.frame_or_default();
    crate::conduct::seek_flags_say_what_they_do();
    crate::laws::times_stop_at_the_start(at + span);
    crate::laws::times_stop_at_the_start(at - span);
    crate::laws::times_stop_at_the_start(before.duration - span);
}

/// A seek to a position asks for just that, and the clock shows it at once.
pub proof fn a_seek_goes_where_it_says<S>(
    p: &mut Players<S>,
    pos: u64,
    actions: Vec<Action<S>>,
    before: Snapshot,
    after: Snapshot,
)
    requires
        old(p).wf(),
        call_ensures(Players::<S>::snapshot, (&*old(p),), before),
        call_ensures(Players::<S>::seek_absolute, (p, pos), actions),
        call_ensures(Players::<S>::snapshot, (&*final(p),), after),
    ensures
        seeks(
            actions@,
            pos as int,
            (SeekFlags {
                flush: true,
                accurate: false,
                key_unit: false,
                snap_before: false,
                snap_after: false,
            }),
        ),
        after.position == pos,
        after.duration == before.duration,
        after.paused == before.paused,
        final(p)@ == old(p)@.sought(pos),
{
    crate::conduct::a_seek_leads_to_its_target(old(p)@, pos);
    crate::conduct::seek_flags_say_what_they_do();
}

/// A seek by a delta leads that far from the position that is reported, or from
/// the last known one where no tab is open or none is reported; or to the
/// start.
pub proof fn a_relative_seek_goes_as_far_as_it_says<S>(
    p: &mut Players<S>,
    delta: i64,
    reported: Option<u64>,
    actions: Vec<Action<S>>,
    n: usize,
    before: Snapshot,
    after: Snapshot,
)
    requires
        old(p).wf(),
        call_ensures(Players::<S>::tab_count, (&*old(p),), n),
        call_ensures(Players::<S>::snapshot, (&*old(p),), before),
        call_ensures(Players::<S>::seek_relative, (p, delta, reported), actions),
        call_ensures(Players::<S>::snapshot, (&*final(p),), after),
    ensures
        ({
            let from = if n > 0 && reported is Some {
                reported->0
            } else {
                before.position
            };
            let to = if from + delta >= 0 {
                from + delta
            } else {
                0
            };
            from + delta <= i64::MAX ==> {
                &&& seeks(
                    actions@,
                    to,
                    (SeekFlags {
                        flush: true,
                        accurate: false,
                        key_unit: false,
                        snap_before: false,
                        snap_after: false,
                    }),
                )
                &&& after.position == to
                &&& after.paused == before.paused
                &&& final(p)@ == old(p)@.sought(to as u64)
            }
        }),
{
    crate::conduct::seek_flags_say_what_they_do();
    let from = if n > 0 && reported is Some {
        reported->0
    } else {
        before.position
    };
    if from + delta <= i64::MAX {
        crate::laws::times_stop_at_the_start(from + delta);
    }
}

/// Pausing and resuming show in the next snapshot and reach the pipeline where
/// a tab is open; toggling turns the play state round.
pub proof fn a_pause_reaches_the_pipeline<S>(
    p: &mut Players<S>,
    paused: bool,
    actions: Vec<Action<S>>,
    n: usize,
    before: Snapshot,
    after: Snapshot,
)
    requires
        old(p).wf(),
        call_ensures(Players::<S>::tab_count, (&*old(p),), n),
        call_ensures(Players::<S>::snapshot, (&*old(p),), before),
        call_ensures(Players::<S>::snapshot, (&*final(p),), after),
        call_ensures(Players::<S>::set_paused, (p, paused), actions) || (call_ensures(
            Players::<S>::toggle_pause,
            (p,),
            actions,
        ) && paused == !before.paused),
    ensures
        after.paused == paused,
        final(p)@ == old(p)@.with_pause(paused),
        after.position == before.position,
        after.duration == before.duration,
        n == 0 ==> actions@.len() == 0,
        n > 0 && paused ==> actions@ == seq![
            Action::<S>::SetState { state: PipelineState::Paused },
        ],
        n > 0 && !paused ==> actions@ == seq![
            Action::<S>::SetState { state: PipelineState::Playing },
        ],
{
    crate::conduct::the_pipeline_takes_the_play_state(old(p)@, paused);
}

/// Looping turns round, and the call says how it then is.
pub proof fn looping_turns_round<S>(
    p: &mut Players<S>,
    r: bool,
    was: bool,
    is: bool,
    before: Snapshot,
    after: Snapshot,
)
    requires
        old(p).wf(),
        call_ensures(Players::<S>::loop_enabled, (&*old(p),), was),
        call_ensures(Players::<S>::snapshot, (&*old(p),), before),
        call_ensures(Players::<S>::toggle_loop, (p,), r),
        call_ensures(Players::<S>::loop_enabled, (&*final(p),), is),
        call_ensures(Players::<S>::snapshot, (&*final(p),), after),
    ensures
        r == !was,
        is == r,
        after.position == before.position,
        after.paused == before.paused,
        final(p)@.tabs == old(p)@.tabs,
        final(p)@.closed == old(p)@.closed,
        final(p)@.active == old(p)@.active,
        final(p)@.duration == old(p)@.duration,
        final(p)@.switch_pending == old(p)@.switch_pending,
        final(p)@.dirty,
{
}

/// Closing tab `i` shuts down the source that it had and no other: each other
/// tab keeps its path and its source, one index lower behind it.
pub proof fn a_close_drops_tab_i<S>(
    p: &mut Players<S>,
    i: usize,
    actions: Vec<Action<S>>,
    handle: Option<&S>,
    n: usize,
    left: usize,
    j: usize,
    path_before: Option<&str>,
    path_after: Option<&str>,
    source_before: Option<&S>,
    source_after: Option<&S>,
)
    requires
        old(p).wf(),
        call_ensures(Players::<S>::tab_count, (&*old(p),), n),
        i < n,
        j + 1 < n,
        call_ensures(Players::<S>::source, (&*old(p), i), handle),
        call_ensures(
            Players::<S>::path,
            (
                &*old(p),
                if j < i {
                    j
                } else {
                    (j + 1) as usize
                },
            ),
            path_before,
        ),
        call_ensures(
            Players::<S>::source,
            (
                &*old(p),
                if j < i {
                    j
                } else {
                    (j + 1) as usize
                },
            ),
            source_before,
        ),
        call_ensures(Players::<S>::close, (p, i), actions),
        call_ensures(Players::<S>::tab_count, (&*final(p),), left),
        call_ensures(Players::<S>::path, (&*final(p), j), path_after),
        call_ensures(Players::<S>::source, (&*final(p), j), source_after),
    ensures
        left == n - 1,
        actions@.len() > 0,
        handle is Some && actions@[0] == (Action::<S>::Detach { source: *handle->0 }),
        path_before is Some && path_after is Some && path_after->0@ == path_before->0@,
        source_before is Some && source_after is Some && *source_after->0 == *source_before->0,
{
    p.wf_is_valid();
    crate::conduct::a_close_takes_out_one_tab(old(p)@, i as int);
    crate::conduct::a_close_shuts_its_source_down(old(p)@, i as int);
}

/// Closing keeps the active tab active; where it is the one that is closed, the
/// next one becomes active, or the last one where there is no next. The active
/// source then sounds alone. With the only tab everything is rewound.
pub proof fn a_close_selects_the_neighbour<S>(
    p: &mut Players<S>,
    i: usize,
    actions: Vec<Action<S>>,
    n: usize,
    was: usize,
    is: usize,
    before: Snapshot,
    after: Snapshot,
)
    requires
        old(p).wf(),
        call_ensures(Players::<S>::tab_count, (&*old(p),), n),
        call_ensures(Players::<S>::active_index, (&*old(p),), was),
        call_ensures(Players::<S>::snapshot, (&*old(p),), before),
        call_ensures(Players::<S>::close, (p, i), actions),
        call_ensures(Players::<S>::active_index, (&*final(p),), is),
        call_ensures(Players::<S>::snapshot, (&*final(p),), after),
    ensures
        i < n ==> final(p)@ == old(p)@.without(i as int),
        i >= n ==> final(p)@ == old(p)@,
        i >= n ==> actions@.len() == 0 && is == was && after.position == before.position,
        i < n && n > 1 ==> {
            &&& i < was ==> is == was - 1
            &&& i > was ==> is == was
            &&& i == was && i + 1 < n ==> is == i
            &&& i == was && i + 1 == n ==> is == i - 1
            &&& actions@.len() == n + 1
            &&& sounds_alone(actions@, 1, n - 1, is as int)
            &&& actions@.last() == Action::<S>::Wake
            &&& after.position == before.position
            &&& after.duration == before.duration
            &&& after.paused == before.paused
        },
        i < n && n == 1 ==> {
            &&& is == 0
            &&& after.paused
            &&& after.position == 0
            &&& after.duration == 0
            &&& after.path is None
            &&& actions@.len() == 2
            &&& actions@[1] == (Action::<S>::SetState { state: PipelineState::Ready })
        },
{
    p.wf_is_valid();
    if i < n {
        crate::conduct::a_close_takes_out_one_tab(old(p)@, i as int);
        if n > 1 {
            crate::conduct::a_close_shuts_its_source_down(old(p)@, i as int);
            crate::conduct::a_close_leaves_playback_going(old(p)@, i as int);
        } else {
            crate::laws::closing_the_only_tab_rewinds(old(p)@);
        }
    }
}

/// Moving the tab at `from` to `to` puts its path and its source there, and
/// keeps the source that is drawn, which then sounds alone.
pub proof fn a_move_carries_the_tab_along<S>(
    p: &mut Players<S>,
    from: usize,
    to: usize,
    actions: Vec<Action<S>>,
    n: usize,
    path_before: Option<&str>,
    path_after: Option<&str>,
    source_before: Option<&S>,
    source_after: Option<&S>,
    drawn_before: Option<&S>,
    drawn_after: Option<&S>,
    is: usize,
)
    requires
        old(p).wf(),
        call_ensures(Players::<S>::tab_count, (&*old(p),), n),
        from < n,
        to < n,
        call_ensures(Players::<S>::path, (&*old(p), from), path_before),
        call_ensures(Players::<S>::source, (&*old(p), from), source_before),
        call_ensures(Players::<S>::active_source, (&*old(p),), drawn_before),
        call_ensures(Players::<S>::reorder, (p, from, to), actions),
        call_ensures(Players::<S>::path, (&*final(p), to), path_after),
        call_ensures(Players::<S>::source, (&*final(p), to), source_after),
        call_ensures(Players::<S>::active_source, (&*final(p),), drawn_after),
        call_ensures(Players::<S>::active_index, (&*final(p),), is),
    ensures
        path_before is Some && path_after is Some && path_after->0@ == path_before->0@,
        source_before is Some && source_after is Some && *source_after->0 == *source_before->0,
        drawn_before is Some && drawn_after is Some && *drawn_after->0 == *drawn_before->0,
        from == to ==> actions@.len() == 0,
        final(p)@ == old(p)@.reordered(from as int, to as int),
        from != to ==> {
            &&& actions@.len() == n + 1
            &&& sounds_alone(actions@, 0, n as int, is as int)
            &&& actions@.last() == Action::<S>::Wake
        },
{
    p.wf_is_valid();
    crate::conduct::a_move_lands_at_its_target(old(p)@, from as int, to as int);
    crate::conduct::a_move_keeps_the_active_source_sounding(old(p)@, from as int, to as int);
    crate::laws::reorder_keeps_the_active_tab(old(p)@, from as int, to as int);
}

/// A tab that is closed is the one that is reopened next: at its index, with its
/// path. Reopening takes it out of the history and starts from the beginning.
pub proof fn what_was_closed_is_reopened<S>(
    p: &mut Players<S>,
    q: &mut Players<S>,
    i: usize,
    n: usize,
    path: Option<&str>,
    sizes: Vec<Option<u64>>,
    shown: Vec<TabUiData>,
    actions: Vec<Action<S>>,
    task: Option<crate::opening::Opening<S>>,
)
    requires
        old(p).wf(),
        call_ensures(Players::<S>::tab_count, (&*old(p),), n),
        i < n,
        call_ensures(Players::<S>::path, (&*old(p), i), path),
        call_ensures(Players::<S>::tabs_for_ui, (&*old(p), &sizes), shown),
        call_ensures(Players::<S>::close, (p, i), actions),
        *old(q) == *final(p),
        call_ensures(Players::<S>::reopen_closed, (q,), task),
    ensures
        task is Some,
        path is Some && task->0.path@ == path->0@,
        task->0.restore is Some,
        task->0.restore->0.index == i,
        shown@.len() == n,
        task->0.restore->0.starred == shown@[i as int].starred,
        task->0.stage is Build,
        final(q)@.closed == old(p)@.closed,
        final(q)@.tabs == old(q)@.tabs,
        final(q)@.active == old(q)@.active,
        final(q)@.position == old(q)@.position,
        final(q)@.paused == old(q)@.paused,
        final(q)@.looping == old(q)@.looping,
        final(q)@.duration == old(q)@.duration,
        final(q)@.switch_pending == old(q)@.switch_pending,
        final(q)@.dirty == old(q)@.dirty,
{
    p.wf_is_valid();
    crate::conduct::a_close_takes_out_one_tab(old(p)@, i as int);
    assert(old(q)@.closed.drop_last() =~= old(p)@.closed);
    assert(shown@[i as int]@.starred == shown@[i as int].starred);
}

/// The history is walked back to its end, where nothing is reopened; an open of
/// a path starts from the beginning and restores nothing.
pub proof fn an_open_starts_at_the_beginning<S>(
    p: &Players<S>,
    path: &str,
    task: crate::opening::Opening<S>,
)
    requires
        call_ensures(Players::<S>::open, (p, path), task),
    ensures
        task.path@ == path@,
        task.restore is None,
        task.stage is Build,
{
}

/// When the source of an open is in the pipeline and the position has been
/// asked for, the tab is there: the last one and the active one, with its path
/// and its source, at the position that is reported, or at the start where it
/// is the first.
pub proof fn a_located_source_gets_its_tab<S>(
    p: &mut Players<S>,
    task: crate::opening::Opening<S>,
    position: Option<u64>,
    now: u64,
    r: (crate::opening::Opening<S>, Vec<Action<S>>),
    n: usize,
    left: usize,
    is: usize,
    path: Option<&str>,
    drawn: Option<&S>,
    before: Snapshot,
    after: Snapshot,
)
    requires
        old(p).wf(),
        task.stage is Locate,
        call_ensures(Players::<S>::tab_count, (&*old(p),), n),
        n < usize::MAX,
        call_ensures(Players::<S>::snapshot, (&*old(p),), before),
        call_ensures(
            Players::<S>::advance,
            (p, task, crate::opening::OpenEvent::Located { position }, now),
            r,
        ),
        call_ensures(Players::<S>::tab_count, (&*final(p),), left),
        call_ensures(Players::<S>::active_index, (&*final(p),), is),
        call_ensures(Players::<S>::path, (&*final(p), n), path),
        call_ensures(Players::<S>::active_source, (&*final(p),), drawn),
        call_ensures(Players::<S>::snapshot, (&*final(p),), after),
    ensures
        left == n + 1,
        final(p)@ == old(p)@.opened(task.path@, task.stage->Locate_source, position, now),
        is == n,
        path is Some && path->0@ == task.path@,
        drawn is Some && *drawn->0 == task.stage->Locate_source,
        n == 0 ==> after.position == 0,
        n > 0 && position is Some ==> after.position == position->0,
        n > 0 && position is None ==> after.position == before.position,
        after.paused == before.paused,
        r.1@.len() > n + 2,
        r.1@[0] == (Action::<S>::Preroll { index: n }),
        sounds_alone(r.1@, r.1@.len() - 1 - (n + 1), n + 1, n as int),
        r.1@.last() == Action::<S>::Wake,
        after.position > 0 ==> r.1@.len() == n + 6 && r.1@[1] == (Action::<S>::SeekSource {
            index: n,
            pos: after.position,
            flags: SeekFlags::accurate(),
        }) && r.1@[3] == (Action::<S>::Seek {
            pos: after.position,
            flags: SeekFlags::flushing(),
        }),
        after.position == 0 ==> r.1@.len() == n + 4,
        ({
            let state = if before.paused {
                PipelineState::Paused
            } else {
                PipelineState::Playing
            };
            r.1@[if after.position > 0 {
                2
            } else {
                1int
            }] == (Action::<S>::SetState { state })
        }),
        task.restore is None ==> r.0.stage is Done,
        task.restore is Some ==> r.0.stage is Settle,
        r.0.path@ == task.path@,
        r.0.restore == task.restore,
{
    p.wf_is_valid();
    let source = task.stage->Locate_source;
    crate::conduct::an_open_adds_one_tab(old(p)@, task.path@, source, position, now);
    crate::conduct::an_open_prerolls_joins_and_sounds(
        old(p)@,
        task.path@,
        source,
        position,
        now,
    );
    crate::opening::each_step_leads_to_the_next(task.restore, source, position);
    let skip: int = if after.position > 0 {
        4
    } else {
        2
    };
    assert forall|j: int| 0 <= j < n + 1 implies #[trigger] r.1@[skip + j] == (Action::<S>::Mute {
        index: j as usize,
        mute: j != n,
    }) by {}
}

/// An open that fails leaves the tabs, their stars, the active tab and the clock
/// as they are, and asks for nothing; so does every step before the last.
pub proof fn a_failed_or_early_step_leaves_the_tabs<S>(
    p: &mut Players<S>,
    task: crate::opening::Opening<S>,
    event: crate::opening::OpenEvent<S>,
    now: u64,
    r: (crate::opening::Opening<S>, Vec<Action<S>>),
    sizes: Vec<Option<u64>>,
    shown_before: Vec<TabUiData>,
    shown_after: Vec<TabUiData>,
    was: usize,
    is: usize,
    before: Snapshot,
    after: Snapshot,
)
    requires
        old(p).wf(),
        !(event is Located) && !(event is Settled),
        call_ensures(Players::<S>::tabs_for_ui, (&*old(p), &sizes), shown_before),
        call_ensures(Players::<S>::active_index, (&*old(p),), was),
        call_ensures(Players::<S>::snapshot, (&*old(p),), before),
        call_ensures(Players::<S>::advance, (p, task, event, now), r),
        call_ensures(Players::<S>::tabs_for_ui, (&*final(p), &sizes), shown_after),
        call_ensures(Players::<S>::active_index, (&*final(p),), is),
        call_ensures(Players::<S>::snapshot, (&*final(p),), after),
    ensures
        r.1@.len() == 0,
        final(p)@ == old(p)@,
        is == was,
        after.position == before.position,
        after.paused == before.paused,
        shown_after@.len() == shown_before@.len(),
        forall|j: int|
            0 <= j < shown_after@.len() ==> (#[trigger] shown_after@[j])@ == shown_before@[j]@,
        event is BuildFailed && task.stage is Build ==> r.0.stage is Done,
        event is AttachFailed && task.stage is Attach ==> r.0.stage is Done,
        r.0.path@ == task.path@,
        r.0.restore == task.restore,
{
}

/// Flipping a star shows in the strip: at that tab, and at no other.
pub proof fn a_star_shows_at_its_tab<S>(
    p: &mut Players<S>,
    i: usize,
    actions: Vec<Action<S>>,
    sizes: Vec<Option<u64>>,
    before: Vec<TabUiData>,
    after: Vec<TabUiData>,
)
    requires
        old(p).wf(),
        call_ensures(Players::<S>::tabs_for_ui, (&*old(p), &sizes), before),
        call_ensures(Players::<S>::toggle_star, (p, i), actions),
        call_ensures(Players::<S>::tabs_for_ui, (&*final(p), &sizes), after),
    ensures
        after@.len() == before@.len(),
        forall|j: int|
            0 <= j < before@.len() ==> {
                &&& (#[trigger] after@[j]).starred == (if j == i {
                    !before@[j].starred
                } else {
                    before@[j].starred
                })
                &&& after@[j].label@ == before@[j].label@
                &&& after@[j].active == before@[j].active
                &&& after@[j].path@ == before@[j].path@
                &&& after@[j].info@ == before@[j].info@
                &&& after@[j].video_codec@ == before@[j].video_codec@
                &&& after@[j].filesize@ == before@[j].filesize@
            },
        i < before@.len() ==> final(p)@ == old(p)@.star_flipped(i as int),
        i >= before@.len() ==> final(p)@ == old(p)@,
        i < before@.len() ==> actions@ == seq![Action::<S>::Wake],
        i >= before@.len() ==> actions@.len() == 0,
{
    if i < before@.len() {
        crate::conduct::a_star_flips_alone(old(p)@, i as int);
    }
    assert forall|j: int| 0 <= j < before@.len() implies {
        &&& (#[trigger] after@[j]).starred == (if j == i {
            !before@[j].starred
        } else {
            before@[j].starred
        })
        &&& after@[j].label@ == before@[j].label@
        &&& after@[j].active == before@[j].active
        &&& after@[j].path@ == before@[j].path@
        &&& after@[j].info@ == before@[j].info@
        &&& after@[j].video_codec@ == before@[j].video_codec@
        &&& after@[j].filesize@ == before@[j].filesize@
    } by {
        let a = after@[j]@;
        let b = before@[j]@;
        assert(a.starred == after@[j].starred && b.starred == before@[j].starred);
        assert(a.label == after@[j].label@ && b.label == before@[j].label@);
    }
}

/// The strip shows of each tab its own path, and the label that goes with it,
/// and marks exactly the active tab.
pub proof fn the_strip_lists_the_tabs<S>(
    p: &Players<S>,
    sizes: Vec<Option<u64>>,
    shown: Vec<TabUiData>,
    n: usize,
    is: usize,
    i: usize,
    path: Option<&str>,
)
    requires
        p.wf(),
        call_ensures(Players::<S>::tabs_for_ui, (p, &sizes), shown),
        call_ensures(Players::<S>::tab_count, (p,), n),
        call_ensures(Players::<S>::active_index, (p,), is),
        call_ensures(Players::<S>::path, (p, i), path),
    ensures
        shown@.len() == n,
        i < n ==> {
            &&& path is Some
            &&& shown@[i as int].path@ == path->0@
            &&& shown@[i as int].label@ == crate::text::file_name(path->0@)
            &&& shown@[i as int].active == (i == is)
        },
{
    if i < n {
        let text = shown@[i as int]@;
        assert(text.path == shown@[i as int].path@ && text.label == shown@[i as int].label@);
    }
}

/// The mark for new content is taken once: set, it is reported and cleared.
pub proof fn the_mark_is_taken_once<S>(
    p: &mut Players<S>,
    q: &mut Players<S>,
    t: &mut Players<S>,
    first: bool,
    second: bool,
    before: Snapshot,
    after: Snapshot,
)
    requires
        old(p).wf(),
        call_ensures(Players::<S>::snapshot, (&*old(p),), before),
        call_ensures(Players::<S>::mark_dirty, (p,), ()),
        *old(q) == *final(p),
        call_ensures(Players::<S>::take_dirty, (q,), first),
        *old(t) == *final(q),
        call_ensures(Players::<S>::take_dirty, (t,), second),
        call_ensures(Players::<S>::snapshot, (&*final(t),), after),
    ensures
        first,
        !second,
        after.position == before.position,
        after.paused == before.paused,
        after.duration == before.duration,
        final(t)@.tabs == old(p)@.tabs,
        final(t)@.closed == old(p)@.closed,
        final(t)@.active == old(p)@.active,
        final(t)@.looping == old(p)@.looping,
        final(t)@.switch_pending == old(p)@.switch_pending,
{
}

/// The time of a switch is taken once.
pub proof fn the_switch_is_reported_once<S>(
    p: &mut Players<S>,
    q: &mut Players<S>,
    t: &mut Players<S>,
    i: usize,
    now: u64,
    actions: Vec<Action<S>>,
    n: usize,
    first: Option<u64>,
    second: Option<u64>,
)
    requires
        old(p).wf(),
        call_ensures(Players::<S>::tab_count, (&*old(p),), n),
        i < n,
        call_ensures(Players::<S>::switch_to, (p, i, now), actions),
        *old(q) == *final(p),
        call_ensures(Players::<S>::take_switch_pending, (q,), first),
        *old(t) == *final(q),
        call_ensures(Players::<S>::take_switch_pending, (t,), second),
    ensures
        first == Some(now),
        second is None,
        final(t)@.tabs == old(p)@.tabs,
        final(t)@.closed == old(p)@.closed,
        final(t)@.active == i,
        final(t)@.looping == old(p)@.looping,
        final(t)@.paused == old(p)@.paused,
        final(t)@.position == old(p)@.position,
        final(t)@.duration == old(p)@.duration,
        final(t)@.dirty,
{
    p.wf_is_valid();
    crate::conduct::a_switch_lands_on_the_named_tab(old(p)@, i as int, now);
}

/// The format that is recorded for the active tab is the one that a snapshot
/// shows.
pub proof fn the_recorded_format_is_shown<S>(
    p: &mut Players<S>,
    is: usize,
    n: usize,
    caps: VideoCaps,
    s: Snapshot,
)
    requires
        old(p).wf(),
        call_ensures(Players::<S>::tab_count, (&*old(p),), n),
        n > 0,
        call_ensures(Players::<S>::active_index, (&*old(p),), is),
        call_ensures(Players::<S>::set_latest, (p, is, Some(caps)), ()),
        call_ensures(Players::<S>::snapshot, (&*final(p),), s),
    ensures
        s.width == Some(caps.width as i32),
        s.height == Some(caps.height as i32),
        caps.fps_numer != 0 && caps.fps_denom != 0 ==> s.fps == Some(
            Rate { numer: caps.fps_numer, denom: caps.fps_denom },
        ),
        caps.fps_numer == 0 || caps.fps_denom == 0 ==> s.fps is None,
{
    p.wf_is_valid();
}

/// The facts that are recorded for the active tab are those that a snapshot
/// shows.
pub proof fn the_recorded_facts_are_shown<S>(
    p: &mut Players<S>,
    is: usize,
    n: usize,
    info: MediaInfo,
    s: Snapshot,
)
    requires
        old(p).wf(),
        call_ensures(Players::<S>::tab_count, (&*old(p),), n),
        n > 0,
        call_ensures(Players::<S>::active_index, (&*old(p),), is),
        call_ensures(Players::<S>::set_info, (p, is, Some(info)), ()),
        call_ensures(Players::<S>::snapshot, (&*final(p),), s),
    ensures
        s.media.container@ == info.container@,
        s.media.video@ == info.video@,
        s.media.video_codec@ == info.video_codec@,
        s.media.audio@ == info.audio@,
        s.media.audio_codec@ == info.audio_codec@,
        s.media.encoder@ == info.encoder@,
{
    p.wf_is_valid();
    crate::display::facts_are_the_texts(info);
    crate::display::facts_are_the_texts(s.media);
}

/// The frame to upload is the mapped one, with its own size, stride and pixels,
/// wherever a tab is open.
pub proof fn the_mapped_frame_is_uploaded<S>(
    p: &Players<S>,
    n: usize,
    mapped: MappedFrame<'_>,
    r: Option<FrameRef<'_>>,
    none: Option<FrameRef<'_>>,
)
    requires
        p.wf(),
        call_ensures(Players::<S>::tab_count, (p,), n),
        call_ensures(Players::<S>::map_active_frame, (p, Some(mapped)), r),
        call_ensures(Players::<S>::map_active_frame, (p, None), none),
    ensures
        none is None,
        n == 0 ==> r is None,
        n > 0 ==> {
            &&& r is Some
            &&& r->0.width == mapped.width as i32
            &&& r->0.height == mapped.height as i32
            &&& r->0.stride == mapped.stride
            &&& r->0.data == mapped.data
        },
{
}

/// The end of the stream takes the clock to the start and asks for that seek;
/// where looping is off it pauses, and stays as it was where looping is on.
pub proof fn the_end_of_the_stream_is_heeded<S>(
    p: &mut Players<S>,
    msgs: Vec<BusMessage>,
    r: (bool, Vec<Action<S>>),
    looping: bool,
    n: usize,
    before: Snapshot,
    after: Snapshot,
)
    requires
        old(p).wf(),
        msgs@ == seq![BusMessage::Eos],
        call_ensures(Players::<S>::loop_enabled, (&*old(p),), looping),
        call_ensures(Players::<S>::tab_count, (&*old(p),), n),
        call_ensures(Players::<S>::snapshot, (&*old(p),), before),
        call_ensures(Players::<S>::pump_events, (p, &msgs), r),
        call_ensures(Players::<S>::snapshot, (&*final(p),), after),
    ensures
        r.0,
        after.position == 0,
        after.duration == before.duration,
        looping ==> after.paused == before.paused,
        !looping ==> after.paused,
        r.1@.len() > 0 && r.1@[0] == (Action::<S>::Seek { pos: 0, flags: SeekFlags::flushing() }),
        looping ==> r.1@.len() == 1,
        !looping && n > 0 ==> r.1@.len() == 2 && r.1@[1] == (Action::<S>::SetState {
            state: PipelineState::Paused,
        }),
{
    crate::conduct::messages_are_heeded_one_by_one(old(p)@, BusMessage::Eos);
    crate::conduct::the_end_of_the_stream_goes_to_the_start(old(p)@);
    crate::conduct::errors_and_the_rest_do_not_redraw(None);
    assert(msgs@[0] == BusMessage::Eos);
}

/// A change of duration shows in the next snapshot and moves nothing.
pub proof fn a_new_duration_is_heeded<S>(
    p: &mut Players<S>,
    msgs: Vec<BusMessage>,
    r: (bool, Vec<Action<S>>),
    duration: Option<u64>,
    before: Snapshot,
    after: Snapshot,
)
    requires
        old(p).wf(),
        msgs@ == seq![BusMessage::DurationChanged { duration }],
        call_ensures(Players::<S>::snapshot, (&*old(p),), before),
        call_ensures(Players::<S>::pump_events, (p, &msgs), r),
        call_ensures(Players::<S>::snapshot, (&*final(p),), after),
    ensures
        r.0,
        r.1@.len() == 0,
        duration is Some ==> after.duration == duration->0,
        duration is None ==> after.duration == 0,
        after.position == before.position,
        after.paused == before.paused,
{
    let msg = BusMessage::DurationChanged { duration };
    crate::conduct::messages_are_heeded_one_by_one(old(p)@, msg);
    crate::conduct::other_messages_change_at_most_the_duration(old(p)@, duration);
    crate::conduct::errors_and_the_rest_do_not_redraw(duration);
    assert(msgs@[0] == msg);
}

/// The window shows a file by its path, plays where it is not paused, and says
/// so where there is no file. It shows the facts of the snapshot.
pub proof fn the_window_shows_the_snapshot(s: Snapshot, size: Option<u64>, r: Status)
    requires
        call_ensures(crate::ui::status, (&s, size), r),
    ensures
        r.playing == !s.paused,
        r.time@ == crate::ui::time_text(s.position as nat, s.duration as nat),
        r.frame@ == crate::ui::frame_text(s.position as nat, s.fps),
        r.info@ == crate::ui::info_text(s.width, s.height, s.fps),
        r.size@ == crate::ui::file_size_text(s.path, size),
        s.path is Some ==> r.filename@ == s.path->0@,
        s.path is None ==> r.filename@ == "(no file)"@,
        r.media.container@ == s.media.container@,
        r.media.video@ == s.media.video@,
        r.media.video_codec@ == s.media.video_codec@,
        r.media.audio@ == s.media.audio@,
        r.media.audio_codec@ == s.media.audio_codec@,
        r.media.encoder@ == s.media.encoder@,
{
    crate::display::facts_are_the_texts(r.media);
    crate::display::facts_are_the_texts(s.media);
}

/// The window's frame text numbers the frame nearest to the position of the
/// snapshot, at a positive rate.
pub proof fn the_window_numbers_the_nearest_frame(s: Snapshot, size: Option<u64>, r: Status)
    requires
        call_ensures(crate::ui::status, (&s, size), r),
        s.position < 0x20_0000_0000_0000,
        s.fps is Some,
        s.fps->0.numer > 0,
        s.fps->0.denom > 0,
    ensures
        exists|index: nat|
            {
                let second = s.fps->0.denom * 1_000_000_000;
                let exact = s.position * s.fps->0.numer;
                let slack = 0x8000_0000_0000 * second + exact;
                &&& r.frame@ == #[trigger] crate::display::numbered(index)
                &&& -slack <= 2 * (index * second - exact) * 0x8000_0000_0000 <= slack
            },
{
    crate::display::the_frame_text_numbers_the_nearest_frame(s.position as nat, s.fps->0);
}

/// The window's time, dimensions and size are those of the snapshot.
pub proof fn the_window_shows_time_and_dimensions(
    s: Snapshot,
    size: Option<u64>,
    r: Status,
)
    requires
        call_ensures(crate::ui::status, (&s, size), r),
    ensures
        s.position < 0x20_0000_0000_0000 && s.duration < 0x20_0000_0000_0000 ==> r.time@
            == crate::numbers::clock_text((s.position / 1_000_000_000) as nat) + " / "@
            + crate::numbers::clock_text((s.duration / 1_000_000_000) as nat),
        s.fps is None ==> r.frame@ == "#-"@,
        s.width is Some && s.width->0 >= 0 && s.height is Some && s.height->0 >= 0 ==> {
            let text = decimal(s.width->0 as nat) + "×"@ + decimal(s.height->0 as nat);
            &&& s.fps is None ==> r.info@ == text
            &&& s.fps is Some ==> r.info@ == text + " · "@ + crate::numbers::fps_text(
                s.fps->0.numer as int,
                s.fps->0.denom as int,
            ) + " fps"@
        },
        s.width is None || s.height is None ==> r.info@ == "—"@,
        s.path is Some && size is Some && !crate::text::is_uri(s.path->0@) ==> r.size@
            == crate::numbers::size_text(size->0 as nat),
        s.path is None || size is None || crate::text::is_uri(s.path->0@) ==> r.size@.len() == 0,
{
    crate::display::the_time_row_shows_position_and_duration(
        s.position as nat,
        s.duration as nat,
    );
}

/// What a probe finds of dimensions, codecs and encoder is what the facts say.
pub proof fn a_probe_becomes_its_facts(p: crate::media::Probe, info: Option<MediaInfo>)
    requires
        call_ensures(crate::media::discover, (Some(p),), info),
    ensures
        info is Some,
        info->0@ == crate::media::facts_of(p),
        p.video@.len() > 0 && p.video@[0].width > 0 && p.video@[0].height > 0 ==> begins_with(
            info->0.video@,
            decimal(p.video@[0].width as nat) + "×"@ + decimal(p.video@[0].height as nat),
        ),
        p.video@.len() == 0 ==> info->0.video@.len() == 0 && info->0.video_codec@.len() == 0,
        p.audio@.len() == 0 ==> info->0.audio@.len() == 0 && info->0.audio_codec@.len() == 0,
        p.encoder is Some ==> info->0.encoder@ == p.encoder->0@,
        p.encoder is None ==> info->0.encoder@.len() == 0,
{
    crate::display::facts_are_the_texts(info->0);
    crate::display::codecs_and_encoder_come_from_the_report(p);
    if p.video@.len() > 0 && p.video@[0].width > 0 && p.video@[0].height > 0 {
        crate::display::the_video_row_begins_with_width_by_height(p);
    }
}

/// Each texture keeps its name, and each slot the size of what was last loaded
/// into it: loading a frame again in its size resizes nothing, whatever was
/// loaded into the other slot in between.
pub proof fn a_slot_remembers_its_size(
    a: &mut crate::video_texture::VideoTexture,
    b: &mut crate::video_texture::VideoTexture,
    c: &mut crate::video_texture::VideoTexture,
    idx: usize,
    w: i32,
    h: i32,
    stride: i32,
    w2: i32,
    h2: i32,
    first: Vec<crate::video_texture::GlCall>,
    other: Vec<crate::video_texture::GlCall>,
    again: Vec<crate::video_texture::GlCall>,
    name: u32,
)
    requires
        idx < 2,
        w > 0,
        h > 0,
        call_ensures(crate::video_texture::VideoTexture::id, (&*old(a), idx), name),
        call_ensures(crate::video_texture::VideoTexture::upload, (a, idx, w, h, stride), first),
        *old(b) == *final(a),
        call_ensures(
            crate::video_texture::VideoTexture::upload,
            (b, (1 - idx) as usize, w2, h2, stride),
            other,
        ),
        *old(c) == *final(b),
        call_ensures(crate::video_texture::VideoTexture::upload, (c, idx, w, h, stride), again),
    ensures
        again@.len() >= 5,
        again@[0] == (crate::video_texture::GlCall::Bind { texture: Some(name) }),
        forall|i: int| 0 <= i < again@.len() ==> !((#[trigger] again@[i]) is Image),
        exists|i: int|
            0 <= i < again@.len() && #[trigger] again@[i]
                == (crate::video_texture::GlCall::SubImage { width: w, height: h }),
{
    a.there_are_two();
    b.there_are_two();
    c.there_are_two();
    final(b).there_are_two();
    assert(c.sizes()[idx as int] == (w, h));
    let texture = c.names()[idx as int];
    crate::video_texture::a_frame_is_loaded_once(texture, (w, h), w, h, stride);
    crate::video_texture::an_equal_frame_does_not_resize(texture, w, h, stride);
    let load: int = if crate::video_texture::row_pixels(stride as int) != w {
        3
    } else {
        2
    };
    assert(again@[load] == crate::video_texture::GlCall::SubImage { width: w, height: h });
}

/// Two presents in a row show different slots, the second the one that the first
/// hid, and each render fills the slot that is shown.
pub proof fn presents_alternate(
    a: &mut crate::present::Presenter,
    b: &mut crate::present::Presenter,
    c: &mut crate::present::Presenter,
    w: i32,
    h: i32,
    first: crate::present::Presented,
    second: crate::present::Presented,
    filled: Option<usize>,
)
    requires
        old(a).wf(),
        call_ensures(crate::present::Presenter::present, (a, Some(w), Some(h), true), first),
        *old(b) == *final(a),
        call_ensures(crate::present::Presenter::present, (b, Some(w), Some(h), true), second),
        *old(c) == *final(b),
        call_ensures(crate::present::Presenter::take_pending, (c,), filled),
    ensures
        first is Show,
        second is Show,
        first->slot < 2,
        second->slot == 1 - first->slot,
        first->width == w as u32 && first->height == h as u32,
        second->width == w as u32 && second->height == h as u32,
        filled == Some(second->slot),
{
    a.wf_is_in_range();
}

/// A tab that is brought back ends at its index, as far as there are so many
/// tabs, with its star, and stays the one that is drawn.
pub proof fn a_settled_tab_is_in_its_place<S>(
    p: &mut Players<S>,
    task: crate::opening::Opening<S>,
    place: crate::opening::Place,
    now: u64,
    r: (crate::opening::Opening<S>, Vec<Action<S>>),
    n: usize,
    was: usize,
    is: usize,
    left: usize,
    sizes: Vec<Option<u64>>,
    shown: Vec<TabUiData>,
    drawn_before: Option<&S>,
    drawn_after: Option<&S>,
)
    requires
        old(p).wf(),
        task.stage is Settle,
        task.restore == Some(place),
        call_ensures(Players::<S>::tab_count, (&*old(p),), n),
        call_ensures(Players::<S>::active_index, (&*old(p),), was),
        n > 0,
        was == n - 1,
        call_ensures(Players::<S>::active_source, (&*old(p),), drawn_before),
        call_ensures(
            Players::<S>::advance,
            (p, task, crate::opening::OpenEvent::Settled, now),
            r,
        ),
        call_ensures(Players::<S>::tab_count, (&*final(p),), left),
        call_ensures(Players::<S>::active_index, (&*final(p),), is),
        call_ensures(Players::<S>::active_source, (&*final(p),), drawn_after),
        call_ensures(Players::<S>::tabs_for_ui, (&*final(p), &sizes), shown),
    ensures
        left == n,
        final(p)@ == old(p)@.restored(place.index as int, place.starred),
        is == if place.index < was {
            place.index
        } else {
            was
        },
        drawn_before is Some && drawn_after is Some && *drawn_after->0 == *drawn_before->0,
        shown@.len() == n && shown@[is as int].starred == place.starred,
        place.index < was ==> r.1@.len() == n + 1 && sounds_alone(r.1@, 0, n as int, is as int)
            && r.1@.last() == Action::<S>::Wake,
        place.index >= was ==> r.1@.len() == 0,
        r.0.stage is Done,
{
    p.wf_is_valid();
    crate::conduct::a_reopened_tab_takes_its_place(old(p)@, place.index as int, place.starred);
    crate::conduct::a_reopened_tab_sounds(old(p)@, place.index as int, place.starred);
    assert(shown@[is as int]@.starred == shown@[is as int].starred);
}

/// A fresh engine has no tab, is paused at the start and loops; there is
/// something to draw, nothing to reopen, and no switch to report.
pub proof fn a_fresh_engine_is_empty<S>(
    p: &mut Players<S>,
    q: &mut Players<S>,
    t: &mut Players<S>,
    n: usize,
    s: Snapshot,
    looping: bool,
    dirty: bool,
    switch: Option<u64>,
    task: Option<crate::opening::Opening<S>>,
)
    requires
        call_ensures(Players::<S>::new, (), *old(p)),
        *old(q) == *old(p),
        *old(t) == *old(p),
        call_ensures(Players::<S>::tab_count, (&*old(p),), n),
        call_ensures(Players::<S>::snapshot, (&*old(p),), s),
        call_ensures(Players::<S>::loop_enabled, (&*old(p),), looping),
        call_ensures(Players::<S>::take_dirty, (p,), dirty),
        call_ensures(Players::<S>::take_switch_pending, (q,), switch),
        call_ensures(Players::<S>::reopen_closed, (t,), task),
    ensures
        n == 0,
        s.paused,
        s.position == 0,
        s.duration == 0,
        s.path is None,
        looping,
        dirty,
        switch is None,
        task is None,
{
    crate::conduct::an_engine_starts_empty::<S>();
}

/// Both texts of a file size are the same, and below a kilobyte they count the
/// bytes.
pub proof fn a_size_reads_the_same_everywhere(bytes: u64, a: String, b: String, c: String, path: &str)
    requires
        call_ensures(crate::numbers::human_size, (bytes,), a),
        call_ensures(crate::numbers::human_bytes, (bytes,), b),
        call_ensures(crate::player::describe_filesize, (path, Some(bytes)), c),
    ensures
        a@ == crate::numbers::size_text(bytes as nat),
        b@ == a@,
        bytes < 1024 ==> a@ == decimal(bytes as nat) + " B"@,
        crate::text::is_uri(path@) ==> c@.len() == 0,
        !crate::text::is_uri(path@) ==> c@ == a@,
{
    if bytes < 1024 {
        crate::accuracy::a_size_shows_its_nearest_tenth(bytes as nat);
    }
}

/// A time is shown by the seconds that it holds in full, up to ten microseconds.
pub proof fn a_time_reads_as_its_seconds(ns: u64, text: String)
    requires
        call_ensures(crate::numbers::fmt_time, (ns,), text),
    ensures
        exists|t: nat|
            {
                &&& text@ == #[trigger] crate::numbers::clock_text(t)
                &&& t * 1_000_000_000 <= ns + 10_000
                &&& ns < (t + 1) * 1_000_000_000 + 10_000
                &&& ns < 0x20_0000_0000_0000 ==> t == ns / 1_000_000_000
            },
{
    crate::accuracy::any_time_shows_its_seconds(ns as nat);
    if ns < 0x20_0000_0000_0000 {
        crate::numbers::short_times_show_full_seconds(ns as nat);
    }
    let t = crate::numbers::whole_secs(ns as nat);
    assert(text@ == crate::numbers::clock_text(t));
}

/// A quotient is shown as a number of thousandths nearest to it, whichever
/// function writes it.
pub proof fn a_quotient_reads_as_its_thousandths(n: u32, d: u32, a: String, b: String)
    requires
        0 < n <= i32::MAX,
        0 < d <= i32::MAX,
        call_ensures(crate::numbers::trim, (n, d), a),
        call_ensures(crate::numbers::trim_fps, (n as i32, d as i32), b),
    ensures
        b@ == a@,
        exists|t: nat|
            a@ == #[trigger] crate::numbers::trimmed(t) && -d <= 2 * (t * d - 1000 * n) <= d,
{
    crate::accuracy::a_rate_shows_its_nearest_thousandths(n as nat, d as nat);
}

/// The number of a frame is the integer nearest to the time times the rate, up
/// to the rounding of doubles.
pub proof fn a_frame_number_is_near(ns: u64, n: u32, d: u32, index: u64)
    requires
        ns < 0x20_0000_0000_0000,
        n > 0,
        d > 0,
        call_ensures(crate::numbers::frame_number, (ns, n, d), index),
    ensures
        ({
            let second = d * 1_000_000_000;
            let slack = 0x8000_0000_0000 * second + ns * n;
            -slack <= 2 * (index * second - ns * n) * 0x8000_0000_0000 <= slack
        }),
{
    crate::accuracy::a_frame_number_of_a_short_time_is_exact(ns as nat, n as nat, d as nat);
}

/// The label of a path is what stands behind the last separator in front of the
/// query.
pub proof fn a_label_is_the_last_component(path: &str, label: String, folder: Seq<char>, name: Seq<char>)
    requires
        call_ensures(crate::text::basename, (path,), label),
        path@ == folder.push('/') + name,
        name.len() > 0,
        !path@.contains('?'),
        !name.contains('/'),
        !name.contains('\\'),
    ensures
        label@ == name,
{
    crate::text::before_stops_at_first(path@, '?');
    let plain = crate::text::before(path@, '?');
    assert(plain =~= path@) by {
        if plain.len() < path@.len() {
            assert(path@[plain.len() as int] == '?');
        }
    }
    crate::text::the_label_stands_behind_the_last_separator(path@);
    assert(path@.last() == name.last());
    assert(name.contains(name.last()));
    let start = path@.len() - label@.len();
    let cut = folder.len() + 1;
    assert(path@[folder.len() as int] == '/');
    if start < cut {
        assert(label@[folder.len() - start] == '/');
    }
    if start > cut {
        assert(path@[start - 1] == name[start - 1 - cut]);
        assert(name.contains(path@[start - 1]));
    }
    assert(label@ =~= name);
}

/// The codec name of a description, the declared bitrate and the channels are
/// what the facts are made of.
pub proof fn the_parts_of_the_facts(
    desc: &str,
    name: String,
    bitrate: u32,
    max_bitrate: u32,
    kbps: Option<String>,
    ch: u32,
    label: String,
)
    requires
        call_ensures(crate::media::short_codec, (desc,), name),
        call_ensures(crate::media::nominal_kbps, (bitrate, max_bitrate), kbps),
        call_ensures(crate::media::channel_label, (ch,), label),
    ensures
        name@ == crate::media::codec_name(desc@),
        !name@.contains('('),
        max_bitrate > 0 ==> kbps is Some && kbps->0@ == decimal((max_bitrate / 1000) as nat)
            + " kb/s"@,
        max_bitrate == 0 && bitrate > 0 ==> kbps is Some && kbps->0@ == decimal(
            (bitrate / 1000) as nat,
        ) + " kb/s"@,
        max_bitrate == 0 && bitrate == 0 ==> kbps is None,
        ch == 1 ==> label@ == "Mono"@,
        ch == 2 ==> label@ == "Stereo"@,
        ch == 6 ==> label@ == "5.1"@,
        ch == 8 ==> label@ == "7.1"@,
        ch != 1 && ch != 2 && ch != 6 && ch != 8 ==> label@ == decimal(ch as nat) + " ch"@,
{
    crate::media::codec_names_are_bare(desc@);
}

/// A URI plays as it is; the name of a file as what it converts to. A source
/// needs its player first.
pub proof fn a_source_plays_the_uri(
    path: &str,
    converted: Result<String, String>,
    made: Result<(), String>,
    uri: Result<String, String>,
    built: Result<String, String>,
)
    requires
        call_ensures(crate::opening::to_uri, (path, converted), uri),
        call_ensures(crate::opening::build_source, (path, made, converted), built),
    ensures
        crate::text::is_uri(path@) ==> uri is Ok && uri->Ok_0@ == path@,
        !crate::text::is_uri(path@) && converted is Ok ==> uri is Ok && uri->Ok_0@
            == converted->Ok_0@,
        !crate::text::is_uri(path@) && converted is Err ==> uri is Err && uri->Err_0@
            == "bad path "@ + path@ + ": "@ + converted->Err_0@,
        made is Err ==> built is Err && built->Err_0@ == "playbin3: "@ + made->Err_0@,
        made is Ok && uri is Ok ==> built is Ok && built->Ok_0@ == uri->Ok_0@,
        made is Ok && uri is Err ==> built is Err && built->Err_0@ == uri->Err_0@,
{
    crate::opening::a_path_plays_as_its_uri(path@, crate::opening::result_text(converted));
}

/// Of the seeks that wait the last one is done, unless an exit waits among
/// them.
pub proof fn the_last_seek_is_done(reqs: Vec<crate::seek::SeekReq>, r: crate::seek::SeekTurn)
    requires
        call_ensures(crate::seek::seek_turn, (&reqs,), r),
    ensures
        reqs@.contains(crate::seek::SeekReq::Exit) ==> r is Exit,
        reqs@.len() == 0 ==> r is Idle,
        reqs@.len() > 0 && !reqs@.contains(crate::seek::SeekReq::Exit) ==> {
            &&& r is Seek
            &&& reqs@.last() is Seek
            &&& r->Seek_pos == reqs@.last()->Seek_pos
            &&& r->Seek_flags == reqs@.last()->Seek_flags
        },
{
    if reqs@.len() > 0 {
        assert(reqs@.contains(reqs@.last()));
    }
}

/// New textures hold nothing: the first frame in either gives it its size. Each
/// slot has its own texture, and both are released.
pub proof fn new_textures_take_the_first_size(
    t: &mut crate::video_texture::VideoTexture,
    a: u32,
    b: u32,
    idx: usize,
    w: i32,
    h: i32,
    stride: i32,
    name: u32,
    calls: Vec<crate::video_texture::GlCall>,
    released: Vec<crate::video_texture::GlCall>,
)
    requires
        idx < 2,
        call_ensures(crate::video_texture::VideoTexture::new, (a, b), *old(t)),
        call_ensures(crate::video_texture::VideoTexture::id, (&*old(t), idx), name),
        call_ensures(crate::video_texture::VideoTexture::delete, (&*old(t),), released),
        call_ensures(crate::video_texture::VideoTexture::upload, (t, idx, w, h, stride), calls),
    ensures
        idx == 0 ==> name == a,
        idx == 1 ==> name == b,
        w > 0 && h > 0 ==> {
            &&& calls@.len() >= 5
            &&& calls@[0] == (crate::video_texture::GlCall::Bind { texture: Some(name) })
            &&& exists|i: int|
                0 <= i < calls@.len() && #[trigger] calls@[i]
                    == (crate::video_texture::GlCall::Image { width: w, height: h })
        },
        w <= 0 || h <= 0 ==> calls@.len() == 0,
        released@ == seq![
            crate::video_texture::GlCall::Delete { texture: a },
            crate::video_texture::GlCall::Delete { texture: b },
        ],
{
    t.there_are_two();
    if w > 0 && h > 0 {
        crate::video_texture::a_frame_is_loaded_once(name, (0, 0), w, h, stride);
        let load: int = if crate::video_texture::row_pixels(stride as int) != w {
            3
        } else {
            2
        };
        assert(calls@[load] == crate::video_texture::GlCall::Image { width: w, height: h });
    }
}

/// A present waits for a size and for the renderer, and then changes nothing; a
/// new presenter has nothing to fill.
pub proof fn a_present_waits_for_size_and_renderer(
    a: &mut crate::present::Presenter,
    b: &mut crate::present::Presenter,
    width: Option<i32>,
    height: Option<i32>,
    up: bool,
    r: crate::present::Presented,
    filled: Option<usize>,
)
    requires
        call_ensures(crate::present::Presenter::new, (), *old(a)),
        !(width is Some && height is Some && up),
        call_ensures(crate::present::Presenter::present, (a, width, height, up), r),
        *old(b) == *final(a),
        call_ensures(crate::present::Presenter::take_pending, (b,), filled),
    ensures
        width is Some && height is Some ==> r is Retry,
        width is None || height is None ==> r is Nothing,
        filled is None,
{
}

/// A tab that the window names is that tab, or the first where the number is
/// negative; two strips are the same exactly where they look the same.
pub proof fn the_window_names_tabs_by_number(
    i: i32,
    r: usize,
    a: Vec<TabUiData>,
    b: Vec<TabUiData>,
    same: bool,
)
    requires
        call_ensures(crate::ui::tab_index, (i,), r),
        call_ensures(crate::ui::same_tabs, (&a, &b), same),
    ensures
        i >= 0 ==> r == i,
        i < 0 ==> r == 0,
        same ==> a@.len() == b@.len(),
        same <==> {
            &&& a@.len() == b@.len()
            &&& forall|j: int|
                0 <= j < a@.len() ==> {
                    &&& (#[trigger] a@[j]).label@ == b@[j].label@
                    &&& a@[j].active == b@[j].active
                    &&& a@[j].starred == b@[j].starred
                    &&& a@[j].path@ == b@[j].path@
                    &&& a@[j].info@ == b@[j].info@
                    &&& a@[j].video_codec@ == b@[j].video_codec@
                    &&& a@[j].filesize@ == b@[j].filesize@
                }
        },
{
    crate::display::strips_are_the_same_tab_by_tab(a@, b@);
}

/// A new texture is made smooth and clamped, and left unbound.
pub proof fn a_new_texture_is_set_up(texture: u32, calls: Vec<crate::video_texture::GlCall>)
    requires
        call_ensures(crate::video_texture::setup_texture, (texture,), calls),
    ensures
        calls@ == crate::video_texture::setup_calls(texture),
        calls@.first() == (crate::video_texture::GlCall::Bind { texture: Some(texture) }),
        calls@.last() == (crate::video_texture::GlCall::Bind { texture: None }),
{
    crate::video_texture::setup_makes_smooth_and_clamped(texture);
}

/// The format that is recorded for a tab shows in the strip at that tab, and at
/// no other.
pub proof fn a_recorded_format_shows_at_its_tab<S>(
    p: &mut Players<S>,
    i: usize,
    caps: VideoCaps,
    sizes: Vec<Option<u64>>,
    before: Vec<TabUiData>,
    after: Vec<TabUiData>,
)
    requires
        old(p).wf(),
        call_ensures(Players::<S>::tabs_for_ui, (&*old(p), &sizes), before),
        call_ensures(Players::<S>::set_latest, (p, i, Some(caps)), ()),
        call_ensures(Players::<S>::tabs_for_ui, (&*final(p), &sizes), after),
    ensures
        final(p)@.closed == old(p)@.closed,
        final(p)@.active == old(p)@.active,
        final(p)@.paused == old(p)@.paused,
        final(p)@.looping == old(p)@.looping,
        final(p)@.duration == old(p)@.duration,
        final(p)@.position == old(p)@.position,
        final(p)@.switch_pending == old(p)@.switch_pending,
        final(p)@.dirty == old(p)@.dirty,
        final(p)@.tabs.len() == old(p)@.tabs.len(),
        forall|j: int|
            0 <= j < old(p)@.tabs.len() && j != i ==> #[trigger] final(p)@.tabs[j]
                == old(p)@.tabs[j],
        i < old(p)@.tabs.len() ==> final(p)@.tabs[i as int].handle == old(p)@.tabs[i as int].handle,
        i < old(p)@.tabs.len() ==> final(p)@.tabs[i as int].latest == Some(caps)
            && final(p)@.tabs[i as int].info == old(p)@.tabs[i as int].info,
        after@.len() == before@.len(),
        forall|j: int|
            0 <= j < before@.len() && j != i ==> (#[trigger] after@[j])@ == before@[j]@,
        i < before@.len() ==> {
            let tab = after@[i as int];
            &&& tab.info@ == crate::player::caps_text(caps)
            &&& tab.label@ == before@[i as int].label@
            &&& tab.path@ == before@[i as int].path@
            &&& tab.active == before@[i as int].active
            &&& tab.starred == before@[i as int].starred
            &&& tab.filesize@ == before@[i as int].filesize@
        },
{
    if i < before@.len() {
        let a = after@[i as int]@;
        let b = before@[i as int]@;
        assert(a.info == after@[i as int].info@);
        assert(a.label == after@[i as int].label@ && b.label == before@[i as int].label@);
    }
}

/// The facts that are recorded for a tab show in the strip at that tab, and at no
/// other.
pub proof fn recorded_facts_show_at_their_tab<S>(
    p: &mut Players<S>,
    i: usize,
    info: MediaInfo,
    sizes: Vec<Option<u64>>,
    before: Vec<TabUiData>,
    after: Vec<TabUiData>,
)
    requires
        old(p).wf(),
        call_ensures(Players::<S>::tabs_for_ui, (&*old(p), &sizes), before),
        call_ensures(Players::<S>::set_info, (p, i, Some(info)), ()),
        call_ensures(Players::<S>::tabs_for_ui, (&*final(p), &sizes), after),
    ensures
        final(p)@.closed == old(p)@.closed,
        final(p)@.active == old(p)@.active,
        final(p)@.paused == old(p)@.paused,
        final(p)@.looping == old(p)@.looping,
        final(p)@.duration == old(p)@.duration,
        final(p)@.position == old(p)@.position,
        final(p)@.switch_pending == old(p)@.switch_pending,
        final(p)@.dirty == old(p)@.dirty,
        final(p)@.tabs.len() == old(p)@.tabs.len(),
        forall|j: int|
            0 <= j < old(p)@.tabs.len() && j != i ==> #[trigger] final(p)@.tabs[j]
                == old(p)@.tabs[j],
        i < old(p)@.tabs.len() ==> final(p)@.tabs[i as int].handle == old(p)@.tabs[i as int].handle,
        i < old(p)@.tabs.len() ==> final(p)@.tabs[i as int].latest == old(p)@.tabs[i as int].latest
            && final(p)@.tabs[i as int].info == Some(info@),
        after@.len() == before@.len(),
        forall|j: int|
            0 <= j < before@.len() && j != i ==> (#[trigger] after@[j])@ == before@[j]@,
        i < before@.len() ==> {
            let tab = after@[i as int];
            &&& tab.video_codec@ == info.video_codec@
            &&& tab.label@ == before@[i as int].label@
            &&& tab.path@ == before@[i as int].path@
            &&& tab.active == before@[i as int].active
            &&& tab.starred == before@[i as int].starred
            &&& tab.filesize@ == before@[i as int].filesize@
        },
{
    if i < before@.len() {
        let a = after@[i as int]@;
        let b = before@[i as int]@;
        assert(a.video_codec == after@[i as int].video_codec@);
        assert(a.label == after@[i as int].label@ && b.label == before@[i as int].label@);
    }
}

/// The messages of the bus call for a redraw exactly where one of them is
/// neither an error nor of a kind that is not heeded. Where none is the end of
/// the stream, nothing is asked for and the clock stays.
pub proof fn messages_redraw_unless_unheeded<S>(
    p: &mut Players<S>,
    msgs: Vec<BusMessage>,
    r: (bool, Vec<Action<S>>),
    before: Snapshot,
    after: Snapshot,
)
    requires
        old(p).wf(),
        call_ensures(Players::<S>::snapshot, (&*old(p),), before),
        call_ensures(Players::<S>::pump_events, (p, &msgs), r),
        call_ensures(Players::<S>::snapshot, (&*final(p),), after),
    ensures
        r.0 <==> exists|i: int|
            0 <= i < msgs@.len() && !((#[trigger] msgs@[i]) is Error) && !(msgs@[i] is Other),
        final(p)@ == old(p)@.after_messages(msgs@),
        r.1@ == old(p)@.messages_actions(msgs@),
        !msgs@.contains(BusMessage::Eos) ==> {
            &&& r.1@.len() == 0
            &&& after.position == before.position
            &&& after.paused == before.paused
        },
{
    if !msgs@.contains(BusMessage::Eos) {
        quiet_messages_move_nothing(old(p)@, msgs@);
    }
}

/// Messages among which the end of the stream is not move nothing.
proof fn quiet_messages_move_nothing<S>(m: crate::model::Model<S>, msgs: Seq<BusMessage>)
    requires
        !msgs.contains(BusMessage::Eos),
    ensures
        m.messages_actions(msgs).len() == 0,
        m.after_messages(msgs).position == m.position,
        m.after_messages(msgs).paused == m.paused,
    decreases msgs.len(),
{
    if msgs.len() > 0 {
        let rest = msgs.drop_last();
        assert forall|i: int| 0 <= i < rest.len() implies #[trigger] rest[i] != BusMessage::Eos by {
            assert(rest[i] == msgs[i]);
        }
        quiet_messages_move_nothing(m, rest);
        assert(msgs.last() == msgs[msgs.len() - 1]);
    }
}

} // verus!
