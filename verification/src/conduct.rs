//! What each operation of the engine does, field by field and action by action.
//!
//! [`crate::laws`] states what holds of the engine as a whole. Here stands what
//! a user of one operation relies on: which tab is shown and heard, where
//! playback goes, what the shell is told, and what stays as it was.

use crate::action::{Action, PipelineState, SeekFlags};
use crate::model::{BusMessage, Model, VideoCaps};
use vstd::prelude::*;

verus! {

/// Of a valid engine with tabs the active index names one of them; without
/// tabs it is 0.
pub proof fn the_active_index_names_a_tab<S>(m: Model<S>)
    requires
        m.valid(),
    ensures
        m.tabs.len() > 0 ==> 0 <= m.active < m.tabs.len(),
        m.tabs.len() == 0 ==> m.active == 0,
{
}

/// An engine starts without tabs and without a history, paused at the start,
/// looping, and with something to draw.
pub proof fn an_engine_starts_empty<S>()
    ensures
        ({
            let m = Model::<S>::initial();
            &&& m.valid()
            &&& m.tabs.len() == 0
            &&& m.closed.len() == 0
            &&& m.paused
            &&& m.looping
            &&& m.position == 0
            &&& m.duration is None
            &&& m.switch_pending is None
            &&& m.dirty
        }),
{
}

/// Each kind of seek flushes. One kind lands on the very frame; two kinds land
/// on a keyframe, on the near side or on the far side of the target.
pub proof fn seek_flags_say_what_they_do()
    ensures
        SeekFlags::flushing().flush && !SeekFlags::flushing().accurate
            && !SeekFlags::flushing().key_unit && !SeekFlags::flushing().snap_before
            && !SeekFlags::flushing().snap_after,
        SeekFlags::accurate().flush && SeekFlags::accurate().accurate
            && !SeekFlags::accurate().key_unit && !SeekFlags::accurate().snap_before
            && !SeekFlags::accurate().snap_after,
        SeekFlags::key_before().flush && !SeekFlags::key_before().accurate
            && SeekFlags::key_before().key_unit && SeekFlags::key_before().snap_before
            && !SeekFlags::key_before().snap_after,
        SeekFlags::key_after().flush && !SeekFlags::key_after().accurate
            && SeekFlags::key_after().key_unit && !SeekFlags::key_after().snap_before
            && SeekFlags::key_after().snap_after,
{
}

/// A switch to tab `i` lands on tab `i`: its source, and no other, is told to
/// sound, and the window is told to redraw. Nothing else changes, but that the
/// switch awaits its first frame.
pub proof fn a_switch_lands_on_the_named_tab<S>(m: Model<S>, i: int, now: u64)
    requires
        m.valid(),
        m.tabs.len() <= usize::MAX,
        0 <= i < m.tabs.len(),
    ensures
        ({
            let after = m.switched(i, now);
            let actions = after.switch_actions();
            &&& after.active == i
            &&& after.tabs == m.tabs
            &&& after.closed == m.closed
            &&& after.paused == m.paused
            &&& after.looping == m.looping
            &&& after.duration == m.duration
            &&& after.position == m.position
            &&& after.switch_pending == Some(now)
            &&& after.dirty
            &&& actions.len() == m.tabs.len() + 1
            &&& forall|j: int|
                0 <= j < m.tabs.len() ==> #[trigger] actions[j] == (Action::<S>::Mute {
                    index: j as usize,
                    mute: j != i,
                })
            &&& actions.last() == Action::<S>::Wake
        }),
{
}

/// Of two switches the later one counts.
pub proof fn the_later_switch_counts<S>(m: Model<S>, i: int, k: int, then: u64, now: u64)
    ensures
        m.switched(i, then).switched(k, now) == m.switched(k, now),
        m.switched(i, then).switched(k, now).active == k,
{
}

/// Where a tab is open, playback is where the pipeline reports it to be; where
/// it reports nothing, or no tab is open, it is where it was last known to be.
pub proof fn the_report_says_where_playback_is<S>(m: Model<S>, p: u64, reported: Option<u64>)
    ensures
        m.tabs.len() > 0 ==> m.current(Some(p)) == p,
        m.current(None) == m.position,
        m.tabs.len() == 0 ==> m.current(reported) == m.position,
{
}

/// A tick follows the clock: where a tab is open, the position becomes the one
/// that is reported, playing or paused. The duration becomes the one that is
/// reported as long as none is known or it is zero, and then stays. Nothing
/// else changes.
pub proof fn a_tick_follows_the_clock<S>(
    m: Model<S>,
    p: u64,
    position: Option<u64>,
    duration: Option<u64>,
)
    ensures
        m.tabs.len() > 0 ==> m.ticked(Some(p), duration).position == p,
        m.ticked(None, duration).position == m.position,
        m.tabs.len() == 0 ==> m.ticked(position, duration).position == m.position,
        m.duration is None ==> m.ticked(position, duration).duration == duration,
        m.duration is Some && m.duration->0 == 0 ==> m.ticked(position, duration).duration
            == duration,
        m.duration is Some && m.duration->0 > 0 ==> m.ticked(position, duration).duration
            == m.duration,
        m.ticked(position, duration).tabs == m.tabs,
        m.ticked(position, duration).closed == m.closed,
        m.ticked(position, duration).active == m.active,
        m.ticked(position, duration).paused == m.paused,
        m.ticked(position, duration).looping == m.looping,
        m.ticked(position, duration).switch_pending == m.switch_pending,
        m.ticked(position, duration).dirty == m.dirty,
{
}

/// Of two ticks that report a position the later one counts.
pub proof fn the_later_tick_counts<S>(
    m: Model<S>,
    p: u64,
    q: u64,
    first: Option<u64>,
    second: Option<u64>,
)
    ensures
        m.tabs.len() > 0 ==> m.ticked(Some(p), first).ticked(Some(q), second).position == q,
{
}

/// A seek leads to its target and leaves something to draw. Nothing else
/// changes.
pub proof fn a_seek_leads_to_its_target<S>(m: Model<S>, pos: u64)
    ensures
        m.sought(pos).position == pos,
        m.sought(pos).dirty,
        m.sought(pos).tabs == m.tabs,
        m.sought(pos).closed == m.closed,
        m.sought(pos).active == m.active,
        m.sought(pos).paused == m.paused,
        m.sought(pos).looping == m.looping,
        m.sought(pos).duration == m.duration,
        m.sought(pos).switch_pending == m.switch_pending,
{
}

/// A relative seek leads exactly `delta` away from where playback is, or to the
/// start where that lies before it.
pub proof fn a_relative_seek_goes_by_its_delta<S>(
    m: Model<S>,
    p: u64,
    delta: int,
    reported: Option<u64>,
)
    ensures
        m.tabs.len() > 0 ==> m.relative_target(delta, Some(p)) == crate::model::clamped(p + delta),
        m.tabs.len() > 0 && 0 <= p + delta <= i64::MAX ==> m.relative_target(delta, Some(p)) == p
            + delta,
        m.tabs.len() > 0 && i64::MIN <= p + delta < 0 ==> m.relative_target(delta, Some(p)) == 0,
        0 <= m.position + delta <= i64::MAX && (m.tabs.len() == 0 || reported is None)
            ==> m.relative_target(delta, reported) == m.position + delta,
        i64::MIN <= m.position + delta < 0 && (m.tabs.len() == 0 || reported is None)
            ==> m.relative_target(delta, reported) == 0,
{
}

/// Seeking ahead and then back by as much returns to where playback was.
pub proof fn seeking_there_and_back_returns<S>(m: Model<S>, p: u64, delta: int)
    requires
        m.tabs.len() > 0,
        p <= i64::MAX,
        0 <= p + delta <= i64::MAX,
    ensures
        ({
            let there = m.relative_target(delta, Some(p)) as u64;
            m.sought(there).relative_target(-delta, Some(there)) == p
        }),
{
}

/// How long the active frame is taken to last: at the rate n/d the full
/// nanoseconds in d/n of a second; a thirtieth of a second where no frame has
/// come yet, or its rate is 0.
pub proof fn a_frame_lasts_its_share_of_a_second<S>(m: Model<S>, caps: VideoCaps)
    requires
        m.valid(),
        m.tabs.len() > 0,
    ensures
        m.tabs[m.active].latest == Some(caps) && caps.fps_numer > 0 && caps.fps_denom >= 0 ==> {
            let frame = m.frame_or_default() as int;
            &&& m.active_frame() == Some(m.frame_or_default())
            &&& frame * caps.fps_numer <= 1_000_000_000 * caps.fps_denom
            &&& 1_000_000_000 * caps.fps_denom < (frame + 1) * caps.fps_numer
        },
        m.tabs[m.active].latest is None ==> m.active_frame() is None && m.frame_or_default()
            == 33_333_333,
        m.tabs[m.active].latest == Some(caps) && caps.fps_numer == 0 ==> m.active_frame() is None
            && m.frame_or_default() == 33_333_333,
{
    if m.tabs[m.active].latest == Some(caps) && caps.fps_numer > 0 && caps.fps_denom >= 0 {
        crate::laws::frame_lasts_the_reciprocal_of_the_rate(caps);
        let span = 1_000_000_000 * caps.fps_denom;
        let n = caps.fps_numer as int;
        let frame = span / n;
        assert(frame * n <= span < (frame + 1) * n) by (nonlinear_arith)
            requires
                n > 0,
                frame == span / n,
        ;
    }
}

/// A step back by a frame leads exactly one frame before where playback is, or
/// to the start where less than a frame lies before it.
pub proof fn a_step_back_goes_one_frame<S>(m: Model<S>, p: u64, caps: VideoCaps)
    requires
        m.valid(),
        m.tabs.len() > 0,
        p <= i64::MAX,
    ensures
        m.tabs[m.active].latest == Some(caps) && caps.fps_numer > 0 && caps.fps_denom >= 0 ==> {
            let frame = 1_000_000_000 * caps.fps_denom / (caps.fps_numer as int);
            m.step_target(Some(p)) == if p >= frame {
                p - frame
            } else {
                0
            }
        },
        m.tabs[m.active].latest is None ==> m.step_target(Some(p)) == if p >= 33_333_333 {
            p - 33_333_333
        } else {
            0
        },
        m.tabs[m.active].latest == Some(caps) && caps.fps_numer == 0 ==> m.step_target(Some(p))
            == if p >= 33_333_333 {
            p - 33_333_333
        } else {
            0
        },
        m.step_target(None) == m.step_target(Some(m.position)),
        forall|q: u64| #[trigger]
            m.step_target(Some(q)) == crate::model::clamped(q - m.frame_or_default()),
{
    if m.tabs[m.active].latest == Some(caps) && caps.fps_numer > 0 && caps.fps_denom >= 0 {
        crate::laws::frame_lasts_the_reciprocal_of_the_rate(caps);
    }
}

/// A step to a keyframe aims one frame away from where playback is: ahead, but
/// not past the start of the last frame where the duration is known; or back,
/// but not past the start.
pub proof fn a_keyframe_step_aims_one_frame_away<S>(m: Model<S>, p: u64, dir: int, caps: VideoCaps)
    requires
        m.valid(),
        m.tabs.len() > 0,
        m.duration is Some ==> m.duration->0 <= i64::MAX,
        m.tabs[m.active].latest == Some(caps),
        caps.fps_numer >= 0,
        caps.fps_denom >= 0,
    ensures
        ({
            let frame = if caps.fps_numer == 0 {
                33_333_333
            } else {
                1_000_000_000 * caps.fps_denom / (caps.fps_numer as int)
            };
            let target = m.keyframe_target(dir, Some(p));
            &&& p + frame <= i64::MAX && dir > 0 && m.duration is None ==> target == p + frame
            &&& p + frame <= i64::MAX && dir > 0 && m.duration is Some ==> {
                let last = if m.duration->0 >= frame {
                    m.duration->0 - frame
                } else {
                    0
                };
                target == if p + frame <= last {
                    p + frame
                } else {
                    last
                }
            }
            &&& p <= i64::MAX && dir < 0 ==> target == if p >= frame {
                p - frame
            } else {
                0
            }
            &&& m.keyframe_target(dir, None) == m.keyframe_target(dir, Some(m.position))
        }),
{
    if caps.fps_numer > 0 {
        crate::laws::frame_lasts_the_reciprocal_of_the_rate(caps);
    }
}

/// A step to a keyframe in full: one frame ahead, but not past the start of the
/// last frame where the duration is known, or one frame back, each as 64-bit
/// arithmetic arrives at it.
pub proof fn a_keyframe_step_in_full<S>(m: Model<S>, p: u64, dir: int)
    requires
        m.tabs.len() > 0,
    ensures
        ({
            let frame = m.frame_or_default();
            let ahead = crate::model::clamped(p + frame);
            let target = m.keyframe_target(dir, Some(p));
            &&& dir <= 0 ==> target == crate::model::clamped(p - frame)
            &&& dir > 0 ==> target <= ahead
            &&& dir > 0 && m.duration is None ==> target == ahead
            &&& dir > 0 && m.duration is Some ==> {
                let last = crate::model::clamped(m.duration->0 - frame);
                target <= last && (target == ahead || target == last)
            }
        }),
{
}

/// As long as no frame has come, a step to a keyframe aims a thirtieth of a
/// second away.
pub proof fn a_keyframe_step_without_a_frame<S>(m: Model<S>, p: u64, dir: int)
    requires
        m.valid(),
        m.tabs.len() > 0,
        m.duration is Some ==> m.duration->0 <= i64::MAX,
        m.tabs[m.active].latest is None,
    ensures
        ({
            let target = m.keyframe_target(dir, Some(p));
            &&& p + 33_333_333 <= i64::MAX && dir > 0 && m.duration is None ==> target == p
                + 33_333_333
            &&& p + 33_333_333 <= i64::MAX && dir > 0 && m.duration is Some ==> {
                let last = if m.duration->0 >= 33_333_333 {
                    m.duration->0 - 33_333_333
                } else {
                    0
                };
                target == if p + 33_333_333 <= last {
                    p + 33_333_333
                } else {
                    last
                }
            }
            &&& p <= i64::MAX && dir < 0 ==> target == if p >= 33_333_333 {
                p - 33_333_333
            } else {
                0
            }
        }),
{
}

/// Pausing pauses and resuming resumes: the play state is the one asked for, and
/// where a tab is open the pipeline is told so and there is something to draw.
/// Nothing else changes.
pub proof fn the_pipeline_takes_the_play_state<S>(m: Model<S>, paused: bool)
    ensures
        m.with_pause(paused).paused == paused,
        m.tabs.len() > 0 ==> m.with_pause(paused).dirty,
        m.tabs.len() == 0 ==> m.with_pause(paused).dirty == m.dirty,
        m.with_pause(paused).tabs == m.tabs,
        m.with_pause(paused).closed == m.closed,
        m.with_pause(paused).active == m.active,
        m.with_pause(paused).looping == m.looping,
        m.with_pause(paused).duration == m.duration,
        m.with_pause(paused).position == m.position,
        m.with_pause(paused).switch_pending == m.switch_pending,
        m.tabs.len() == 0 ==> m.pause_actions(paused).len() == 0,
        m.tabs.len() > 0 ==> m.pause_actions(paused).len() == 1,
        m.tabs.len() > 0 ==> m.pause_actions(true)[0] == (Action::<S>::SetState {
            state: PipelineState::Paused,
        }),
        m.tabs.len() > 0 ==> m.pause_actions(false)[0] == (Action::<S>::SetState {
            state: PipelineState::Playing,
        }),
{
}

/// Opening adds one tab behind the others, bare but for its path and its
/// source, and makes it the active one. It opens where playback is, or at the
/// start where it is the first.
pub proof fn an_open_adds_one_tab<S>(
    m: Model<S>,
    path: Seq<char>,
    handle: S,
    reported: Option<u64>,
    now: u64,
)
    ensures
        ({
            let after = m.opened(path, handle, reported, now);
            let n = m.tabs.len() as int;
            &&& after.tabs.len() == n + 1
            &&& forall|j: int| 0 <= j < n ==> #[trigger] after.tabs[j] == m.tabs[j]
            &&& after.tabs[n].path == path
            &&& after.tabs[n].handle == handle
            &&& after.tabs[n].latest is None
            &&& after.tabs[n].info is None
            &&& !after.tabs[n].starred
            &&& after.active == n
            &&& n == 0 ==> after.position == 0
            &&& n > 0 && reported is Some ==> after.position == reported->0
            &&& n > 0 && reported is None ==> after.position == m.position
            &&& after.closed == m.closed
            &&& after.paused == m.paused
            &&& after.looping == m.looping
            &&& after.duration == m.duration
            &&& after.switch_pending == Some(now)
            &&& after.dirty
        }),
{
}

/// What opening tells the shell, in this order: preroll the new source; move it
/// to where playback is; bring the pipeline to the play state; bring all
/// sources to one position; let the new source sound and no other; redraw. Where
/// playback is at the start nothing is moved.
pub proof fn an_open_prerolls_joins_and_sounds<S>(
    m: Model<S>,
    path: Seq<char>,
    handle: S,
    reported: Option<u64>,
    now: u64,
)
    requires
        m.tabs.len() < usize::MAX,
    ensures
        ({
            let actions = m.open_actions(path, handle, reported, now);
            let n = m.tabs.len() as int;
            let at: u64 = if n == 0 {
                0
            } else if reported is Some {
                reported->0
            } else {
                m.position
            };
            let skip: int = if at > 0 {
                4
            } else {
                2
            };
            let state = if m.paused {
                PipelineState::Paused
            } else {
                PipelineState::Playing
            };
            &&& actions.len() == skip + n + 2
            &&& actions[0] == (Action::<S>::Preroll { index: n as usize })
            &&& at > 0 ==> actions[1] == (Action::<S>::SeekSource {
                index: n as usize,
                pos: at,
                flags: SeekFlags::accurate(),
            })
            &&& actions[skip / 2] == (Action::<S>::SetState { state })
            &&& at > 0 ==> actions[3] == (Action::<S>::Seek {
                pos: at,
                flags: SeekFlags::flushing(),
            })
            &&& forall|j: int|
                skip <= j <= skip + n ==> #[trigger] actions[j] == (Action::<S>::Mute {
                    index: (j - skip) as usize,
                    mute: j - skip != n,
                })
            &&& actions.last() == Action::<S>::Wake
        }),
{
}

/// Closing tab `i` takes out that tab and no other, records its path, its index
/// and its star, and keeps the index of the active tab in step.
pub proof fn a_close_takes_out_one_tab<S>(m: Model<S>, i: int)
    requires
        m.valid(),
        0 <= i < m.tabs.len(),
    ensures
        ({
            let after = m.without(i);
            let n = m.tabs.len() as int;
            &&& after.tabs.len() == n - 1
            &&& forall|j: int| 0 <= j < i ==> #[trigger] after.tabs[j] == m.tabs[j]
            &&& forall|j: int| i <= j < n - 1 ==> #[trigger] after.tabs[j] == m.tabs[j + 1]
            &&& after.closed.len() == m.closed.len() + 1
            &&& forall|j: int|
                0 <= j < m.closed.len() ==> #[trigger] after.closed[j] == m.closed[j]
            &&& after.closed.last().path == m.tabs[i].path
            &&& after.closed.last().index == i
            &&& after.closed.last().starred == m.tabs[i].starred
            &&& i < m.active ==> after.active == m.active - 1
            &&& i == m.active && i + 1 == n && n > 1 ==> after.active == i - 1
            &&& i == m.active && i + 1 < n ==> after.active == i
            &&& i > m.active ==> after.active == m.active
            &&& n == 1 ==> after.active == 0
            &&& after.looping == m.looping
            &&& after.switch_pending == m.switch_pending
        }),
{
}

/// As long as a tab is left, closing one leaves playback as it is.
pub proof fn a_close_leaves_playback_going<S>(m: Model<S>, i: int)
    requires
        m.valid(),
        0 <= i < m.tabs.len(),
        m.tabs.len() > 1,
    ensures
        m.without(i).paused == m.paused,
        m.without(i).position == m.position,
        m.without(i).duration == m.duration,
        m.without(i).dirty,
{
}

/// What closing tab `i` tells the shell, as long as a tab is left: shut that
/// tab's source down; let the active source sound and no other; redraw.
pub proof fn a_close_shuts_its_source_down<S>(m: Model<S>, i: int)
    requires
        m.valid(),
        m.tabs.len() <= usize::MAX,
        0 <= i < m.tabs.len(),
        m.tabs.len() > 1,
    ensures
        ({
            let actions = m.close_actions(i);
            let n = m.tabs.len() as int;
            let sounds = if i < m.active || (i == m.active && i + 1 == n) {
                m.active - 1
            } else {
                m.active
            };
            &&& actions.len() == n + 1
            &&& actions[0] == (Action::<S>::Detach { source: m.tabs[i].handle })
            &&& forall|j: int|
                1 <= j < n ==> #[trigger] actions[j] == (Action::<S>::Mute {
                    index: (j - 1) as usize,
                    mute: j - 1 != sounds,
                })
            &&& actions.last() == Action::<S>::Wake
        }),
{
}

/// Flipping a star flips that star and nothing else.
pub proof fn a_star_flips_alone<S>(m: Model<S>, i: int)
    requires
        0 <= i < m.tabs.len(),
    ensures
        ({
            let after = m.star_flipped(i);
            &&& after.tabs.len() == m.tabs.len()
            &&& after.tabs[i].starred == !m.tabs[i].starred
            &&& after.tabs[i].path == m.tabs[i].path
            &&& after.tabs[i].handle == m.tabs[i].handle
            &&& after.tabs[i].latest == m.tabs[i].latest
            &&& after.tabs[i].info == m.tabs[i].info
            &&& forall|j: int|
                0 <= j < m.tabs.len() && j != i ==> #[trigger] after.tabs[j] == m.tabs[j]
            &&& after.closed == m.closed
            &&& after.active == m.active
            &&& after.paused == m.paused
            &&& after.looping == m.looping
            &&& after.duration == m.duration
            &&& after.position == m.position
            &&& after.switch_pending == m.switch_pending
            &&& after.dirty
        }),
{
}

/// A tab that is moved lands at its target, or at the end where the target is
/// beyond it; the tabs between close up, and the others stay. The index of the
/// active tab goes along. Nothing else changes.
pub proof fn a_move_lands_at_its_target<S>(m: Model<S>, from: int, to: int)
    requires
        m.valid(),
        0 <= from < m.tabs.len(),
        0 <= to,
    ensures
        ({
            let after = m.reordered(from, to);
            let n = m.tabs.len() as int;
            let dest = if to < n {
                to
            } else {
                n - 1
            };
            &&& after.tabs.len() == n
            &&& after.tabs[dest] == m.tabs[from]
            &&& forall|j: int| from <= j < dest ==> #[trigger] after.tabs[j] == m.tabs[j + 1]
            &&& forall|j: int| dest < j <= from ==> #[trigger] after.tabs[j] == m.tabs[j - 1]
            &&& forall|j: int|
                0 <= j < n && ((j < from && j < dest) || (j > from && j > dest))
                    ==> #[trigger] after.tabs[j] == m.tabs[j]
            &&& m.active == from ==> after.active == dest
            &&& from < m.active <= dest ==> after.active == m.active - 1
            &&& dest <= m.active < from ==> after.active == m.active + 1
            &&& (m.active < from && m.active < dest) || (m.active > from && m.active > dest)
                ==> after.active == m.active
            &&& after.closed == m.closed
            &&& after.paused == m.paused
            &&& after.looping == m.looping
            &&& after.duration == m.duration
            &&& after.position == m.position
            &&& after.switch_pending == m.switch_pending
            &&& from != dest ==> after.dirty
            &&& from == dest ==> after == m
        }),
{
}

/// A tab that does not exist cannot be moved.
pub proof fn a_missing_tab_does_not_move<S>(m: Model<S>, from: int, to: int)
    requires
        from >= m.tabs.len(),
    ensures
        m.reordered(from, to) == m,
        m.reorder_actions(from, to).len() == 0,
{
}

/// What moving a tab tells the shell: let the active source sound at its new
/// index and no other, and redraw; nothing where the tab is there already.
pub proof fn a_move_keeps_the_active_source_sounding<S>(m: Model<S>, from: int, to: int)
    requires
        m.valid(),
        m.tabs.len() <= usize::MAX,
        0 <= from < m.tabs.len(),
        0 <= to,
    ensures
        ({
            let actions = m.reorder_actions(from, to);
            let n = m.tabs.len() as int;
            let stays = from == to || (to >= n && from == n - 1);
            &&& stays ==> actions.len() == 0
            &&& !stays ==> {
                &&& actions.len() == n + 1
                &&& forall|j: int|
                    0 <= j < n ==> #[trigger] actions[j] == (Action::<S>::Mute {
                        index: j as usize,
                        mute: j != m.reordered(from, to).active,
                    })
                &&& actions.last() == Action::<S>::Wake
            }
        }),
{
}

/// A tab that is brought back takes the star of the closed tab, and its index
/// as far as there are so many tabs. The other tabs keep their order.
pub proof fn a_reopened_tab_takes_its_place<S>(m: Model<S>, index: int, starred: bool)
    requires
        m.valid(),
        m.tabs.len() > 0,
        0 <= index,
    ensures
        ({
            let after = m.restored(index, starred);
            let last = m.tabs.len() - 1;
            let dest = if index < last {
                index
            } else {
                last
            };
            &&& after.tabs.len() == m.tabs.len()
            &&& after.tabs[dest].path == m.tabs[last].path
            &&& after.tabs[dest].handle == m.tabs[last].handle
            &&& after.tabs[dest].latest == m.tabs[last].latest
            &&& after.tabs[dest].info == m.tabs[last].info
            &&& after.tabs[dest].starred == starred
            &&& forall|j: int| 0 <= j < dest ==> #[trigger] after.tabs[j] == m.tabs[j]
            &&& forall|j: int| dest < j <= last ==> #[trigger] after.tabs[j] == m.tabs[j - 1]
            &&& m.active == last ==> after.active == dest
            &&& after.closed == m.closed
            &&& after.position == m.position
            &&& after.duration == m.duration
            &&& after.paused == m.paused
            &&& after.looping == m.looping
            &&& after.switch_pending == m.switch_pending
        }),
{
}

/// What giving a reopened tab its place tells the shell: where it moves, let
/// its source sound and no other, and redraw.
pub proof fn a_reopened_tab_sounds<S>(m: Model<S>, index: int, starred: bool)
    requires
        m.valid(),
        0 < m.tabs.len() <= usize::MAX,
        m.active == m.tabs.len() - 1,
        0 <= index,
    ensures
        ({
            let actions = m.restore_actions(index, starred);
            let n = m.tabs.len() as int;
            &&& index >= n - 1 ==> actions.len() == 0
            &&& index < n - 1 ==> {
                &&& actions.len() == n + 1
                &&& forall|j: int|
                    0 <= j < n ==> #[trigger] actions[j] == (Action::<S>::Mute {
                        index: j as usize,
                        mute: j != index,
                    })
                &&& actions.last() == Action::<S>::Wake
            }
        }),
{
}

/// The end of the stream tells the shell to go to the start, and to pause there
/// where looping is off. Nothing but the position and the play state changes.
pub proof fn the_end_of_the_stream_goes_to_the_start<S>(m: Model<S>)
    ensures
        ({
            let after = m.after_message(BusMessage::Eos);
            let actions = m.message_actions(BusMessage::Eos);
            &&& after.position == 0
            &&& after.paused == (m.paused || !m.looping)
            &&& after.dirty
            &&& after.tabs == m.tabs
            &&& after.closed == m.closed
            &&& after.active == m.active
            &&& after.looping == m.looping
            &&& after.duration == m.duration
            &&& after.switch_pending == m.switch_pending
            &&& actions.len() >= 1
            &&& actions[0] == (Action::<S>::Seek { pos: 0, flags: SeekFlags::flushing() })
            &&& m.looping || m.tabs.len() == 0 ==> actions.len() == 1
            &&& !m.looping && m.tabs.len() > 0 ==> actions.len() == 2 && actions[1] == (Action::<
                S,
            >::SetState { state: PipelineState::Paused })
        }),
{
}

/// A change of duration takes over the new duration and nothing else; the other
/// messages change nothing. None of them asks for anything.
pub proof fn other_messages_change_at_most_the_duration<S>(m: Model<S>, duration: Option<u64>)
    ensures
        ({
            let after = m.after_message(BusMessage::DurationChanged { duration });
            &&& after.duration == duration
            &&& after.tabs == m.tabs
            &&& after.closed == m.closed
            &&& after.active == m.active
            &&& after.paused == m.paused
            &&& after.looping == m.looping
            &&& after.position == m.position
            &&& after.switch_pending == m.switch_pending
            &&& after.dirty == m.dirty
        }),
        m.message_actions(BusMessage::DurationChanged { duration }).len() == 0,
        m.after_message(BusMessage::StateChanged) == m,
        m.after_message(BusMessage::AsyncDone) == m,
        m.after_message(BusMessage::Error) == m,
        m.after_message(BusMessage::Other) == m,
        m.message_actions(BusMessage::StateChanged).len() == 0,
        m.message_actions(BusMessage::AsyncDone).len() == 0,
        m.message_actions(BusMessage::Error).len() == 0,
        m.message_actions(BusMessage::Other).len() == 0,
{
}

/// Which messages call for a redraw.
pub proof fn errors_and_the_rest_do_not_redraw(duration: Option<u64>)
    ensures
        crate::model::redraws(BusMessage::Eos),
        crate::model::redraws(BusMessage::DurationChanged { duration }),
        crate::model::redraws(BusMessage::StateChanged),
        crate::model::redraws(BusMessage::AsyncDone),
        !crate::model::redraws(BusMessage::Error),
        !crate::model::redraws(BusMessage::Other),
{
}

/// A batch of one message is that message, and an empty batch does nothing. So
/// with [`crate::laws::batches_of_messages_compose`] the messages are heeded
/// one by one, in their order.
pub proof fn messages_are_heeded_one_by_one<S>(m: Model<S>, msg: BusMessage)
    ensures
        m.after_messages(Seq::empty()) == m,
        m.messages_actions(Seq::empty()).len() == 0,
        m.after_messages(seq![msg]) == m.after_message(msg),
        m.messages_actions(seq![msg]) == m.message_actions(msg),
{
    let one = seq![msg];
    assert(one.drop_last() =~= Seq::<BusMessage>::empty());
    reveal_with_fuel(Model::after_messages, 2);
    reveal_with_fuel(Model::messages_actions, 2);
    assert(m.messages_actions(one) =~= m.message_actions(msg));
}

} // verus!
