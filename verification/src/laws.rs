//! What holds of the engine as a whole.

use crate::action::{Action, PipelineState, SeekFlags};
use crate::model::{BusMessage, Model, VideoCaps};
use vstd::prelude::*;

verus! {

/// Moving a tab keeps the active tab selected, whichever tab moves.
pub proof fn reorder_keeps_the_active_tab<S>(m: Model<S>, from: int, to: int)
    requires
        m.valid(),
        0 <= from,
        0 <= to,
    ensures
        m.reordered(from, to).valid(),
        m.tabs.len() > 0 ==> m.reordered(from, to).tabs[m.reordered(from, to).active]
            == m.tabs[m.active],
{
}

/// Moving a tab loses none and adds none: the tab at any index lands at one
/// index, and the number of tabs stays.
pub proof fn reorder_is_a_permutation<S>(m: Model<S>, from: int, to: int)
    requires
        0 <= from < m.tabs.len(),
        0 <= to < m.tabs.len(),
    ensures
        m.moved(from, to).tabs.to_multiset() == m.tabs.to_multiset(),
        forall|i: int|
            0 <= i < m.tabs.len() ==> m.moved(from, to).tabs[Model::<S>::landed(i, from, to)]
                == #[trigger] m.tabs[i],
{
    broadcast use vstd::seq_lib::group_to_multiset_ensures;

    let tab = m.tabs[from];
    let rest = m.tabs.remove(from);
    assert(rest.insert(from, tab) =~= m.tabs);
    vstd::seq_lib::to_multiset_insert(rest, from, tab);
    vstd::seq_lib::to_multiset_insert(rest, to, tab);
}

/// Moving a tab there and back restores the order and the selection.
pub proof fn reorder_undoes_itself<S>(m: Model<S>, from: int, to: int)
    requires
        m.valid(),
        0 <= from < m.tabs.len(),
        0 <= to < m.tabs.len(),
    ensures
        m.reordered(from, to).reordered(to, from).tabs == m.tabs,
        m.reordered(from, to).reordered(to, from).active == m.active,
{
    if from != to {
        let there = m.moved(from, to);
        let tab = m.tabs[from];
        assert(there.tabs[to] == tab);
        assert(there.tabs.remove(to) =~= m.tabs.remove(from));
        assert(m.tabs.remove(from).insert(from, tab) =~= m.tabs);
    }
}

/// Closing another tab keeps the active tab selected; closing the active tab
/// selects the one behind it, or the last one where there is none behind it.
pub proof fn close_keeps_or_advances_the_selection<S>(m: Model<S>, i: int)
    requires
        m.valid(),
        0 <= i < m.tabs.len(),
        m.tabs.len() > 1,
    ensures
        m.without(i).valid(),
        i != m.active ==> m.without(i).tabs[m.without(i).active] == m.tabs[m.active],
        i == m.active && i + 1 < m.tabs.len() ==> m.without(i).tabs[m.without(i).active]
            == m.tabs[i + 1],
        i == m.active && i + 1 == m.tabs.len() ==> m.without(i).tabs[m.without(i).active]
            == m.tabs[i - 1],
{
}

/// Closing the only tab rewinds and pauses.
pub proof fn closing_the_only_tab_rewinds<S>(m: Model<S>)
    requires
        m.valid(),
        m.tabs.len() == 1,
    ensures
        m.without(0).valid(),
        m.without(0).tabs.len() == 0,
        m.without(0).paused,
        m.without(0).position == 0,
        m.without(0).duration is None,
        m.close_actions(0) == seq![
            Action::Detach { source: m.tabs[0].handle },
            Action::SetState { state: PipelineState::Ready },
        ],
{
    assert(m.close_actions(0) =~= seq![
        Action::Detach { source: m.tabs[0].handle },
        Action::SetState { state: PipelineState::Ready },
    ]);
}

/// The tab that was closed last is the first to come back, and what was closed
/// before it is untouched.
pub proof fn last_closed_comes_back_first<S>(m: Model<S>, i: int)
    requires
        0 <= i < m.tabs.len(),
    ensures
        m.without(i).closed.last() == m.record(i),
        m.without(i).closed.drop_last() == m.closed,
{
    assert(m.without(i).closed.drop_last() =~= m.closed);
}

/// Reopening a tab that was just closed restores it: every tab is back at its
/// index with its path and its star, the reopened tab is the active one, and
/// the close history is as before.
pub proof fn reopening_undoes_closing<S>(
    m: Model<S>,
    i: int,
    handle: S,
    reported: Option<u64>,
    now: u64,
)
    requires
        m.valid(),
        0 <= i < m.tabs.len(),
    ensures
        ({
            let shut = m.without(i);
            let last = shut.closed.last();
            let popped = Model { closed: shut.closed.drop_last(), ..shut };
            let back = popped.opened(last.path, handle, reported, now).restored(
                last.index,
                last.starred,
            );
            &&& back.valid()
            &&& back.tabs.len() == m.tabs.len()
            &&& forall|j: int|
                0 <= j < m.tabs.len() ==> (#[trigger] back.tabs[j]).path == m.tabs[j].path
                    && back.tabs[j].starred == m.tabs[j].starred
            &&& forall|j: int|
                0 <= j < m.tabs.len() && j != i ==> #[trigger] back.tabs[j] == m.tabs[j]
            &&& back.active == i
            &&& back.closed == m.closed
        }),
{
    last_closed_comes_back_first(m, i);
}

/// Flipping a star twice restores it, and touches no other tab.
pub proof fn star_flips_back<S>(m: Model<S>, i: int)
    requires
        0 <= i < m.tabs.len(),
    ensures
        m.star_flipped(i).star_flipped(i).tabs == m.tabs,
        forall|j: int|
            0 <= j < m.tabs.len() && j != i ==> #[trigger] m.star_flipped(i).tabs[j] == m.tabs[j],
{
    assert(m.star_flipped(i).star_flipped(i).tabs =~= m.tabs);
}

/// Of the sources, exactly the active one is told to sound.
pub proof fn only_the_active_source_sounds<S>(m: Model<S>)
    requires
        m.valid(),
        m.tabs.len() <= usize::MAX,
    ensures
        m.mutes().len() == m.tabs.len(),
        forall|i: int|
            0 <= i < m.tabs.len() ==> #[trigger] m.mutes()[i] == (Action::<S>::Mute {
                index: i as usize,
                mute: i != m.active,
            }),
        m.tabs.len() > 0 ==> m.mutes()[m.active] == (Action::<S>::Mute {
            index: m.active as usize,
            mute: false,
        }),
{
}

/// A switch shows the same moment: it changes neither the tabs nor the
/// position, the duration or the play state.
pub proof fn switch_keeps_the_moment<S>(m: Model<S>, i: int, now: u64)
    requires
        m.valid(),
        0 <= i < m.tabs.len(),
    ensures
        m.switched(i, now).valid(),
        m.switched(i, now).tabs == m.tabs,
        m.switched(i, now).position == m.position,
        m.switched(i, now).duration == m.duration,
        m.switched(i, now).paused == m.paused,
        m.switched(i, now).dirty,
{
}

/// A new tab opens at the moment at which playback is, in the same play state,
/// behind all others, and becomes the active one.
pub proof fn open_joins_playback<S>(
    m: Model<S>,
    path: Seq<char>,
    handle: S,
    reported: Option<u64>,
    now: u64,
)
    requires
        m.valid(),
    ensures
        ({
            let after = m.opened(path, handle, reported, now);
            let actions = m.open_actions(path, handle, reported, now);
            &&& after.valid()
            &&& after.tabs.drop_last() == m.tabs
            &&& after.active == m.tabs.len()
            &&& after.position == m.join_at(reported)
            &&& m.tabs.len() > 0 ==> after.position == m.current(reported)
            &&& after.paused == m.paused
            &&& actions.contains(Action::SetState { state: crate::model::play_state(m.paused) })
            &&& m.join_at(reported) > 0 ==> actions.contains(
                Action::Seek { pos: m.join_at(reported), flags: SeekFlags::flushing() },
            )
        }),
{
    let after = m.opened(path, handle, reported, now);
    let actions = m.open_actions(path, handle, reported, now);
    assert(after.tabs.drop_last() =~= m.tabs);
    if m.join_at(reported) > 0 {
        assert(actions[2] == Action::<S>::SetState { state: crate::model::play_state(m.paused) });
        assert(actions[3] == Action::<S>::Seek {
            pos: m.join_at(reported),
            flags: SeekFlags::flushing(),
        });
    } else {
        assert(actions[1] == Action::<S>::SetState { state: crate::model::play_state(m.paused) });
    }
}

/// The very first tab opens at the start, whatever the pipeline reports and
/// wherever a seek has gone before: nothing is moved.
pub proof fn first_tab_opens_at_the_start<S>(
    m: Model<S>,
    path: Seq<char>,
    handle: S,
    reported: Option<u64>,
    now: u64,
)
    requires
        m.tabs.len() == 0,
    ensures
        m.opened(path, handle, reported, now).position == 0,
        m.opened(path, handle, reported, now).paused == m.paused,
        forall|i: int|
            0 <= i < m.open_actions(path, handle, reported, now).len() ==> {
                let action = #[trigger] m.open_actions(path, handle, reported, now)[i];
                !(action is Seek) && !(action is SeekSource)
            },
{
    let after = m.opened(path, handle, reported, now);
    let actions = m.open_actions(path, handle, reported, now);
    let first = seq![
        Action::<S>::Preroll { index: 0 },
        Action::<S>::SetState { state: crate::model::play_state(m.paused) },
        Action::<S>::Mute { index: 0, mute: false },
        Action::<S>::Wake,
    ];
    assert(after.mutes() =~= seq![Action::<S>::Mute { index: 0, mute: false }]);
    assert(actions =~= first);
}

/// Signed 64-bit arithmetic that stays in its range arrives at the exact time,
/// or at the start where that is negative.
pub proof fn times_stop_at_the_start(t: int)
    requires
        i64::MIN <= t <= i64::MAX,
    ensures
        crate::model::clamped(t) == if t < 0 {
            0
        } else {
            t
        },
{
}

/// Pausing and resuming gives back the play state, and moves nothing.
pub proof fn pause_flips_back<S>(m: Model<S>)
    ensures
        m.with_pause(!m.paused).with_pause(m.paused).paused == m.paused,
        m.with_pause(!m.paused).position == m.position,
        m.with_pause(!m.paused).tabs == m.tabs,
        m.with_pause(!m.paused).active == m.active,
{
}

/// A step to a keyframe ahead never leads past the start of the last frame, nor
/// one back to before the start, as long as the clock fits 63 bits.
pub proof fn keyframe_steps_stay_in_the_clip<S>(m: Model<S>, dir: int, reported: Option<u64>)
    requires
        m.frame_or_default() <= i64::MAX,
    ensures
        0 <= m.keyframe_target(dir, reported) <= i64::MAX,
        dir > 0 && m.duration is Some && m.duration->0 <= i64::MAX ==> m.keyframe_target(
            dir,
            reported,
        ) <= if m.duration->0 > m.frame_or_default() {
            m.duration->0 - m.frame_or_default()
        } else {
            0
        },
        dir <= 0 && m.current(reported) <= i64::MAX ==> m.keyframe_target(dir, reported)
            <= m.current(reported),
{
}

/// At an ordinary frame rate a frame lasts the reciprocal of the rate, in full
/// nanoseconds.
pub proof fn frame_lasts_the_reciprocal_of_the_rate(caps: VideoCaps)
    requires
        caps.fps_numer > 0,
        caps.fps_denom >= 0,
    ensures
        crate::model::frame_duration(caps) == Some(
            (1_000_000_000 * caps.fps_denom / caps.fps_numer as int) as u64,
        ),
        0 <= 1_000_000_000 * caps.fps_denom / caps.fps_numer as int <= i64::MAX,
{
    let span = 1_000_000_000 * caps.fps_denom;
    let rate = caps.fps_numer as int;
    assert(0 <= span / rate <= span) by (nonlinear_arith)
        requires
            rate >= 1,
            span >= 0,
    ;
}

/// The end of the stream rewinds to the start; playback goes on exactly where
/// looping is on.
pub proof fn end_of_stream_rewinds<S>(m: Model<S>)
    ensures
        m.after_message(BusMessage::Eos).position == 0,
        m.looping ==> m.after_message(BusMessage::Eos).paused == m.paused,
        !m.looping ==> m.after_message(BusMessage::Eos).paused,
        m.after_message(BusMessage::Eos).tabs == m.tabs,
        m.after_message(BusMessage::Eos).looping == m.looping,
        m.after_message(BusMessage::Eos).dirty,
{
}

/// It makes no difference whether messages come in one batch or in two.
pub proof fn batches_of_messages_compose<S>(
    m: Model<S>,
    first: Seq<BusMessage>,
    second: Seq<BusMessage>,
)
    ensures
        m.after_messages(first + second) == m.after_messages(first).after_messages(second),
        m.messages_actions(first + second) == m.messages_actions(first) + m.after_messages(
            first,
        ).messages_actions(second),
    decreases second.len(),
{
    let all = first + second;
    if second.len() == 0 {
        assert(all =~= first);
        assert(m.messages_actions(all) =~= m.messages_actions(first) + Seq::<Action<S>>::empty());
    } else {
        batches_of_messages_compose(m, first, second.drop_last());
        assert(all.drop_last() =~= first + second.drop_last());
        assert(all.last() == second.last());
        assert(m.messages_actions(all) =~= m.messages_actions(first) + m.after_messages(
            first,
        ).messages_actions(second));
    }
}

/// A position that is reported while no tab is open is not taken over, and a
/// known duration is kept.
pub proof fn tick_heeds_only_what_it_lacks<S>(
    m: Model<S>,
    position: Option<u64>,
    duration: Option<u64>,
)
    ensures
        m.tabs.len() == 0 || position is None ==> m.ticked(position, duration).position
            == m.position,
        m.duration is Some && m.duration->0 > 0 ==> m.ticked(position, duration).duration
            == m.duration,
        m.ticked(position, duration).tabs == m.tabs,
        m.ticked(position, duration).dirty == m.dirty,
{
}

/// Signed 64-bit arithmetic wraps around: what it arrives at depends on the
/// exact time only up to 2^64.
pub proof fn times_wrap_around(t: int, turns: int)
    ensures
        crate::model::clamped(t + turns * 0x1_0000_0000_0000_0000) == crate::model::clamped(t),
{
    vstd::arithmetic::div_mod::lemma_mod_multiples_vanish(turns, t, 0x1_0000_0000_0000_0000);
    assert(0x1_0000_0000_0000_0000 * turns + t == t + turns * 0x1_0000_0000_0000_0000)
        by (nonlinear_arith);
}

/// A frame rate with a negative part counts by its 64 bits, and a rate of 0
/// gives no length of a frame.
pub proof fn any_rate_gives_its_quotient(caps: VideoCaps)
    ensures
        caps.fps_numer == 0 ==> crate::model::frame_duration(caps) is None,
        caps.fps_numer != 0 ==> {
            let span = if caps.fps_denom < 0 {
                1_000_000_000 * caps.fps_denom + 0x1_0000_0000_0000_0000
            } else {
                1_000_000_000 * caps.fps_denom
            };
            let rate = if caps.fps_numer < 0 {
                caps.fps_numer + 0x1_0000_0000_0000_0000
            } else {
                caps.fps_numer as int
            };
            &&& crate::model::frame_duration(caps) is Some
            &&& crate::model::frame_duration(caps)->0 * rate <= span
            &&& span < (crate::model::frame_duration(caps)->0 + 1) * rate
        },
{
    if caps.fps_numer != 0 {
        let span = if caps.fps_denom < 0 {
            1_000_000_000 * caps.fps_denom + 0x1_0000_0000_0000_0000
        } else {
            1_000_000_000 * caps.fps_denom
        };
        let rate = if caps.fps_numer < 0 {
            caps.fps_numer + 0x1_0000_0000_0000_0000
        } else {
            caps.fps_numer as int
        };
        let frame = span / rate;
        assert(frame * rate <= span < (frame + 1) * rate && 0 <= frame <= span)
            by (nonlinear_arith)
            requires
                rate >= 1,
                span >= 0,
                frame == span / rate,
        ;
        assert(span == (1_000_000_000 * caps.fps_denom) % 0x1_0000_0000_0000_0000);
        assert(rate == (caps.fps_numer as int) % 0x1_0000_0000_0000_0000);
    }
}

} // verus!
