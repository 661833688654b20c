use video_compare::action::{Action, PipelineState, SeekFlags};
use video_compare::media::MediaInfo;
use video_compare::model::{BusMessage, VideoCaps};
use video_compare::opening::{build_source, to_uri, OpenEvent, OpenStage, Opening, Place};
use video_compare::player::{MappedFrame, Players, Rate};

type Engine = Players<u32>;

/// Runs an open to its end, as a shell does whose every step succeeds.
fn run(p: &mut Engine, task: Opening<u32>, source: u32, position: Option<u64>) -> Vec<Action<u32>> {
    let (task, none) = p.advance(task, OpenEvent::Built { source }, 0);
    assert!(none.is_empty());
    assert_eq!(task.stage, OpenStage::Probe { source });
    let (task, none) = p.advance(task, OpenEvent::Probed, 0);
    assert!(none.is_empty());
    assert_eq!(task.stage, OpenStage::Attach { source });
    let (task, none) = p.advance(task, OpenEvent::Attached, 0);
    assert!(none.is_empty());
    assert_eq!(task.stage, OpenStage::Locate { source });
    let (task, actions) = p.advance(task, OpenEvent::Located { position }, 77);
    settle(p, task);
    actions
}

/// Ends an open whose tab has been added.
fn settle(p: &mut Engine, task: Opening<u32>) -> Vec<Action<u32>> {
    if task.restore.is_none() {
        assert_eq!(task.stage, OpenStage::Done);
        return vec![];
    }
    assert_eq!(task.stage, OpenStage::Settle);
    let (task, actions) = p.advance(task, OpenEvent::Settled, 78);
    assert_eq!(task.stage, OpenStage::Done);
    actions
}

fn open(p: &mut Engine, path: &str, source: u32) -> Vec<Action<u32>> {
    let task = p.open(path);
    run(p, task, source, None)
}

/// An engine with the tabs a, b, c, d, whose sources are 0, 1, 2, 3.
fn four() -> Engine {
    let mut p = Engine::new();
    for (i, path) in ["a", "b", "c", "d"].iter().enumerate() {
        open(&mut p, path, i as u32);
    }
    p
}

fn order(p: &Engine) -> Vec<u32> {
    (0..p.tab_count()).map(|i| *p.source(i).unwrap()).collect()
}

fn paths(p: &Engine) -> Vec<String> {
    (0..p.tab_count()).map(|i| p.path(i).unwrap().to_string()).collect()
}

fn stars(p: &Engine) -> Vec<bool> {
    p.tabs_for_ui(&vec![]).iter().map(|t| t.starred).collect()
}

fn mutes(n: usize, active: usize) -> Vec<Action<u32>> {
    let mut out: Vec<Action<u32>> =
        (0..n).map(|index| Action::Mute { index, mute: index != active }).collect();
    out.push(Action::Wake);
    out
}

fn caps(fps_numer: i32, fps_denom: i32) -> VideoCaps {
    VideoCaps { width: 1280, height: 720, fps_numer, fps_denom }
}

fn seek(pos: u64, flags: SeekFlags) -> Vec<Action<u32>> {
    vec![Action::Seek { pos, flags }]
}

#[test]
fn a_new_engine_is_empty_and_paused() {
    let mut p = Engine::new();
    assert_eq!(p.tab_count(), 0);
    assert_eq!(p.active_index(), 0);
    assert!(p.loop_enabled());
    assert!(p.take_dirty());
    assert_eq!(p.take_switch_pending(), None);
    let s = p.snapshot();
    assert!(s.paused);
    assert_eq!((s.position, s.duration), (0, 0));
    assert_eq!(s.path, None);
    assert_eq!((s.width, s.height, s.fps), (None, None, None));
    assert_eq!(s.media, MediaInfo::default());
    assert!(p.tabs_for_ui(&vec![]).is_empty());
    assert_eq!(p.path(0), None);
    assert_eq!(p.source(0), None);
}

#[test]
fn the_dirty_mark_is_taken_once() {
    let mut p = Engine::new();
    assert!(p.take_dirty());
    assert!(!p.take_dirty());
    p.mark_dirty();
    assert!(p.take_dirty());
    assert!(!p.take_dirty());
}

#[test]
fn the_first_tab_opens_at_the_start() {
    let mut p = Engine::new();
    let task = p.open("a");
    assert_eq!(task.path, "a");
    assert_eq!(task.restore, None);
    let actions = run(&mut p, task, 9, Some(500));
    let mut expected = vec![
        Action::Preroll { index: 0 },
        Action::SetState { state: PipelineState::Paused },
    ];
    expected.extend(mutes(1, 0));
    assert_eq!(actions, expected);
    assert_eq!(p.snapshot().position, 0);
    assert_eq!(p.take_switch_pending(), Some(77));
    assert_eq!(p.take_switch_pending(), None);
}

#[test]
fn a_later_tab_joins_at_the_position() {
    let mut p = Engine::new();
    open(&mut p, "a", 0);
    p.set_paused(false);
    let task = p.open("b");
    let actions = run(&mut p, task, 1, Some(500));
    let mut expected = vec![
        Action::Preroll { index: 1 },
        Action::SeekSource { index: 1, pos: 500, flags: SeekFlags::accurate() },
        Action::SetState { state: PipelineState::Playing },
        Action::Seek { pos: 500, flags: SeekFlags::flushing() },
    ];
    expected.extend(mutes(2, 1));
    assert_eq!(actions, expected);
    assert_eq!(p.snapshot().position, 500);
    assert_eq!(p.active_index(), 1);
    let task = p.open("c");
    let actions = run(&mut p, task, 2, None);
    assert!(actions.contains(&Action::Seek { pos: 500, flags: SeekFlags::flushing() }));
}

#[test]
fn a_failed_open_changes_nothing() {
    let mut p = four();
    p.take_dirty();
    let task = p.open("e");
    let (task, actions) = p.advance(task, OpenEvent::BuildFailed, 1);
    assert_eq!(task.stage, OpenStage::Done);
    assert!(actions.is_empty());
    let task = p.open("e");
    let (task, _) = p.advance(task, OpenEvent::Built { source: 4 }, 1);
    let (task, _) = p.advance(task, OpenEvent::Probed, 1);
    let (task, actions) = p.advance(task, OpenEvent::AttachFailed, 1);
    assert_eq!(task.stage, OpenStage::Done);
    assert!(actions.is_empty());
    assert_eq!(order(&p), vec![0, 1, 2, 3]);
    assert!(!p.take_dirty());
}

#[test]
fn an_event_out_of_turn_is_ignored() {
    let mut p = four();
    let task = p.open("e");
    let (task, actions) = p.advance(task, OpenEvent::Attached, 1);
    assert_eq!(task.stage, OpenStage::Build);
    assert!(actions.is_empty());
    let (task, actions) = p.advance(task, OpenEvent::Settled, 1);
    assert_eq!(task.stage, OpenStage::Build);
    assert!(actions.is_empty());
    let (task, _) = p.advance(task, OpenEvent::BuildFailed, 1);
    let (task, actions) = p.advance(task, OpenEvent::Located { position: Some(3) }, 1);
    assert_eq!(task.stage, OpenStage::Done);
    assert!(actions.is_empty());
    assert_eq!(p.tab_count(), 4);
}

#[test]
fn switching_keeps_the_moment() {
    let mut p = four();
    p.seek_absolute(42);
    p.take_dirty();
    let before = p.snapshot();
    assert_eq!(p.switch_to(1, 5), mutes(4, 1));
    let after = p.snapshot();
    assert_eq!((before.position, before.paused), (after.position, after.paused));
    assert_eq!(after.path, Some("b".to_string()));
    assert_eq!(p.active_index(), 1);
    assert_eq!(p.take_switch_pending(), Some(5));
    assert!(p.take_dirty());
    assert!(p.switch_to(4, 6).is_empty());
    assert_eq!(p.active_index(), 1);
    assert_eq!(p.take_switch_pending(), None);
    assert!(!p.take_dirty());
}

#[test]
fn closing_keeps_or_advances_the_selection() {
    let mut p = four();
    p.switch_to(2, 0);
    let mut expected = vec![Action::Detach { source: 0 }];
    expected.extend(mutes(3, 1));
    assert_eq!(p.close(0), expected);
    assert_eq!(p.active_index(), 1);
    assert_eq!(order(&p), vec![1, 2, 3]);
    p.close(2);
    assert_eq!(p.active_index(), 1);
    assert_eq!(order(&p), vec![1, 2]);
    p.close(1);
    assert_eq!(p.active_index(), 0);
    assert_eq!(order(&p), vec![1]);
    let mut q = four();
    q.switch_to(1, 0);
    q.close(1);
    assert_eq!(q.active_index(), 1);
    assert_eq!(order(&q), vec![0, 2, 3]);
    assert!(q.close(3).is_empty());
    assert_eq!(q.tab_count(), 3);
}

#[test]
fn closing_the_only_tab_rewinds() {
    let mut p = Engine::new();
    open(&mut p, "a", 6);
    p.set_paused(false);
    p.tick(Some(90), Some(100));
    p.take_dirty();
    assert_eq!(
        p.close(0),
        vec![
            Action::Detach { source: 6 },
            Action::SetState { state: PipelineState::Ready },
        ]
    );
    let s = p.snapshot();
    assert!(s.paused);
    assert_eq!((s.position, s.duration), (0, 0));
    assert_eq!(p.active_index(), 0);
    assert!(!p.take_dirty());
}

#[test]
fn stars_flip_and_flip_back() {
    let mut p = four();
    assert_eq!(p.toggle_star(2), vec![Action::Wake]);
    assert_eq!(stars(&p), vec![false, false, true, false]);
    p.toggle_star(2);
    assert_eq!(stars(&p), vec![false; 4]);
    p.take_dirty();
    assert!(p.toggle_star(4).is_empty());
    assert!(!p.take_dirty());
}

#[test]
fn moving_a_tab_keeps_the_active_tab() {
    for active in 0..4 {
        for from in 0..4 {
            for to in 0..6 {
                let mut p = four();
                p.toggle_star(active);
                p.switch_to(active, 0);
                let actions = p.reorder(from, to);
                assert_eq!(*p.source(p.active_index()).unwrap(), active as u32);
                assert_eq!(p.path(p.active_index()), Some(["a", "b", "c", "d"][active]));
                assert!(stars(&p)[p.active_index()]);
                let mut sorted = order(&p);
                sorted.sort();
                assert_eq!(sorted, vec![0, 1, 2, 3]);
                let dest = to.min(3);
                assert_eq!(*p.source(dest).unwrap(), from as u32);
                if from == dest {
                    assert!(actions.is_empty());
                } else {
                    assert_eq!(actions, mutes(4, p.active_index()));
                }
                p.reorder(dest, from);
                assert_eq!(order(&p), vec![0, 1, 2, 3]);
                assert_eq!(p.active_index(), active);
            }
        }
    }
    let mut p = four();
    assert!(p.reorder(4, 0).is_empty());
    assert_eq!(order(&p), vec![0, 1, 2, 3]);
}

#[test]
fn moving_shifts_the_tabs_between() {
    let mut p = four();
    p.reorder(0, 2);
    assert_eq!(paths(&p), vec!["b", "c", "a", "d"]);
    p.reorder(3, 0);
    assert_eq!(paths(&p), vec!["d", "b", "c", "a"]);
}

#[test]
fn reopening_undoes_closing_at_every_place() {
    for closed in 0..4 {
        let mut p = four();
        p.toggle_star(closed);
        p.close(closed);
        let task = p.reopen_closed().unwrap();
        assert_eq!(task.path, ["a", "b", "c", "d"][closed]);
        assert_eq!(task.restore, Some(Place { index: closed, starred: true }));
        run(&mut p, task, 8, None);
        assert_eq!(paths(&p), vec!["a", "b", "c", "d"]);
        assert_eq!(p.active_index(), closed);
        assert_eq!(*p.source(closed).unwrap(), 8);
        let starred: Vec<bool> = (0..4).map(|i| i == closed).collect();
        assert_eq!(stars(&p), starred);
        assert!(p.reopen_closed().is_none());
    }
}

#[test]
fn a_reopened_tab_is_prerolled_before_it_moves() {
    let mut p = four();
    p.seek_absolute(40);
    p.close(0);
    let task = p.reopen_closed().unwrap();
    let (task, _) = p.advance(task, OpenEvent::Built { source: 8 }, 0);
    let (task, _) = p.advance(task, OpenEvent::Probed, 0);
    let (task, _) = p.advance(task, OpenEvent::Attached, 0);
    let (task, actions) = p.advance(task, OpenEvent::Located { position: Some(50) }, 0);
    assert_eq!(actions[0], Action::Preroll { index: 3 });
    assert_eq!(
        actions[1],
        Action::SeekSource { index: 3, pos: 50, flags: SeekFlags::accurate() }
    );
    assert_eq!(order(&p), vec![1, 2, 3, 8]);
    assert_eq!(settle(&mut p, task), mutes(4, 0));
    assert_eq!(order(&p), vec![8, 1, 2, 3]);
}

#[test]
fn the_last_closed_tab_comes_back_first() {
    let mut p = four();
    p.close(1);
    p.close(2);
    let task = p.reopen_closed().unwrap();
    assert_eq!(task.path, "d");
    run(&mut p, task, 7, None);
    assert_eq!(paths(&p), vec!["a", "c", "d"]);
    let task = p.reopen_closed().unwrap();
    assert_eq!(task.path, "b");
    run(&mut p, task, 8, None);
    assert_eq!(paths(&p), vec!["a", "b", "c", "d"]);
    assert!(p.reopen_closed().is_none());
}

#[test]
fn a_failed_reopen_leaves_the_open_tabs_alone() {
    for fails_at_build in [true, false] {
        let mut p = four();
        p.toggle_star(1);
        p.close(1);
        p.take_dirty();
        let before = p.snapshot();
        let task = p.reopen_closed().unwrap();
        let (task, actions) = if fails_at_build {
            p.advance(task, OpenEvent::BuildFailed, 0)
        } else {
            let (task, _) = p.advance(task, OpenEvent::Built { source: 8 }, 0);
            let (task, _) = p.advance(task, OpenEvent::Probed, 0);
            p.advance(task, OpenEvent::AttachFailed, 0)
        };
        assert_eq!(task.stage, OpenStage::Done);
        assert!(actions.is_empty());
        let (task, actions) = p.advance(task, OpenEvent::Settled, 0);
        assert_eq!(task.stage, OpenStage::Done);
        assert!(actions.is_empty());
        assert_eq!(paths(&p), vec!["a", "c", "d"]);
        assert_eq!(stars(&p), vec![false; 3]);
        assert_eq!(p.active_index(), 2);
        assert_eq!(p.snapshot(), before);
        assert!(!p.take_dirty());
        assert!(p.reopen_closed().is_none());
    }
}

#[test]
fn the_first_tab_ignores_an_earlier_seek() {
    let mut p = Engine::new();
    p.seek_relative(5_000_000_000, None);
    assert_eq!(p.snapshot().position, 5_000_000_000);
    let task = p.open("file:///a.mp4");
    let actions = run(&mut p, task, 9, Some(500));
    let mut expected = vec![
        Action::Preroll { index: 0 },
        Action::SetState { state: PipelineState::Paused },
    ];
    expected.extend(mutes(1, 0));
    assert_eq!(actions, expected);
    assert_eq!(p.snapshot().position, 0);
}

#[test]
fn the_active_source_follows_the_active_tab() {
    let mut p = four();
    assert_eq!(p.active_source(), Some(&3));
    p.switch_to(1, 0);
    assert_eq!(p.active_source(), Some(&1));
    p.reorder(1, 3);
    assert_eq!(p.active_source(), Some(&1));
    p.close(3);
    assert_eq!(p.active_source(), Some(&3));
    assert_eq!(Engine::new().active_source(), None);
}

#[test]
fn taking_the_uri_twice_changes_nothing() {
    let no = || Err("not absolute".to_string());
    for (path, converted) in [("/a", Ok("file:///a".to_string())), ("http://h/a", no())] {
        let once = to_uri(path, converted).unwrap();
        assert_eq!(to_uri(&once, no()), Ok(once.clone()));
    }
}

#[test]
fn pausing_reaches_the_pipeline_where_a_tab_is_open() {
    let mut p = Engine::new();
    p.take_dirty();
    assert!(p.set_paused(false).is_empty());
    assert!(!p.snapshot().paused);
    assert!(!p.take_dirty());
    open(&mut p, "a", 0);
    p.take_dirty();
    assert_eq!(
        p.toggle_pause(),
        vec![Action::SetState { state: PipelineState::Paused }]
    );
    assert!(p.snapshot().paused);
    assert!(p.take_dirty());
    assert_eq!(
        p.toggle_pause(),
        vec![Action::SetState { state: PipelineState::Playing }]
    );
    assert!(!p.snapshot().paused);
}

#[test]
fn looping_flips() {
    let mut p = Engine::new();
    p.take_dirty();
    assert!(!p.toggle_loop());
    assert!(!p.loop_enabled());
    assert!(p.take_dirty());
    assert!(p.toggle_loop());
    assert!(p.loop_enabled());
}

#[test]
fn seeks_do_not_pass_the_start() {
    let mut p = four();
    assert_eq!(p.seek_absolute(1000), seek(1000, SeekFlags::flushing()));
    assert_eq!(p.seek_relative(500, None), seek(1500, SeekFlags::flushing()));
    assert_eq!(p.seek_relative(-200, Some(900)), seek(700, SeekFlags::flushing()));
    assert_eq!(p.seek_relative(-800, None), seek(0, SeekFlags::flushing()));
    assert_eq!(p.snapshot().position, 0);
    assert_eq!(p.seek_relative(i64::MAX, Some(1)), seek(0, SeekFlags::flushing()));
    assert_eq!(p.seek_relative(i64::MIN, Some(u64::MAX)), seek(i64::MAX as u64, SeekFlags::flushing()));
    let mut q = Engine::new();
    q.seek_absolute(10);
    assert_eq!(q.seek_relative(5, Some(100)), seek(15, SeekFlags::flushing()));
}

#[test]
fn keyframe_steps_stay_in_the_clip() {
    let mut p = four();
    p.set_latest(3, Some(caps(25, 1)));
    p.tick(Some(100_000_000), Some(200_000_000));
    assert_eq!(p.active_frame_duration_ns(), Some(40_000_000));
    assert_eq!(p.seek_keyframe(1, None), seek(140_000_000, SeekFlags::key_after()));
    assert_eq!(p.seek_keyframe(1, Some(150_000_000)), seek(160_000_000, SeekFlags::key_after()));
    assert_eq!(p.seek_keyframe(-1, None), seek(120_000_000, SeekFlags::key_before()));
    assert_eq!(p.seek_keyframe(-7, Some(3)), seek(0, SeekFlags::key_before()));
    p.take_dirty();
    assert!(p.seek_keyframe(0, None).is_empty());
    assert!(!p.take_dirty());
    assert!(Engine::new().seek_keyframe(1, None).is_empty());
    let mut q = four();
    assert_eq!(q.seek_keyframe(1, Some(1)), seek(33_333_334, SeekFlags::key_after()));
    q.tick(None, Some(10));
    assert_eq!(q.seek_keyframe(1, Some(1)), seek(0, SeekFlags::key_after()));
}

#[test]
fn frame_steps_go_either_way() {
    let mut p = four();
    p.set_latest(3, Some(caps(50, 1)));
    p.take_dirty();
    assert_eq!(p.frame_step(1, None), vec![Action::Step]);
    assert_eq!(p.frame_step(0, None), vec![Action::Step]);
    assert!(p.take_dirty());
    assert_eq!(p.frame_step(-1, Some(30_000_000)), seek(10_000_000, SeekFlags::accurate()));
    assert_eq!(p.frame_step(-1, None), seek(0, SeekFlags::accurate()));
    assert!(Engine::new().frame_step(1, None).is_empty());
    assert!(Engine::new().frame_step(-1, None).is_empty());
}

#[test]
fn frame_durations_follow_the_active_tab() {
    let mut p = four();
    assert_eq!(p.active_frame_duration_ns(), None);
    p.set_latest(3, Some(caps(30000, 1001)));
    assert_eq!(p.active_frame_duration_ns(), Some(33_366_666));
    p.set_latest(3, Some(caps(0, 1)));
    assert_eq!(p.active_frame_duration_ns(), None);
    p.set_latest(1, Some(caps(60, 1)));
    p.switch_to(1, 0);
    assert_eq!(p.active_frame_duration_ns(), Some(16_666_666));
    p.set_latest(1, Some(caps(-60, 1)));
    assert_eq!(p.active_frame_duration_ns(), Some(0));
    p.set_latest(1, Some(caps(1, i32::MAX)));
    assert_eq!(p.active_frame_duration_ns(), Some(2_147_483_647_000_000_000));
    p.set_latest(9, None);
    assert_eq!(Engine::new().active_frame_duration_ns(), None);
}

#[test]
fn ticks_take_over_what_is_lacking() {
    let mut p = Engine::new();
    p.tick(Some(5), None);
    assert_eq!(p.snapshot().position, 0);
    open(&mut p, "a", 0);
    p.tick(Some(5), Some(0));
    assert_eq!((p.snapshot().position, p.snapshot().duration), (5, 0));
    p.tick(None, Some(50));
    assert_eq!((p.snapshot().position, p.snapshot().duration), (5, 50));
    p.tick(Some(6), Some(70));
    assert_eq!((p.snapshot().position, p.snapshot().duration), (6, 50));
}

#[test]
fn the_end_of_the_stream_rewinds() {
    let mut p = four();
    p.set_paused(false);
    p.tick(Some(99), Some(100));
    let (redraw, actions) = p.pump_events(&vec![BusMessage::Eos]);
    assert!(redraw);
    assert_eq!(actions, seek(0, SeekFlags::flushing()));
    assert_eq!(p.snapshot().position, 0);
    assert!(!p.snapshot().paused);
    p.toggle_loop();
    let (redraw, actions) = p.pump_events(&vec![BusMessage::Eos]);
    assert!(redraw);
    assert_eq!(
        actions,
        vec![
            Action::Seek { pos: 0, flags: SeekFlags::flushing() },
            Action::SetState { state: PipelineState::Paused },
        ]
    );
    assert!(p.snapshot().paused);
}

#[test]
fn messages_redraw_or_not() {
    let mut p = four();
    assert_eq!(p.pump_events(&vec![]), (false, vec![]));
    assert_eq!(
        p.pump_events(&vec![BusMessage::Error, BusMessage::Other]),
        (false, vec![])
    );
    assert_eq!(p.pump_events(&vec![BusMessage::StateChanged]), (true, vec![]));
    assert_eq!(
        p.pump_events(&vec![BusMessage::Error, BusMessage::AsyncDone]),
        (true, vec![])
    );
    assert_eq!(
        p.pump_events(&vec![BusMessage::DurationChanged { duration: Some(12) }]),
        (true, vec![])
    );
    assert_eq!(p.snapshot().duration, 12);
}

#[test]
fn batches_of_messages_compose() {
    let batch = vec![
        BusMessage::DurationChanged { duration: Some(3) },
        BusMessage::Eos,
        BusMessage::DurationChanged { duration: None },
        BusMessage::Eos,
    ];
    let mut one = four();
    one.toggle_loop();
    let mut two = four();
    two.toggle_loop();
    let (_, all) = one.pump_events(&batch);
    let (_, mut first) = two.pump_events(&batch[..2].to_vec());
    let (_, second) = two.pump_events(&batch[2..].to_vec());
    first.extend(second);
    assert_eq!(all, first);
    assert_eq!(all.len(), 4);
    assert_eq!(one.snapshot(), two.snapshot());
}

#[test]
fn snapshots_show_the_active_tab() {
    let mut p = four();
    let facts = MediaInfo { video_codec: "VP9".to_string(), ..MediaInfo::default() };
    p.set_latest(2, Some(caps(24000, 1001)));
    p.set_info(2, Some(facts.clone()));
    p.switch_to(2, 0);
    let s = p.snapshot();
    assert_eq!(s.path, Some("c".to_string()));
    assert_eq!((s.width, s.height), (Some(1280), Some(720)));
    assert_eq!(s.fps, Some(Rate { numer: 24000, denom: 1001 }));
    assert_eq!(s.media, facts);
    p.set_latest(2, Some(caps(0, 1)));
    assert_eq!(p.snapshot().fps, None);
    p.set_info(2, None);
    assert_eq!(p.snapshot().media, MediaInfo::default());
    p.reorder(2, 0);
    assert_eq!(p.snapshot().path, Some("c".to_string()));
}

#[test]
fn the_strip_shows_every_tab() {
    let mut p = Engine::new();
    open(&mut p, "/clips/one.mp4", 0);
    open(&mut p, "http://host/two.mkv?x", 1);
    open(&mut p, "/clips/three.mov", 2);
    p.set_latest(0, Some(caps(30000, 1001)));
    p.set_latest(1, Some(caps(0, 1)));
    p.set_info(
        1,
        Some(MediaInfo { video_codec: "H.264".to_string(), ..MediaInfo::default() }),
    );
    p.toggle_star(2);
    p.switch_to(1, 0);
    let tabs = p.tabs_for_ui(&vec![Some(2048), Some(4096)]);
    assert_eq!(tabs.len(), 3);
    assert_eq!(tabs[0].label, "one.mp4");
    assert_eq!(tabs[0].path, "/clips/one.mp4");
    assert_eq!(tabs[0].info, "1280×720 · 29.97 fps");
    assert_eq!(tabs[0].filesize, "2.0 KB");
    assert_eq!(tabs[0].video_codec, "");
    assert_eq!(tabs[1].label, "two.mkv");
    assert_eq!(tabs[1].info, "1280×720");
    assert_eq!(tabs[1].video_codec, "H.264");
    assert_eq!(tabs[1].filesize, "");
    assert_eq!(tabs[2].info, "");
    assert_eq!(tabs[2].filesize, "");
    assert!(tabs[2].starred);
    let active: Vec<bool> = tabs.iter().map(|t| t.active).collect();
    assert_eq!(active, vec![false, true, false]);
}

#[test]
fn the_frame_to_upload_is_that_of_an_open_tab() {
    let data = [1u8, 2, 3, 4];
    let mapped = MappedFrame { width: 1, height: 1, stride: 4, data: &data };
    assert!(Engine::new().map_active_frame(Some(mapped)).is_none());
    let p = four();
    assert!(p.map_active_frame(None).is_none());
    let f = p.map_active_frame(Some(mapped)).unwrap();
    assert_eq!((f.width, f.height, f.stride), (1, 1, 4));
    assert_eq!(f.data, &data);
}

#[test]
fn uris_stand_for_themselves() {
    let no = Err("not absolute".to_string());
    assert_eq!(to_uri("http://h/a", no.clone()), Ok("http://h/a".to_string()));
    assert_eq!(
        to_uri("/a", Ok("file:///a".to_string())),
        Ok("file:///a".to_string())
    );
    assert_eq!(to_uri("a", no), Err("bad path a: not absolute".to_string()));
}

#[test]
fn a_source_needs_a_player_and_a_uri() {
    let uri = Ok("file:///a".to_string());
    assert_eq!(build_source("/a", Ok(()), uri.clone()), uri);
    assert_eq!(
        build_source("/a", Err("no element".to_string()), uri),
        Err("playbin3: no element".to_string())
    );
    assert_eq!(
        build_source("a", Ok(()), Err("relative".to_string())),
        Err("bad path a: relative".to_string())
    );
    assert_eq!(
        build_source("x://a", Ok(()), Err("relative".to_string())),
        Ok("x://a".to_string())
    );
}
