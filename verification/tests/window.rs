use video_compare::action::SeekFlags;
use video_compare::media::MediaInfo;
use video_compare::player::{describe_filesize, Rate, Snapshot, TabUiData};
use video_compare::present::{Presented, Presenter};
use video_compare::seek::{seek_turn, SeekReq, SeekTurn};
use video_compare::ui::{same_tabs, status, tab_index};
use video_compare::video_texture::{setup_texture, GlCall, TexParam, TexValue, VideoTexture};

fn snapshot() -> Snapshot {
    Snapshot {
        position: 5_000_000_000,
        duration: 90_000_000_000,
        paused: false,
        path: Some("/clips/one.mp4".to_string()),
        width: Some(1920),
        height: Some(1080),
        fps: Some(Rate { numer: 24000, denom: 1001 }),
        media: MediaInfo { audio: "a".to_string(), ..MediaInfo::default() },
    }
}

fn tab(label: &str) -> TabUiData {
    TabUiData {
        label: label.to_string(),
        active: true,
        starred: false,
        path: "p".to_string(),
        info: "i".to_string(),
        video_codec: "v".to_string(),
        filesize: "f".to_string(),
    }
}

#[test]
fn the_status_of_a_playing_file() {
    let s = status(&snapshot(), Some(1536));
    assert!(s.playing);
    assert_eq!(s.time, "0:05 / 1:30");
    assert_eq!(s.frame, "#120");
    assert_eq!(s.filename, "/clips/one.mp4");
    assert_eq!(s.info, "1920×1080 · 23.976 fps");
    assert_eq!(s.size, "1.5 KB");
    assert_eq!(s.media.audio, "a");
}

#[test]
fn the_status_without_a_file() {
    let s = status(
        &Snapshot {
            position: 0,
            duration: 0,
            paused: true,
            path: None,
            width: None,
            height: None,
            fps: None,
            media: MediaInfo::default(),
        },
        None,
    );
    assert!(!s.playing);
    assert_eq!(s.time, "0:00 / 0:00");
    assert_eq!(s.frame, "#-");
    assert_eq!(s.filename, "(no file)");
    assert_eq!(s.info, "—");
    assert_eq!(s.size, "");
}

#[test]
fn the_status_of_odd_streams() {
    let mut snap = snapshot();
    snap.fps = None;
    assert_eq!(status(&snap, None).info, "1920×1080");
    assert_eq!(status(&snap, None).frame, "#-");
    assert_eq!(status(&snap, None).size, "");
    snap.fps = Some(Rate { numer: -25, denom: 1 });
    assert_eq!(status(&snap, None).frame, "#-");
    assert_eq!(status(&snap, None).info, "1920×1080 · -25 fps");
    snap.width = Some(-3);
    assert_eq!(status(&snap, None).info, "-3×1080 · -25 fps");
    snap.height = None;
    assert_eq!(status(&snap, None).info, "—");
    snap.path = Some("http://h/a".to_string());
    assert_eq!(status(&snap, Some(10)).size, "");
}

#[test]
fn file_sizes_are_for_files() {
    assert_eq!(describe_filesize("/a", Some(10)), "10 B");
    assert_eq!(describe_filesize("/a", None), "");
    assert_eq!(describe_filesize("http://a", Some(10)), "");
}

#[test]
fn the_strip_is_rebuilt_when_a_tab_changes() {
    assert!(same_tabs(&vec![], &vec![]));
    assert!(same_tabs(&vec![tab("a"), tab("b")], &vec![tab("a"), tab("b")]));
    assert!(!same_tabs(&vec![tab("a")], &vec![tab("a"), tab("b")]));
    assert!(!same_tabs(&vec![tab("a")], &vec![tab("b")]));
    for change in 0..7 {
        let mut t = tab("a");
        match change {
            0 => t.label.push('x'),
            1 => t.active = false,
            2 => t.starred = true,
            3 => t.path.push('x'),
            4 => t.info.push('x'),
            5 => t.video_codec.push('x'),
            _ => t.filesize.push('x'),
        }
        assert!(!same_tabs(&vec![tab("a")], &vec![t]));
    }
}

#[test]
fn negative_tabs_count_as_the_first() {
    assert_eq!(tab_index(-1), 0);
    assert_eq!(tab_index(i32::MIN), 0);
    assert_eq!(tab_index(0), 0);
    assert_eq!(tab_index(3), 3);
}

fn show(slot: usize) -> Presented {
    Presented::Show { slot, width: 4, height: 3 }
}

#[test]
fn presents_alternate_between_two_slots() {
    let mut p = Presenter::new();
    assert_eq!(p.take_pending(), None);
    assert_eq!(p.present(Some(4), Some(3), true), show(1));
    assert_eq!(p.take_pending(), Some(1));
    assert_eq!(p.take_pending(), None);
    assert_eq!(p.present(Some(4), Some(3), true), show(0));
    assert_eq!(p.present(Some(4), Some(3), true), show(1));
    assert_eq!(p.take_pending(), Some(1));
}

#[test]
fn each_present_shows_another_texture() {
    let t = VideoTexture::new(7, 9);
    let mut p = Presenter::new();
    let mut last = t.id(0);
    for _ in 0..5 {
        p.present(Some(4), Some(3), true);
        let slot = p.take_pending().unwrap();
        assert_ne!(t.id(slot), last);
        last = t.id(slot);
    }
}

#[test]
fn an_empty_snapshot() {
    let s = Snapshot::default();
    assert_eq!((s.position, s.duration, s.paused), (0, 0, false));
    assert_eq!(s.path, None);
    assert_eq!((s.width, s.height, s.fps), (None, None, None));
    assert_eq!(s.media, MediaInfo::default());
}

#[test]
fn presents_wait_for_a_size_and_a_renderer() {
    let mut p = Presenter::new();
    assert_eq!(p.present(None, Some(3), true), Presented::Nothing);
    assert_eq!(p.present(None, Some(3), false), Presented::Nothing);
    assert_eq!(p.present(Some(4), None, true), Presented::Nothing);
    assert_eq!(p.present(Some(4), Some(3), false), Presented::Retry);
    assert_eq!(p.take_pending(), None);
    assert_eq!(p.present(Some(4), Some(3), true), show(1));
}

#[test]
fn textures_are_smooth_and_clamped() {
    assert_eq!(
        setup_texture(7),
        vec![
            GlCall::Bind { texture: Some(7) },
            GlCall::Parameter { param: TexParam::MinFilter, value: TexValue::Linear },
            GlCall::Parameter { param: TexParam::MagFilter, value: TexValue::Linear },
            GlCall::Parameter { param: TexParam::WrapS, value: TexValue::ClampToEdge },
            GlCall::Parameter { param: TexParam::WrapT, value: TexValue::ClampToEdge },
            GlCall::Bind { texture: None },
        ]
    );
}

#[test]
fn uploads_resize_once_and_restore_the_state() {
    let mut t = VideoTexture::new(7, 9);
    assert_eq!((t.id(0), t.id(1)), (7, 9));
    assert_eq!(
        t.upload(1, 10, 5, 48),
        vec![
            GlCall::Bind { texture: Some(9) },
            GlCall::UnpackAlignment { bytes: 1 },
            GlCall::UnpackRowLength { pixels: 12 },
            GlCall::Image { width: 10, height: 5 },
            GlCall::UnpackRowLength { pixels: 0 },
            GlCall::UnpackAlignment { bytes: 4 },
            GlCall::Bind { texture: None },
        ]
    );
    assert_eq!(
        t.upload(1, 10, 5, 40),
        vec![
            GlCall::Bind { texture: Some(9) },
            GlCall::UnpackAlignment { bytes: 1 },
            GlCall::SubImage { width: 10, height: 5 },
            GlCall::UnpackAlignment { bytes: 4 },
            GlCall::Bind { texture: None },
        ]
    );
    assert!(t.upload(0, 10, 5, 40).contains(&GlCall::Image { width: 10, height: 5 }));
    assert!(t.upload(1, 5, 10, 20).contains(&GlCall::Image { width: 5, height: 10 }));
    assert!(t.upload(1, 2, 1, -9).contains(&GlCall::UnpackRowLength { pixels: -2 }));
}

#[test]
fn frames_without_pixels_are_ignored() {
    let mut t = VideoTexture::new(1, 2);
    assert!(t.upload(0, 0, 5, 40).is_empty());
    assert!(t.upload(0, 5, 0, 40).is_empty());
    assert!(t.upload(0, -5, 5, 40).is_empty());
    assert!(t.upload(0, 5, 5, 20).contains(&GlCall::Image { width: 5, height: 5 }));
}

#[test]
fn deleting_releases_both_textures() {
    assert_eq!(
        VideoTexture::new(3, 4).delete(),
        vec![GlCall::Delete { texture: 3 }, GlCall::Delete { texture: 4 }]
    );
}

#[test]
fn only_the_last_seek_is_done() {
    let at = |pos| SeekReq::Seek { pos, flags: SeekFlags::flushing() };
    assert_eq!(
        seek_turn(&vec![at(1), at(2), at(3)]),
        SeekTurn::Seek { pos: 3, flags: SeekFlags::flushing() }
    );
    assert_eq!(
        seek_turn(&vec![at(1), SeekReq::Seek { pos: 2, flags: SeekFlags::accurate() }]),
        SeekTurn::Seek { pos: 2, flags: SeekFlags::accurate() }
    );
    assert_eq!(seek_turn(&vec![]), SeekTurn::Idle);
}

#[test]
fn an_exit_ends_the_seek_thread() {
    let at = |pos| SeekReq::Seek { pos, flags: SeekFlags::flushing() };
    assert_eq!(seek_turn(&vec![SeekReq::Exit]), SeekTurn::Exit);
    assert_eq!(seek_turn(&vec![at(1), SeekReq::Exit, at(2)]), SeekTurn::Exit);
    assert_eq!(seek_turn(&vec![at(1), SeekReq::Exit]), SeekTurn::Exit);
}

#[test]
fn seek_flags_name_what_they_do() {
    let flags = |flush, accurate, key_unit, snap_before, snap_after| SeekFlags {
        flush,
        accurate,
        key_unit,
        snap_before,
        snap_after,
    };
    assert_eq!(SeekFlags::flushing(), flags(true, false, false, false, false));
    assert_eq!(SeekFlags::accurate(), flags(true, true, false, false, false));
    assert_eq!(SeekFlags::key_before(), flags(true, false, true, true, false));
    assert_eq!(SeekFlags::key_after(), flags(true, false, true, false, true));
}
