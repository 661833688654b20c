//! The texts in the window around the video.

use crate::media::MediaInfo;
use crate::numbers::{fmt_time, frame_number, human_size, magnitude_of, trim_fps};
use crate::player::{Rate, Snapshot, TabText, TabUiData};
use crate::text::{is_uri_path, push_decimal};
use vstd::prelude::*;
use vstd::string::*;

verus! {

/// What the window shows of one snapshot.
#[derive(Debug, PartialEq, Eq)]
pub struct Status {
    pub playing: bool,
    pub time: String,
    pub frame: String,
    pub filename: String,
    pub info: String,
    pub size: String,
    pub media: MediaInfo,
}

/// Whether the frame rate of a snapshot is one: neither part of it is 0.
pub open spec fn has_proper_rate(s: Snapshot) -> bool {
    s.fps is Some ==> s.fps->0.numer != 0 && s.fps->0.denom != 0
}

/// A signed number in decimal.
pub open spec fn signed_decimal(x: int) -> Seq<char> {
    if x < 0 {
        "-"@ + crate::text::decimal((-x) as nat)
    } else {
        crate::text::decimal(x as nat)
    }
}

/// The position and the duration.
pub open spec fn time_text(position: nat, duration: nat) -> Seq<char> {
    crate::numbers::clock_text(crate::numbers::whole_secs(position)) + " / "@
        + crate::numbers::clock_text(crate::numbers::whole_secs(duration))
}

/// The number of the frame on screen, where the frame rate is positive.
pub open spec fn frame_text(position: nat, fps: Option<Rate>) -> Seq<char> {
    match fps {
        Some(r) => if (r.numer < 0) == (r.denom < 0) {
            "#"@ + crate::text::decimal(
                crate::numbers::frame_index(
                    position,
                    crate::numbers::magnitude(r.numer as int),
                    crate::numbers::magnitude(r.denom as int),
                ),
            )
        } else {
            "#-"@
        },
        None => "#-"@,
    }
}

/// The dimensions and the frame rate, as far as they are known.
pub open spec fn info_text(width: Option<i32>, height: Option<i32>, fps: Option<Rate>) -> Seq<
    char,
> {
    if width is Some && height is Some {
        let size = signed_decimal(width->0 as int) + "×"@ + signed_decimal(height->0 as int);
        match fps {
            Some(r) => size + " · "@ + crate::numbers::fps_text(r.numer as int, r.denom as int)
                + " fps"@,
            None => size,
        }
    } else {
        "—"@
    }
}

/// The size of the file at `path`, given what the file system says; nothing for
/// a URI, or where no file is open.
pub open spec fn file_size_text(path: Option<String>, size: Option<u64>) -> Seq<char> {
    if path is None || crate::text::is_uri(path->0@) || size is None {
        Seq::empty()
    } else {
        crate::numbers::size_text(size->0 as nat)
    }
}

/// Appends a signed number in decimal.
fn push_signed(out: &mut String, x: i32)
    ensures
        final(out)@ == old(out)@ + signed_decimal(x as int),
{
    if x < 0 {
        out.append("-");
    }
    push_decimal(out, magnitude_of(x));
    assert(out@ =~= old(out)@ + signed_decimal(x as int));
}

/// The position and the duration, in nanoseconds, as "0:05 / 1:30".
fn show_time(position: u64, duration: u64) -> (text: String)
    ensures
        text@ == time_text(position as nat, duration as nat),
{
    let mut out = fmt_time(position);
    out.append(" / ");
    out.append(fmt_time(duration).as_str());
    out
}

/// The number of the frame on screen.
fn show_frame(position: u64, fps: Option<Rate>) -> (text: String)
    requires
        fps is Some ==> fps->0.numer != 0 && fps->0.denom != 0,
    ensures
        text@ == frame_text(position as nat, fps),
{
    match fps {
        Some(r) => if (r.numer < 0) == (r.denom < 0) {
            let mut out = "#".to_owned();
            let index: u64 = frame_number(
                position,
                magnitude_of(r.numer) as u32,
                magnitude_of(r.denom) as u32,
            );
            push_decimal(&mut out, index);
            out
        } else {
            "#-".to_owned()
        },
        None => "#-".to_owned(),
    }
}

/// The dimensions and the frame rate.
fn show_info(width: Option<i32>, height: Option<i32>, fps: Option<Rate>) -> (text: String)
    ensures
        text@ == info_text(width, height, fps),
{
    match (width, height) {
        (Some(w), Some(h)) => {
            let mut out = String::new();
            push_signed(&mut out, w);
            out.append("×");
            push_signed(&mut out, h);
            if let Some(r) = fps {
                out.append(" · ");
                out.append(trim_fps(r.numer, r.denom).as_str());
                out.append(" fps");
            }
            assert(out@ =~= info_text(width, height, fps));
            out
        },
        _ => "—".to_owned(),
    }
}

/// The size of the file that is shown.
fn show_size(path: &Option<String>, size: Option<u64>) -> (text: String)
    ensures
        text@ == file_size_text(*path, size),
{
    match (path, size) {
        (Some(p), Some(bytes)) => if is_uri_path(p.as_str()) {
            String::new()
        } else {
            human_size(bytes)
        },
        _ => String::new(),
    }
}

/// What the window shows of a snapshot, given what the file system says of the
/// size of the active file.
pub fn status(s: &Snapshot, size: Option<u64>) -> (r: Status)
    requires
        has_proper_rate(*s),
    ensures
        r.playing == !s.paused,
        r.time@ == time_text(s.position as nat, s.duration as nat),
        r.frame@ == frame_text(s.position as nat, s.fps),
        r.filename@ == (match s.path {
            Some(p) => p@,
            None => "(no file)"@,
        }),
        r.info@ == info_text(s.width, s.height, s.fps),
        r.size@ == file_size_text(s.path, size),
        r.media@ == s.media@,
{
    let filename = match &s.path {
        Some(p) => p.clone(),
        None => "(no file)".to_owned(),
    };
    Status {
        playing: !s.paused,
        time: show_time(s.position, s.duration),
        frame: show_frame(s.position, s.fps),
        filename,
        info: show_info(s.width, s.height, s.fps),
        size: show_size(&s.path, size),
        media: s.media.clone(),
    }
}

/// Whether two tabs look the same in the strip.
fn same_tab(a: &TabUiData, b: &TabUiData) -> (r: bool)
    ensures
        r == (a@ == b@),
{
    a.label == b.label && a.active == b.active && a.starred == b.starred && a.path == b.path
        && a.info == b.info && a.video_codec == b.video_codec && a.filesize == b.filesize
}

/// The texts of a list of tabs.
pub open spec fn tab_texts(tabs: Seq<TabUiData>) -> Seq<TabText> {
    tabs.map_values(|t: TabUiData| t@)
}

/// Whether two lists of tabs look the same, so that the strip need not be
/// rebuilt.
pub fn same_tabs(a: &Vec<TabUiData>, b: &Vec<TabUiData>) -> (r: bool)
    ensures
        r == (tab_texts(a@) == tab_texts(b@)),
{
    if a.len() != b.len() {
        assert(tab_texts(a@).len() != tab_texts(b@).len());
        return false;
    }
    let mut i: usize = 0;
    while i < a.len()
        invariant
            i <= a.len(),
            a.len() == b.len(),
            forall|j: int| 0 <= j < i ==> (#[trigger] a@[j])@ == b@[j]@,
        decreases a.len() - i,
    {
        if !same_tab(&a[i], &b[i]) {
            assert(tab_texts(a@)[i as int] != tab_texts(b@)[i as int]);
            return false;
        }
        i = i + 1;
    }
    assert(tab_texts(a@) =~= tab_texts(b@));
    true
}

/// The tab that a callback of the window names: a negative index counts as 0.
pub fn tab_index(i: i32) -> (r: usize)
    ensures
        r == if i < 0 {
            0
        } else {
            i as int
        },
{
    if i < 0 {
        0
    } else {
        i as usize
    }
}

} // verus!
