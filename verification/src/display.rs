//! What the texts in the window say.
//!
//! Each law takes the values that a text is about, and says what stands in it,
//! and where. How near the numbers in the texts are stands in
//! [`crate::accuracy`]; what numerals are, in [`crate::text`].

use crate::media::{facts_of, MediaInfo, Probe};
use crate::model::{Model, VideoCaps};
use crate::numbers::{clock_text, fps_text, trimmed};
use crate::player::{Rate, Snapshot, TabUiData};
use crate::text::{begins_with, decimal, is_uri, padded};
use crate::ui::{file_size_text, frame_text, info_text, signed_decimal, tab_texts, time_text};
use vstd::prelude::*;

verus! {

/// A clock shows hours, minutes and seconds that add up to its time; the hours
/// only where there are any, and two digits behind each colon.
pub proof fn a_clock_adds_up(h: nat, m: nat, s: nat)
    requires
        m < 60,
        s < 60,
    ensures
        h > 0 ==> clock_text(3600 * h + 60 * m + s) == decimal(h) + ":"@ + padded(m) + ":"@
            + padded(s),
        h == 0 ==> clock_text(60 * m + s) == decimal(m) + ":"@ + padded(s),
{
}

/// The time row shows where playback is and how long it lasts, each by the
/// seconds that it holds in full.
pub proof fn the_time_row_shows_position_and_duration(position: nat, duration: nat)
    ensures
        position < 0x20_0000_0000_0000 && duration < 0x20_0000_0000_0000 ==> time_text(
            position,
            duration,
        ) == clock_text(position / 1_000_000_000) + " / "@ + clock_text(duration / 1_000_000_000),
        position <= u64::MAX && duration <= u64::MAX ==> exists|a: nat, b: nat|
            {
                &&& time_text(position, duration) == #[trigger] clock_text(a) + " / "@
                    + #[trigger] clock_text(b)
                &&& a * 1_000_000_000 <= position + 10_000
                &&& position < (a + 1) * 1_000_000_000 + 10_000
                &&& b * 1_000_000_000 <= duration + 10_000
                &&& duration < (b + 1) * 1_000_000_000 + 10_000
            },
{
    if position < 0x20_0000_0000_0000 && duration < 0x20_0000_0000_0000 {
        crate::numbers::short_times_show_full_seconds(position);
        crate::numbers::short_times_show_full_seconds(duration);
    }
    if position <= u64::MAX && duration <= u64::MAX {
        crate::accuracy::any_time_shows_its_seconds(position);
        crate::accuracy::any_time_shows_its_seconds(duration);
        let a = crate::numbers::whole_secs(position);
        let b = crate::numbers::whole_secs(duration);
        assert(time_text(position, duration) == clock_text(a) + " / "@ + clock_text(b));
    }
}

/// A frame number behind its mark.
pub open spec fn numbered(index: nat) -> Seq<char> {
    "#"@ + decimal(index)
}

/// At a positive rate the frame text is the number of the frame nearest to the
/// position, up to the rounding of doubles.
pub proof fn the_frame_text_numbers_the_nearest_frame(position: nat, r: Rate)
    requires
        position < 0x20_0000_0000_0000,
        r.numer > 0,
        r.denom > 0,
    ensures
        exists|index: nat|
            {
                let second = r.denom * 1_000_000_000;
                let exact = position * r.numer;
                let slack = 0x8000_0000_0000 * second + exact;
                &&& frame_text(position, Some(r)) == #[trigger] numbered(index)
                &&& -slack <= 2 * (index * second - exact) * 0x8000_0000_0000 <= slack
            },
{
    let n = r.numer as nat;
    let d = r.denom as nat;
    crate::accuracy::a_frame_number_of_a_short_time_is_exact(position, n, d);
    let index = crate::numbers::frame_index(position, n, d);
    assert(frame_text(position, Some(r)) == numbered(index));
}

/// At a later position the frame text is another one, from two frames on.
pub proof fn the_frame_text_moves_with_the_position(p: nat, q: nat, r: Rate)
    requires
        p < q < 0x20_0000_0000_0000,
        r.numer > 0,
        r.denom > 0,
        r.numer <= 1_000_000 * r.denom,
        (q - p) * r.numer >= 2 * r.denom * 1_000_000_000,
    ensures
        frame_text(p, Some(r)) != frame_text(q, Some(r)),
{
    let n = r.numer as nat;
    let d = r.denom as nat;
    crate::accuracy::frame_numbers_go_up(p, q, n, d);
    let i = crate::numbers::frame_index(p, n, d);
    let j = crate::numbers::frame_index(q, n, d);
    crate::text::numerals_tell_numbers_apart(i, j);
    reveal_strlit("#");
    if numbered(i) == numbered(j) {
        assert(numbered(i).skip(1) =~= decimal(i));
        assert(numbered(j).skip(1) =~= decimal(j));
    }
}

/// At any position that a 64-bit clock can show, the frame number is not too
/// great, and is not too small unless it is the greatest there is.
pub proof fn any_frame_text_is_near(position: nat, r: Rate)
    requires
        position <= u64::MAX,
        r.numer > 0,
        r.denom > 0,
    ensures
        exists|index: nat|
            {
                let second = r.denom * 1_000_000_000;
                let exact = position * r.numer;
                let slack = 0x8000_0000_0000 * second + exact;
                &&& frame_text(position, Some(r)) == #[trigger] numbered(index)
                &&& 2 * (index * second - exact) * 0x8000_0000_0000 <= slack
                &&& index < i64::MAX ==> -slack <= 2 * (index * second - exact) * 0x8000_0000_0000
            },
{
    let n = r.numer as nat;
    let d = r.denom as nat;
    crate::accuracy::a_frame_number_is_the_nearest(position, n, d);
    let index = crate::numbers::frame_index(position, n, d);
    assert(frame_text(position, Some(r)) == numbered(index));
}

/// A rate with two minus signs is a positive one; without a rate, or at a
/// negative one, no frame is numbered.
pub proof fn only_a_positive_rate_numbers_frames(position: nat, r: Rate)
    ensures
        frame_text(position, None) == "#-"@,
        r.numer < 0 && r.denom > 0 ==> frame_text(position, Some(r)) == "#-"@,
        r.numer > 0 && r.denom < 0 ==> frame_text(position, Some(r)) == "#-"@,
        r.numer < 0 && r.denom < 0 && r.numer > i32::MIN && r.denom > i32::MIN ==> frame_text(
            position,
            Some(r),
        ) == frame_text(position, Some(Rate { numer: (-r.numer) as i32, denom: (-r.denom) as i32 })),
{
}

/// A positive rate is shown as a number of thousandths nearest to it; turning
/// one sign puts a minus in front, turning both changes nothing. A rate over 0
/// has its own names.
pub proof fn a_rate_shows_its_sign_and_size(n: int, d: int)
    requires
        0 < n <= u32::MAX,
        0 < d <= u32::MAX,
    ensures
        exists|t: nat|
            fps_text(n, d) == #[trigger] trimmed(t) && -d <= 2 * (t * d - 1000 * n) <= d,
        fps_text(-n, d) == "-"@ + fps_text(n, d),
        fps_text(n, -d) == "-"@ + fps_text(n, d),
        fps_text(-n, -d) == fps_text(n, d),
        fps_text(n, 0) == "inf"@,
        fps_text(-n, 0) == "-inf"@,
        fps_text(0, 0) == "NaN"@,
        fps_text(0, d) == "0"@,
        fps_text(0, -d) == "-0"@,
{
    crate::accuracy::a_rate_shows_its_nearest_thousandths(n as nat, d as nat);
    crate::numbers::trailing_zeros_are_dropped(0);
    reveal_strlit("0");
    reveal_strlit("-0");
    reveal_strlit("-");
    crate::text::numerals_read_back(0);
    assert(decimal(0) + Seq::<char>::empty() =~= "0"@);
    assert(fps_text(0, -d) =~= "-0"@);
}

/// A signed number is its numeral, behind a minus where it is negative.
pub proof fn a_negative_number_has_a_minus(x: nat)
    ensures
        signed_decimal(x as int) == decimal(x),
        x > 0 ==> signed_decimal(-(x as int)) == "-"@ + decimal(x),
{
}

/// The info text shows the width, then the height, then the rate where there is
/// one; a dash where the size is not known.
pub proof fn the_info_text_shows_width_by_height(w: i32, h: i32, r: Rate, fps: Option<Rate>)
    ensures
        w >= 0 && h >= 0 ==> info_text(Some(w), Some(h), None) == decimal(w as nat) + "×"@
            + decimal(h as nat),
        info_text(Some(w), Some(h), Some(r)) == info_text(Some(w), Some(h), None) + " · "@
            + fps_text(r.numer as int, r.denom as int) + " fps"@,
        info_text(Some(w), Some(h), None) == signed_decimal(w as int) + "×"@ + signed_decimal(
            h as int,
        ),
        info_text(None, Some(h), fps) == "—"@,
        info_text(Some(w), None, fps) == "—"@,
        info_text(None, None, fps) == "—"@,
{
}

/// The size text shows the size of a file; it is empty for a URI, where no file
/// is open, and where the file system says nothing.
pub proof fn the_size_text_is_for_files(path: String, bytes: u64, size: Option<u64>)
    ensures
        file_size_text(None, size).len() == 0,
        is_uri(path@) ==> file_size_text(Some(path), size).len() == 0,
        file_size_text(Some(path), None).len() == 0,
        !is_uri(path@) ==> file_size_text(Some(path), Some(bytes)) == crate::numbers::size_text(
            bytes as nat,
        ),
        is_uri(path@) ==> crate::player::filesize_text(path@, size).len() == 0,
        crate::player::filesize_text(path@, None).len() == 0,
        !is_uri(path@) ==> crate::player::filesize_text(path@, Some(bytes))
            == crate::numbers::size_text(bytes as nat),
{
}

/// A format shows the width, then the height, then the rate unless a part of it
/// is 0.
pub proof fn a_format_shows_width_by_height(caps: VideoCaps)
    ensures
        ({
            let size = decimal(caps.width as nat) + "×"@ + decimal(caps.height as nat);
            let text = crate::player::caps_text(caps);
            &&& caps.fps_numer == 0 || caps.fps_denom == 0 ==> text == size
            &&& caps.fps_numer != 0 && caps.fps_denom != 0 ==> text == size + " · "@ + fps_text(
                caps.fps_numer as int,
                caps.fps_denom as int,
            ) + " fps"@
        }),
        caps.fps_numer == 0 || caps.fps_denom == 0 ==> crate::player::rate_of(caps) is None,
        caps.fps_numer != 0 && caps.fps_denom != 0 ==> {
            &&& crate::player::rate_of(caps) is Some
            &&& crate::player::rate_of(caps)->0.numer == caps.fps_numer
            &&& crate::player::rate_of(caps)->0.denom == caps.fps_denom
        },
{
}

/// The strip shows of each tab its own label, path, star, format, codec and
/// size, and marks the active one.
pub proof fn the_strip_shows_each_tab<S>(m: Model<S>, i: int, sizes: Seq<Option<u64>>)
    requires
        0 <= i < m.tabs.len(),
    ensures
        ({
            let text = crate::player::tab_text(m, i, crate::player::size_at(sizes, i));
            let tab = m.tabs[i];
            &&& text.label == crate::text::file_name(tab.path)
            &&& text.path == tab.path
            &&& text.active == (i == m.active)
            &&& text.starred == tab.starred
            &&& tab.latest is None ==> text.info.len() == 0
            &&& tab.latest is Some ==> text.info == crate::player::caps_text(tab.latest->0)
            &&& tab.info is None ==> text.video_codec.len() == 0
            &&& tab.info is Some ==> text.video_codec == tab.info->0.video_codec
            &&& i < sizes.len() ==> text.filesize == crate::player::filesize_text(
                tab.path,
                sizes[i],
            )
            &&& i >= sizes.len() ==> text.filesize == crate::player::filesize_text(tab.path, None)
        }),
{
}

/// Two strips look the same exactly where they hold as many tabs, and each tab
/// has the same texts and marks in both.
pub proof fn strips_are_the_same_tab_by_tab(a: Seq<TabUiData>, b: Seq<TabUiData>)
    ensures
        tab_texts(a) == tab_texts(b) <==> {
            &&& a.len() == b.len()
            &&& forall|i: int|
                0 <= i < a.len() ==> {
                    &&& (#[trigger] a[i]).label@ == b[i].label@
                    &&& a[i].active == b[i].active
                    &&& a[i].starred == b[i].starred
                    &&& a[i].path@ == b[i].path@
                    &&& a[i].info@ == b[i].info@
                    &&& a[i].video_codec@ == b[i].video_codec@
                    &&& a[i].filesize@ == b[i].filesize@
                }
        },
{
    let ta = tab_texts(a);
    let tb = tab_texts(b);
    assert(ta.len() == a.len() && tb.len() == b.len());
    if ta == tb {
        assert forall|i: int| 0 <= i < a.len() implies (#[trigger] a[i])@ == b[i]@ by {
            assert(ta[i] == tb[i]);
        }
    } else if a.len() == b.len() && (forall|i: int|
        0 <= i < a.len() ==> {
            &&& (#[trigger] a[i]).label@ == b[i].label@
            &&& a[i].active == b[i].active
            &&& a[i].starred == b[i].starred
            &&& a[i].path@ == b[i].path@
            &&& a[i].info@ == b[i].info@
            &&& a[i].video_codec@ == b[i].video_codec@
            &&& a[i].filesize@ == b[i].filesize@
        }) {
        assert forall|i: int| 0 <= i < a.len() implies ta[i] == tb[i] by {
            assert(a[i]@ == b[i]@);
        }
        assert(ta =~= tb);
    }
}

/// A snapshot shows the clock, the play state and the active tab, and of no
/// other tab anything.
pub proof fn a_snapshot_shows_the_active_tab<S>(s: Snapshot, m: Model<S>)
    requires
        m.valid(),
        crate::player::is_snapshot(s, m),
    ensures
        s.position == m.position,
        m.duration is Some ==> s.duration == m.duration->0,
        m.duration is None ==> s.duration == 0,
        s.paused == m.paused,
        m.tabs.len() == 0 ==> s.path is None && s.width is None && s.height is None && s.fps is None,
        m.tabs.len() > 0 ==> {
            let tab = m.tabs[m.active];
            &&& s.path is Some && s.path->0@ == tab.path
            &&& tab.info is Some ==> s.media@ == tab.info->0
            &&& tab.latest is None ==> s.width is None && s.height is None && s.fps is None
            &&& tab.latest is Some ==> {
                let caps = tab.latest->0;
                &&& s.width is Some && s.width->0 == caps.width as i32
                &&& s.height is Some && s.height->0 == caps.height as i32
                &&& s.fps == crate::player::rate_of(caps)
            }
        },
        m.tabs.len() == 0 || m.tabs[m.active].info is None ==> {
            &&& s.media.container@.len() == 0
            &&& s.media.video@.len() == 0
            &&& s.media.video_codec@.len() == 0
            &&& s.media.audio@.len() == 0
            &&& s.media.audio_codec@.len() == 0
            &&& s.media.encoder@.len() == 0
        },
{
    assert(s.media@.container == s.media.container@);
}

/// The facts of a [`MediaInfo`] are its texts, field by field.
pub proof fn facts_are_the_texts(info: MediaInfo)
    ensures
        info@.container == info.container@,
        info@.video == info.video@,
        info@.video_codec == info.video_codec@,
        info@.audio == info.audio@,
        info@.audio_codec == info.audio_codec@,
        info@.encoder == info.encoder@,
        crate::player::facts(Some(info)) == Some(info@),
        crate::player::facts(None) is None,
{
}

/// Two texts in one row: with a dot between them where neither is empty.
pub open spec fn beside(a: Seq<char>, b: Seq<char>) -> Seq<char> {
    if a.len() == 0 {
        b
    } else if b.len() == 0 {
        a
    } else {
        a + "  ·  "@ + b
    }
}

/// A text where it is known, else nothing.
pub open spec fn known(holds: bool, text: Seq<char>) -> Seq<char> {
    if holds {
        text
    } else {
        Seq::empty()
    }
}

/// A row of parts that are not empty reads from left to right.
proof fn row_of_parts(parts: Seq<Seq<char>>, text: Seq<char>)
    requires
        parts.len() > 0 ==> crate::media::row(parts).len() > 0,
        text.len() > 0,
    ensures
        crate::media::row(parts.push(text)) == beside(crate::media::row(parts), text),
        crate::media::row(parts.push(text)).len() > 0,
{
    assert(parts.push(text).drop_last() =~= parts);
}

/// One part more, where it is known.
proof fn row_of_known(parts: Seq<Seq<char>>, holds: bool, text: Seq<char>)
    requires
        parts.len() > 0 ==> crate::media::row(parts).len() > 0,
        text.len() > 0,
    ensures
        ({
            let more = parts + crate::media::part(holds, text);
            &&& crate::media::row(more) == beside(crate::media::row(parts), known(holds, text))
            &&& more.len() > 0 ==> crate::media::row(more).len() > 0
        }),
{
    let more = parts + crate::media::part(holds, text);
    if holds {
        row_of_parts(parts, text);
        assert(more =~= parts.push(text));
    } else {
        assert(more =~= parts);
    }
}

/// The video row of a file lists, from left to right and as far as they are
/// known, the width by the height of the first video stream, its frame rate, its
/// depth and its declared bitrate.
pub proof fn the_video_row_lists_the_first_stream(p: Probe)
    requires
        p.video@.len() > 0,
    ensures
        ({
            let v = p.video@[0];
            let rate = if v.max_bitrate > 0 {
                v.max_bitrate
            } else {
                v.bitrate
            };
            let size = known(
                v.width > 0 && v.height > 0,
                decimal(v.width as nat) + "×"@ + decimal(v.height as nat),
            );
            let fps = known(
                v.fps_numer > 0 && v.fps_denom > 0,
                fps_text(v.fps_numer as int, v.fps_denom as int) + " fps"@,
            );
            let depth = known(v.depth > 0, decimal(v.depth as nat) + "-bit"@);
            let kbps = known(rate > 0, decimal((rate / 1000) as nat) + " kb/s"@);
            facts_of(p).video == beside(beside(beside(size, fps), depth), kbps)
        }),
{
    reveal_strlit("×");
    reveal_strlit(" fps");
    reveal_strlit("-bit");
    reveal_strlit(" kb/s");
    let v = p.video@[0];
    let rate = crate::media::nominal_rate(v.bitrate as nat, v.max_bitrate as nat);
    let t1 = decimal(v.width as nat) + "×"@ + decimal(v.height as nat);
    let t2 = crate::numbers::ratio_text(v.fps_numer as nat, v.fps_denom as nat) + " fps"@;
    let t3 = decimal(v.depth as nat) + "-bit"@;
    let t4 = crate::media::rate_text(rate);
    let h1 = v.width > 0 && v.height > 0;
    let h2 = v.fps_numer > 0 && v.fps_denom > 0;
    let p0 = Seq::<Seq<char>>::empty();
    let p1 = p0 + crate::media::part(h1, t1);
    let p2 = p1 + crate::media::part(h2, t2);
    let p3 = p2 + crate::media::part(v.depth > 0, t3);
    let p4 = p3 + crate::media::part(rate > 0, t4);
    row_of_known(p0, h1, t1);
    row_of_known(p1, h2, t2);
    row_of_known(p2, v.depth > 0, t3);
    row_of_known(p3, rate > 0, t4);
    assert(p1 =~= crate::media::part(h1, t1));
    assert(p4 == crate::media::video_parts(v));
}

/// Where the dimensions are known, the video row begins with the width by the
/// height, whichever is greater.
pub proof fn the_video_row_begins_with_width_by_height(p: Probe)
    requires
        p.video@.len() > 0,
        p.video@[0].width > 0,
        p.video@[0].height > 0,
    ensures
        begins_with(
            facts_of(p).video,
            decimal(p.video@[0].width as nat) + "×"@ + decimal(p.video@[0].height as nat),
        ),
{
    the_video_row_lists_the_first_stream(p);
    reveal_strlit("×");
    let size = decimal(p.video@[0].width as nat) + "×"@ + decimal(p.video@[0].height as nat);
    let video = facts_of(p).video;
    assert(video.take(size.len() as int) =~= size);
}

/// The audio row of a file lists, from left to right and as far as they are
/// known, the sample rate of the first audio stream in kilohertz, its channels
/// and its declared bitrate.
pub proof fn the_audio_row_lists_the_first_stream(p: Probe)
    requires
        p.audio@.len() > 0,
    ensures
        ({
            let a = p.audio@[0];
            let rate = if a.max_bitrate > 0 {
                a.max_bitrate
            } else {
                a.bitrate
            };
            let khz = known(a.sample_rate > 0, fps_text(a.sample_rate as int, 1000) + " kHz"@);
            let channels = known(a.channels > 0, crate::media::channels_text(a.channels as nat));
            let kbps = known(rate > 0, decimal((rate / 1000) as nat) + " kb/s"@);
            facts_of(p).audio == beside(beside(khz, channels), kbps)
        }),
{
    reveal_strlit(" kHz");
    reveal_strlit(" kb/s");
    reveal_strlit("Mono");
    reveal_strlit("Stereo");
    reveal_strlit("5.1");
    reveal_strlit("7.1");
    reveal_strlit(" ch");
    let a = p.audio@[0];
    let rate = crate::media::nominal_rate(a.bitrate as nat, a.max_bitrate as nat);
    let t1 = crate::numbers::ratio_text(a.sample_rate as nat, 1000) + " kHz"@;
    let t2 = crate::media::channels_text(a.channels as nat);
    let t3 = crate::media::rate_text(rate);
    let p0 = Seq::<Seq<char>>::empty();
    let p1 = p0 + crate::media::part(a.sample_rate > 0, t1);
    let p2 = p1 + crate::media::part(a.channels > 0, t2);
    let p3 = p2 + crate::media::part(rate > 0, t3);
    row_of_known(p0, a.sample_rate > 0, t1);
    row_of_known(p1, a.channels > 0, t2);
    row_of_known(p2, rate > 0, t3);
    assert(p1 =~= crate::media::part(a.sample_rate > 0, t1));
    assert(p3 == crate::media::audio_parts(a));
}

/// One channel and two have names, six and eight are counted with their
/// subwoofer apart, and all others are counted plainly.
pub proof fn channels_have_their_names(ch: nat)
    ensures
        ch == 1 ==> crate::media::channels_text(ch) == "Mono"@,
        ch == 2 ==> crate::media::channels_text(ch) == "Stereo"@,
        ch == 6 ==> crate::media::channels_text(ch) == "5.1"@,
        ch == 8 ==> crate::media::channels_text(ch) == "7.1"@,
        ch != 1 && ch != 2 && ch != 6 && ch != 8 ==> crate::media::channels_text(ch) == decimal(ch)
            + " ch"@,
{
}

/// The declared bitrate is the maximum where there is one, else the average; it
/// is shown in full kilobits.
pub proof fn the_declared_bitrate_is_the_maximum(bitrate: nat, max_bitrate: nat, k: nat, rate: nat)
    ensures
        max_bitrate > 0 ==> crate::media::nominal_rate(bitrate, max_bitrate) == max_bitrate,
        max_bitrate == 0 ==> crate::media::nominal_rate(bitrate, max_bitrate) == bitrate,
        1000 * k <= rate < 1000 * k + 1000 ==> crate::media::rate_text(rate) == decimal(k)
            + " kb/s"@,
{
}

/// The codec of each kind is that of its first stream, less what stands in
/// parentheses behind it and the white space around it; the encoder is what the
/// report says. What the report does not say is empty.
pub proof fn codecs_and_encoder_come_from_the_report(p: Probe)
    ensures
        p.video@.len() > 0 && p.video@[0].codec is Some ==> facts_of(p).video_codec
            == crate::media::codec_name(p.video@[0].codec->0@),
        p.video@.len() > 0 && p.video@[0].codec is None ==> facts_of(p).video_codec.len() == 0,
        p.audio@.len() > 0 && p.audio@[0].codec is Some ==> facts_of(p).audio_codec
            == crate::media::codec_name(p.audio@[0].codec->0@),
        p.audio@.len() > 0 && p.audio@[0].codec is None ==> facts_of(p).audio_codec.len() == 0,
        p.encoder is Some ==> facts_of(p).encoder == p.encoder->0@,
        p.encoder is None ==> facts_of(p).encoder.len() == 0,
        p.container is None ==> facts_of(p).container.len() == 0,
{
}

/// A container that neither describes the first video stream nor begins its
/// codec name is shown.
pub proof fn a_container_of_its_own_is_shown(p: Probe)
    requires
        p.container is Some,
        p.video@.len() > 0 && p.video@[0].codec is Some ==> p.container->0@
            != p.video@[0].codec->0@,
        !begins_with(facts_of(p).video_codec, p.container->0@),
    ensures
        facts_of(p).container == p.container->0@,
{
}

/// A codec name is what stands in front of the first parenthesis, less the white
/// space around it.
pub proof fn a_codec_name_is_what_precedes_the_parenthesis(desc: Seq<char>)
    ensures
        ({
            let front = crate::text::before(desc, '(');
            let name = crate::media::codec_name(desc);
            exists|i: int|
                {
                    &&& 0 <= i && i + name.len() <= front.len()
                    &&& #[trigger] front.subrange(i, i + name.len()) == name
                    &&& forall|j: int| 0 <= j < i ==> crate::text::is_space(#[trigger] front[j])
                    &&& forall|j: int|
                        i + name.len() <= j < front.len() ==> crate::text::is_space(
                            #[trigger] front[j],
                        )
                }
        }),
{
    let front = crate::text::before(desc, '(');
    let name = crate::text::drop_space(crate::text::skip_space(front));
    crate::text::trimming_drops_white_space_alone(front);
    let i = choose|i: int|
        {
            &&& 0 <= i && i + name.len() <= front.len()
            &&& #[trigger] front.subrange(i, i + name.len()) == name
            &&& forall|j: int| 0 <= j < i ==> crate::text::is_space(#[trigger] front[j])
            &&& forall|j: int|
                i + name.len() <= j < front.len() ==> crate::text::is_space(#[trigger] front[j])
        };
    assert(front.subrange(i, i + crate::media::codec_name(desc).len()) == crate::media::codec_name(
        desc,
    ));
}

} // verus!
