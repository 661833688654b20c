//! Static media facts for the info bar.
//!
//! A prober reports once per file what the container and its elementary
//! streams declare. This module distils the lines of the bar from that report.
//! It surfaces only facts (codec, dimensions, frame rate, sample rate,
//! channels, nominal bitrate), never live values.

use crate::numbers::trim;
use crate::text::{decimal_string, push_decimal, starts_with, text_before, trim_space};
use vstd::prelude::*;
use vstd::string::*;

verus! {

/// The facts shown in the info bar for one open file. Empty fields are omitted
/// from the bar, so a file with no audio track shows no audio row.
#[derive(Debug, PartialEq, Eq)]
pub struct MediaInfo {
    pub container: String,
    pub video: String,
    pub video_codec: String,
    pub audio: String,
    pub audio_codec: String,
    pub encoder: String,
}

/// The texts of a [`MediaInfo`].
pub struct MediaFacts {
    pub container: Seq<char>,
    pub video: Seq<char>,
    pub video_codec: Seq<char>,
    pub audio: Seq<char>,
    pub audio_codec: Seq<char>,
    pub encoder: Seq<char>,
}

/// The facts of a file of which nothing is known.
pub open spec fn no_facts() -> MediaFacts {
    MediaFacts {
        container: Seq::empty(),
        video: Seq::empty(),
        video_codec: Seq::empty(),
        audio: Seq::empty(),
        audio_codec: Seq::empty(),
        encoder: Seq::empty(),
    }
}

impl View for MediaInfo {
    type V = MediaFacts;

    open spec fn view(&self) -> MediaFacts {
        MediaFacts {
            container: self.container@,
            video: self.video@,
            video_codec: self.video_codec@,
            audio: self.audio@,
            audio_codec: self.audio_codec@,
            encoder: self.encoder@,
        }
    }
}

impl Default for MediaInfo {
    fn default() -> (r: MediaInfo)
        ensures
            r@ == no_facts(),
    {
        MediaInfo {
            container: String::new(),
            video: String::new(),
            video_codec: String::new(),
            audio: String::new(),
            audio_codec: String::new(),
            encoder: String::new(),
        }
    }
}

impl Clone for MediaInfo {
    fn clone(&self) -> (r: MediaInfo)
        ensures
            r@ == self@,
    {
        MediaInfo {
            container: self.container.clone(),
            video: self.video.clone(),
            video_codec: self.video_codec.clone(),
            audio: self.audio.clone(),
            audio_codec: self.audio_codec.clone(),
            encoder: self.encoder.clone(),
        }
    }
}

/// What the prober says of a video stream. `codec` describes the stream's
/// format, where it has one; a number that is not known is 0.
#[derive(Debug)]
pub struct VideoStream {
    pub codec: Option<String>,
    pub width: u32,
    pub height: u32,
    pub fps_numer: i32,
    pub fps_denom: i32,
    pub depth: u32,
    pub bitrate: u32,
    pub max_bitrate: u32,
}

/// What the prober says of an audio stream.
#[derive(Debug)]
pub struct AudioStream {
    pub codec: Option<String>,
    pub sample_rate: u32,
    pub channels: u32,
    pub bitrate: u32,
    pub max_bitrate: u32,
}

/// What the prober says of a file: the description of the format of the top
/// level, the streams in their order, and the encoder tag.
#[derive(Debug)]
pub struct Probe {
    pub container: Option<String>,
    pub video: Vec<VideoStream>,
    pub audio: Vec<AudioStream>,
    pub encoder: Option<String>,
}

/// The text of an optional string, empty where there is none.
pub open spec fn text_or_empty(text: Option<String>) -> Seq<char> {
    match text {
        Some(t) => t@,
        None => Seq::empty(),
    }
}

/// A codec description less its profile and level.
pub open spec fn codec_name(desc: Seq<char>) -> Seq<char> {
    crate::text::drop_space(crate::text::skip_space(crate::text::before(desc, '(')))
}

/// The codec name in an optional description, empty where there is none.
pub open spec fn codec_or_empty(desc: Option<String>) -> Seq<char> {
    match desc {
        Some(d) => codec_name(d@),
        None => Seq::empty(),
    }
}

/// The declared rate: the maximum where one is declared, else the average.
pub open spec fn nominal_rate(bitrate: nat, max_bitrate: nat) -> nat {
    if max_bitrate > 0 {
        max_bitrate
    } else {
        bitrate
    }
}

/// A bitrate in full kilobits per second.
pub open spec fn rate_text(rate: nat) -> Seq<char> {
    crate::text::decimal(rate / 1000) + " kb/s"@
}

/// The name of a number of channels.
pub open spec fn channels_text(ch: nat) -> Seq<char> {
    if ch == 1 {
        "Mono"@
    } else if ch == 2 {
        "Stereo"@
    } else if ch == 6 {
        "5.1"@
    } else if ch == 8 {
        "7.1"@
    } else {
        crate::text::decimal(ch) + " ch"@
    }
}

/// The list of `text` alone, or the empty list where `shown` does not hold.
pub open spec fn part(shown: bool, text: Seq<char>) -> Seq<Seq<char>> {
    if shown {
        seq![text]
    } else {
        Seq::empty()
    }
}

/// What the video row lists of a stream.
pub open spec fn video_parts(v: VideoStream) -> Seq<Seq<char>> {
    let rate = nominal_rate(v.bitrate as nat, v.max_bitrate as nat);
    part(
        v.width > 0 && v.height > 0,
        crate::text::decimal(v.width as nat) + "×"@ + crate::text::decimal(v.height as nat),
    ) + part(
        v.fps_numer > 0 && v.fps_denom > 0,
        crate::numbers::ratio_text(v.fps_numer as nat, v.fps_denom as nat) + " fps"@,
    ) + part(v.depth > 0, crate::text::decimal(v.depth as nat) + "-bit"@) + part(
        rate > 0,
        rate_text(rate),
    )
}

/// What the audio row lists of a stream.
pub open spec fn audio_parts(a: AudioStream) -> Seq<Seq<char>> {
    let rate = nominal_rate(a.bitrate as nat, a.max_bitrate as nat);
    part(
        a.sample_rate > 0,
        crate::numbers::ratio_text(a.sample_rate as nat, 1000) + " kHz"@,
    ) + part(a.channels > 0, channels_text(a.channels as nat)) + part(rate > 0, rate_text(rate))
}

/// The parts of a row with dots between them.
pub open spec fn row(parts: Seq<Seq<char>>) -> Seq<char>
    decreases parts.len(),
{
    if parts.len() == 0 {
        Seq::empty()
    } else if parts.len() == 1 {
        parts[0]
    } else {
        row(parts.drop_last()) + "  ·  "@ + parts.last()
    }
}

/// The codec name of the first video stream, empty where there is none.
pub open spec fn first_video_codec(p: Probe) -> Seq<char> {
    if p.video@.len() > 0 {
        codec_or_empty(p.video@[0].codec)
    } else {
        Seq::empty()
    }
}

/// Whether a file is a raw elementary stream: the top level is described as the
/// first video stream is.
pub open spec fn is_raw(p: Probe) -> bool {
    p.video@.len() > 0 && p.container is Some && p.video@[0].codec is Some && p.container->0@
        == p.video@[0].codec->0@
}

/// The facts that a report yields. Only the first video stream and the first
/// audio stream count. A raw elementary stream reports the same codec as both
/// container and video; the redundant container is dropped, and so is one that
/// the codec name begins with.
pub open spec fn facts_of(p: Probe) -> MediaFacts {
    let container = text_or_empty(p.container);
    let video_codec = first_video_codec(p);
    MediaFacts {
        container: if is_raw(p) || crate::text::begins_with(video_codec, container) {
            Seq::empty()
        } else {
            container
        },
        video: if p.video@.len() > 0 {
            row(video_parts(p.video@[0]))
        } else {
            Seq::empty()
        },
        video_codec,
        audio: if p.audio@.len() > 0 {
            row(audio_parts(p.audio@[0]))
        } else {
            Seq::empty()
        },
        audio_codec: if p.audio@.len() > 0 {
            codec_or_empty(p.audio@[0].codec)
        } else {
            Seq::empty()
        },
        encoder: text_or_empty(p.encoder),
    }
}

/// Strips profile and level annotations from a codec description, so that the
/// chip shows just "H.265" instead of "H.265 (Main)".
pub fn short_codec(desc: &str) -> (name: String)
    ensures
        name@ == codec_name(desc@),
{
    trim_space(text_before(desc, '(').as_str())
}

/// The declared (nominal) bitrate as "N kb/s". Prefers the stream's maximum
/// rate, the static figure that muxers record, over the average that the
/// prober measures, which drifts below it on short clips.
pub fn nominal_kbps(bitrate: u32, max_bitrate: u32) -> (text: Option<String>)
    ensures
        ({
            let rate = nominal_rate(bitrate as nat, max_bitrate as nat);
            match text {
                Some(t) => rate > 0 && t@ == rate_text(rate),
                None => rate == 0,
            }
        }),
{
    let b: u32 = if max_bitrate > 0 {
        max_bitrate
    } else {
        bitrate
    };
    if b > 0 {
        let mut out = decimal_string((b / 1000) as u64);
        out.append(" kb/s");
        Some(out)
    } else {
        None
    }
}

/// The name of a number of channels, such as "Stereo".
pub fn channel_label(ch: u32) -> (text: String)
    ensures
        text@ == channels_text(ch as nat),
{
    if ch == 1 {
        "Mono".to_owned()
    } else if ch == 2 {
        "Stereo".to_owned()
    } else if ch == 6 {
        "5.1".to_owned()
    } else if ch == 8 {
        "7.1".to_owned()
    } else {
        let mut out = decimal_string(ch as u64);
        out.append(" ch");
        out
    }
}

/// Adds one part to a row that is being written: a dot goes in front of every
/// part but the first.
fn push_part(out: &mut String, first: bool, text: &str, parts: Ghost<Seq<Seq<char>>>)
    requires
        old(out)@ == row(parts@),
        first == (parts@.len() == 0),
    ensures
        final(out)@ == row(parts@.push(text@)),
{
    let ghost more = parts@.push(text@);
    assert(more.drop_last() =~= parts@);
    if !first {
        out.append("  ·  ");
    }
    out.append(text);
    assert(first ==> out@ =~= text@);
}

/// The video row of a stream.
fn video_row(v: &VideoStream) -> (text: String)
    ensures
        text@ == row(video_parts(*v)),
{
    let mut out = String::new();
    let mut first = true;
    let ghost mut parts: Seq<Seq<char>> = Seq::empty();
    if v.width > 0 && v.height > 0 {
        let mut size = decimal_string(v.width as u64);
        size.append("×");
        push_decimal(&mut size, v.height as u64);
        push_part(&mut out, first, size.as_str(), Ghost(parts));
        first = false;
        proof {
            parts = parts.push(size@);
        }
    }
    if v.fps_numer > 0 && v.fps_denom > 0 {
        let mut fps = trim(v.fps_numer as u32, v.fps_denom as u32);
        fps.append(" fps");
        push_part(&mut out, first, fps.as_str(), Ghost(parts));
        first = false;
        proof {
            parts = parts.push(fps@);
        }
    }
    if v.depth > 0 {
        let mut depth = decimal_string(v.depth as u64);
        depth.append("-bit");
        push_part(&mut out, first, depth.as_str(), Ghost(parts));
        first = false;
        proof {
            parts = parts.push(depth@);
        }
    }
    if let Some(rate) = nominal_kbps(v.bitrate, v.max_bitrate) {
        push_part(&mut out, first, rate.as_str(), Ghost(parts));
        proof {
            parts = parts.push(rate@);
        }
    }
    assert(parts =~= video_parts(*v));
    out
}

/// The audio row of a stream.
fn audio_row(a: &AudioStream) -> (text: String)
    ensures
        text@ == row(audio_parts(*a)),
{
    let mut out = String::new();
    let mut first = true;
    let ghost mut parts: Seq<Seq<char>> = Seq::empty();
    if a.sample_rate > 0 {
        let mut rate = trim(a.sample_rate, 1000);
        rate.append(" kHz");
        push_part(&mut out, first, rate.as_str(), Ghost(parts));
        first = false;
        proof {
            parts = parts.push(rate@);
        }
    }
    if a.channels > 0 {
        let label = channel_label(a.channels);
        push_part(&mut out, first, label.as_str(), Ghost(parts));
        first = false;
        proof {
            parts = parts.push(label@);
        }
    }
    if let Some(rate) = nominal_kbps(a.bitrate, a.max_bitrate) {
        push_part(&mut out, first, rate.as_str(), Ghost(parts));
        proof {
            parts = parts.push(rate@);
        }
    }
    assert(parts =~= audio_parts(*a));
    out
}

/// The codec name in an optional description, empty where there is none.
fn codec_of(desc: &Option<String>) -> (name: String)
    ensures
        name@ == codec_or_empty(*desc),
{
    match desc {
        Some(d) => short_codec(d.as_str()),
        None => String::new(),
    }
}

/// Whether a file is a raw elementary stream.
fn raw_stream(p: &Probe) -> (r: bool)
    ensures
        r == is_raw(*p),
{
    if p.video.len() == 0 {
        return false;
    }
    match (&p.container, &p.video[0].codec) {
        (Some(container), Some(codec)) => *container == *codec,
        _ => false,
    }
}

/// Distils the static facts from what the prober reports of a file; `None`
/// where it could not analyse the file.
pub fn discover(report: Option<Probe>) -> (info: Option<MediaInfo>)
    ensures
        match report {
            None => info is None,
            Some(p) => info is Some && info->0@ == facts_of(p),
        },
{
    let probe = match report {
        Some(p) => p,
        None => return None,
    };
    let mut mi = MediaInfo::default();
    if probe.video.len() > 0 {
        mi.video_codec = codec_of(&probe.video[0].codec);
        mi.video = video_row(&probe.video[0]);
    }
    if probe.audio.len() > 0 {
        mi.audio_codec = codec_of(&probe.audio[0].codec);
        mi.audio = audio_row(&probe.audio[0]);
    }
    if let Some(enc) = &probe.encoder {
        mi.encoder = enc.clone();
    }
    if let Some(container) = &probe.container {
        if !raw_stream(&probe) && !starts_with(mi.video_codec.as_str(), container.as_str()) {
            mi.container = container.clone();
        }
    }
    assert(crate::text::begins_with(mi.video_codec@, Seq::<char>::empty())) by {
        assert(mi.video_codec@.take(0) =~= Seq::<char>::empty());
    }
    Some(mi)
}

/// A codec name holds no annotation in parentheses, and no white space stands
/// around it.
pub proof fn codec_names_are_bare(desc: Seq<char>)
    ensures
        !codec_name(desc).contains('('),
        codec_name(desc).len() > 0 ==> !crate::text::is_space(codec_name(desc)[0])
            && !crate::text::is_space(codec_name(desc).last()),
{
    crate::text::before_stops_at_first(desc, '(');
    crate::text::trimming_leaves_no_space_around(crate::text::before(desc, '('));
}

/// A file without a video track shows no video row, and one without an audio
/// track shows no audio row.
pub proof fn missing_tracks_show_no_row(p: Probe)
    ensures
        p.video@.len() == 0 ==> facts_of(p).video.len() == 0 && facts_of(p).video_codec.len() == 0,
        p.audio@.len() == 0 ==> facts_of(p).audio.len() == 0 && facts_of(p).audio_codec.len() == 0,
{
}

/// Whether two lists of streams begin alike: with the same first stream, or
/// both with none.
pub open spec fn begin_alike<T>(a: Seq<T>, b: Seq<T>) -> bool {
    (a.len() == 0 && b.len() == 0) || (a.len() > 0 && b.len() > 0 && a[0] == b[0])
}

/// Only the first stream of each kind counts: reports whose lists of a kind
/// begin alike show the same facts of that kind, and the container rests on the
/// video streams alone.
pub proof fn later_streams_do_not_count(p: Probe, q: Probe)
    ensures
        begin_alike(p.video@, q.video@) ==> facts_of(p).video == facts_of(q).video && facts_of(
            p,
        ).video_codec == facts_of(q).video_codec,
        begin_alike(p.audio@, q.audio@) ==> facts_of(p).audio == facts_of(q).audio && facts_of(
            p,
        ).audio_codec == facts_of(q).audio_codec,
        begin_alike(p.video@, q.video@) && p.container == q.container ==> facts_of(p).container
            == facts_of(q).container,
        p.encoder == q.encoder ==> facts_of(p).encoder == facts_of(q).encoder,
{
}

/// A raw elementary stream shows its codec and no container. A container that
/// is shown is what the report says, and neither describes the first video
/// stream nor is the beginning of its codec name.
pub proof fn container_is_not_redundant(p: Probe)
    ensures
        is_raw(p) ==> facts_of(p).container.len() == 0 && facts_of(p).video_codec == codec_name(
            p.container->0@,
        ),
        facts_of(p).container.len() > 0 ==> {
            &&& p.container is Some
            &&& facts_of(p).container == p.container->0@
            &&& !is_raw(p)
            &&& !crate::text::begins_with(facts_of(p).video_codec, facts_of(p).container)
        },
{
}

} // verus!
