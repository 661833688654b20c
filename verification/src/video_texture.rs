//! The two GL textures that the video is drawn from.
//!
//! The window repaints only when the texture that it shows changes, and takes a
//! texture with the same name and size for unchanged. So there are two, and
//! each present shows the other one. This module decides which GL calls load a
//! frame into a texture; the shell makes them in the window's GL context.

use vstd::prelude::*;

verus! {

/// A parameter of a texture.
#[derive(Clone, Copy, Debug, PartialEq, Eq, Structural)]
pub enum TexParam {
    MinFilter,
    MagFilter,
    WrapS,
    WrapT,
}

/// A value of a texture parameter.
#[derive(Clone, Copy, Debug, PartialEq, Eq, Structural)]
pub enum TexValue {
    Linear,
    ClampToEdge,
}

/// A GL call on the two-dimensional texture target. Pixels are RGBA, a byte
/// per channel.
#[derive(Clone, Copy, Debug, PartialEq, Eq, Structural)]
pub enum GlCall {
    /// Bind a texture, or none.
    Bind { texture: Option<u32> },
    /// Set a parameter of the bound texture.
    Parameter { param: TexParam, value: TexValue },
    /// Set the alignment of rows, in bytes, for unpacking pixels.
    UnpackAlignment { bytes: i32 },
    /// Set the length of rows, in pixels, for unpacking; 0 for the width.
    UnpackRowLength { pixels: i32 },
    /// Give the bound texture a size, and the pixels of the frame.
    Image { width: i32, height: i32 },
    /// Load the pixels of the frame into the bound texture.
    SubImage { width: i32, height: i32 },
    /// Delete a texture.
    Delete { texture: u32 },
}

/// The GL state that loading a frame touches.
pub struct GlState {
    pub bound: Option<u32>,
    pub alignment: int,
    pub row_length: int,
}

/// The state that the window's renderer expects.
pub open spec fn at_rest() -> GlState {
    GlState { bound: None, alignment: 4, row_length: 0 }
}

/// The state after one call.
pub open spec fn after_call(s: GlState, call: GlCall) -> GlState {
    match call {
        GlCall::Bind { texture } => GlState { bound: texture, ..s },
        GlCall::UnpackAlignment { bytes } => GlState { alignment: bytes as int, ..s },
        GlCall::UnpackRowLength { pixels } => GlState { row_length: pixels as int, ..s },
        _ => s,
    }
}

/// The state after `calls`, in their order.
pub open spec fn after_calls(s: GlState, calls: Seq<GlCall>) -> GlState
    decreases calls.len(),
{
    if calls.len() == 0 {
        s
    } else {
        after_call(after_calls(s, calls.drop_last()), calls.last())
    }
}

/// The pixels in a row of `stride` bytes, rounded towards zero.
pub open spec fn row_pixels(stride: int) -> int {
    if stride < 0 {
        -((-stride) / 4)
    } else {
        stride / 4
    }
}

/// The list of `call` alone, or the empty list where it is not needed.
pub open spec fn when(needed: bool, call: GlCall) -> Seq<GlCall> {
    if needed {
        seq![call]
    } else {
        Seq::empty()
    }
}

/// The calls that make a new texture ready for frames: smooth, and clamped at
/// its edges.
pub open spec fn setup_calls(texture: u32) -> Seq<GlCall> {
    seq![
        GlCall::Bind { texture: Some(texture) },
        GlCall::Parameter { param: TexParam::MinFilter, value: TexValue::Linear },
        GlCall::Parameter { param: TexParam::MagFilter, value: TexValue::Linear },
        GlCall::Parameter { param: TexParam::WrapS, value: TexValue::ClampToEdge },
        GlCall::Parameter { param: TexParam::WrapT, value: TexValue::ClampToEdge },
        GlCall::Bind { texture: None },
    ]
}

/// The calls that load a frame into `texture`, which has the size `size`: the
/// texture is resized where its size is another, and the state that the
/// renderer expects is put back.
pub open spec fn upload_calls(
    texture: u32,
    size: (i32, i32),
    width: i32,
    height: i32,
    stride: i32,
) -> Seq<GlCall> {
    let row = row_pixels(stride as int);
    let padded = row != width;
    seq![GlCall::Bind { texture: Some(texture) }, GlCall::UnpackAlignment { bytes: 1 }] + when(
        padded,
        GlCall::UnpackRowLength { pixels: row as i32 },
    ) + seq![
        if (width, height) != size {
            GlCall::Image { width, height }
        } else {
            GlCall::SubImage { width, height }
        },
    ] + when(padded, GlCall::UnpackRowLength { pixels: 0 }) + seq![
        GlCall::UnpackAlignment { bytes: 4 },
        GlCall::Bind { texture: None },
    ]
}

/// The two textures, by name, each with the size of what was last loaded.
pub struct VideoTexture {
    tex: [u32; 2],
    size: [(i32, i32); 2],
}

/// Makes a new texture ready for frames.
pub fn setup_texture(texture: u32) -> (calls: Vec<GlCall>)
    ensures
        calls@ == setup_calls(texture),
{
    let mut out: Vec<GlCall> = Vec::new();
    out.push(GlCall::Bind { texture: Some(texture) });
    out.push(GlCall::Parameter { param: TexParam::MinFilter, value: TexValue::Linear });
    out.push(GlCall::Parameter { param: TexParam::MagFilter, value: TexValue::Linear });
    out.push(GlCall::Parameter { param: TexParam::WrapS, value: TexValue::ClampToEdge });
    out.push(GlCall::Parameter { param: TexParam::WrapT, value: TexValue::ClampToEdge });
    out.push(GlCall::Bind { texture: None });
    assert(out@ =~= setup_calls(texture));
    out
}

/// The pixels in a row of `stride` bytes.
fn row_length(stride: i32) -> (r: i32)
    ensures
        r == row_pixels(stride as int),
{
    stride / 4
}

impl VideoTexture {
    /// The names of the textures.
    pub closed spec fn names(self) -> Seq<u32> {
        self.tex@
    }

    /// The size of what was last loaded into each texture.
    pub closed spec fn sizes(self) -> Seq<(i32, i32)> {
        self.size@
    }

    /// There are two textures, each with its size.
    pub proof fn there_are_two(self)
        ensures
            self.names().len() == 2,
            self.sizes().len() == 2,
    {
    }

    /// Two textures that hold nothing yet.
    pub fn new(first: u32, second: u32) -> (r: Self)
        ensures
            r.names() == seq![first, second],
            r.sizes() == seq![(0i32, 0i32), (0i32, 0i32)],
    {
        let r = VideoTexture { tex: [first, second], size: [(0, 0), (0, 0)] };
        assert(r.names() =~= seq![first, second]);
        assert(r.sizes() =~= seq![(0i32, 0i32), (0i32, 0i32)]);
        r
    }

    /// The name of the texture in slot `idx`.
    pub fn id(&self, idx: usize) -> (r: u32)
        requires
            idx < 2,
        ensures
            r == self.names()[idx as int],
    {
        self.tex[idx]
    }

    /// Loads an RGBA frame into slot `idx`. `stride` is the length of a row in
    /// bytes, which may exceed four times the width. A frame without pixels is
    /// ignored.
    pub fn upload(&mut self, idx: usize, width: i32, height: i32, stride: i32) -> (calls: Vec<
        GlCall,
    >)
        requires
            idx < 2,
        ensures
            final(self).names() == old(self).names(),
            final(self).names().len() == 2,
            final(self).sizes().len() == 2,
            final(self).sizes()[1 - idx] == old(self).sizes()[1 - idx],
            (width <= 0 || height <= 0) ==> calls@.len() == 0 && final(self).sizes() == old(
                self,
            ).sizes(),
            (width > 0 && height > 0) ==> {
                &&& calls@ == upload_calls(
                    old(self).names()[idx as int],
                    old(self).sizes()[idx as int],
                    width,
                    height,
                    stride,
                )
                &&& final(self).sizes() == old(self).sizes().update(idx as int, (width, height))
            },
    {
        let mut out: Vec<GlCall> = Vec::new();
        if width <= 0 || height <= 0 {
            return out;
        }
        let row: i32 = row_length(stride);
        out.push(GlCall::Bind { texture: Some(self.tex[idx]) });
        out.push(GlCall::UnpackAlignment { bytes: 1 });
        if row != width {
            out.push(GlCall::UnpackRowLength { pixels: row });
        }
        let size = self.size[idx];
        if width != size.0 || height != size.1 {
            out.push(GlCall::Image { width, height });
            self.size[idx] = (width, height);
        } else {
            out.push(GlCall::SubImage { width, height });
        }
        if row != width {
            out.push(GlCall::UnpackRowLength { pixels: 0 });
        }
        out.push(GlCall::UnpackAlignment { bytes: 4 });
        out.push(GlCall::Bind { texture: None });
        assert(out@ =~= upload_calls(
            old(self).names()[idx as int],
            old(self).sizes()[idx as int],
            width,
            height,
            stride,
        ));
        assert(self.sizes() =~= old(self).sizes().update(idx as int, (width, height)));
        out
    }

    /// Releases both textures.
    pub fn delete(&self) -> (calls: Vec<GlCall>)
        ensures
            calls@ == seq![
                GlCall::Delete { texture: self.names()[0] },
                GlCall::Delete { texture: self.names()[1] },
            ],
    {
        let mut out: Vec<GlCall> = Vec::new();
        out.push(GlCall::Delete { texture: self.tex[0] });
        out.push(GlCall::Delete { texture: self.tex[1] });
        assert(out@ =~= seq![
            GlCall::Delete { texture: self.names()[0] },
            GlCall::Delete { texture: self.names()[1] },
        ]);
        out
    }
}

/// One call more.
proof fn after_calls_push(s: GlState, calls: Seq<GlCall>, call: GlCall)
    ensures
        after_calls(s, calls.push(call)) == after_call(after_calls(s, calls), call),
{
    assert(calls.push(call).drop_last() =~= calls);
}

/// Loading a frame leaves the GL state as the renderer expects it, and at the
/// call that reads the pixels the slot's texture is bound, rows are unaligned
/// and as long as the stride says.
pub proof fn upload_restores_the_state(
    texture: u32,
    size: (i32, i32),
    width: i32,
    height: i32,
    stride: i32,
)
    ensures
        ({
            let calls = upload_calls(texture, size, width, height, stride);
            let row = row_pixels(stride as int);
            let load: int = if row != width {
                3
            } else {
                2
            };
            &&& after_calls(at_rest(), calls) == at_rest()
            &&& calls[load] == if (width, height) != size {
                GlCall::Image { width, height }
            } else {
                GlCall::SubImage { width, height }
            }
            &&& after_calls(at_rest(), calls.take(load)) == (GlState {
                bound: Some(texture),
                alignment: 1,
                row_length: if row != width {
                    row
                } else {
                    0
                },
            })
        }),
{
    let calls = upload_calls(texture, size, width, height, stride);
    let row = row_pixels(stride as int);
    let load = if (width, height) != size {
        GlCall::Image { width, height }
    } else {
        GlCall::SubImage { width, height }
    };
    let s0 = Seq::<GlCall>::empty();
    let c0 = GlCall::Bind { texture: Some(texture) };
    let c1 = GlCall::UnpackAlignment { bytes: 1 };
    let c2 = GlCall::UnpackRowLength { pixels: row as i32 };
    let c3 = GlCall::UnpackRowLength { pixels: 0 };
    let c4 = GlCall::UnpackAlignment { bytes: 4 };
    let c5 = GlCall::Bind { texture: None };
    let s1 = s0.push(c0);
    let s2 = s1.push(c1);
    after_calls_push(at_rest(), s0, c0);
    after_calls_push(at_rest(), s1, c1);
    if row != width {
        let s3 = s2.push(c2);
        let s4 = s3.push(load);
        let s5 = s4.push(c3);
        let s6 = s5.push(c4);
        after_calls_push(at_rest(), s2, c2);
        after_calls_push(at_rest(), s3, load);
        after_calls_push(at_rest(), s4, c3);
        after_calls_push(at_rest(), s5, c4);
        after_calls_push(at_rest(), s6, c5);
        assert(calls =~= s6.push(c5));
        assert(calls.take(3) =~= s3);
    } else {
        let s3 = s2.push(load);
        let s4 = s3.push(c4);
        after_calls_push(at_rest(), s2, load);
        after_calls_push(at_rest(), s3, c4);
        after_calls_push(at_rest(), s4, c5);
        assert(calls =~= s4.push(c5));
        assert(calls.take(2) =~= s2);
    }
}

/// Making a texture ready leaves the GL state as the renderer expects it.
pub proof fn setup_restores_the_state(texture: u32)
    ensures
        after_calls(at_rest(), setup_calls(texture)) == at_rest(),
{
    let calls = setup_calls(texture);
    let s0 = Seq::<GlCall>::empty();
    let s1 = s0.push(calls[0]);
    let s2 = s1.push(calls[1]);
    let s3 = s2.push(calls[2]);
    let s4 = s3.push(calls[3]);
    let s5 = s4.push(calls[4]);
    after_calls_push(at_rest(), s0, calls[0]);
    after_calls_push(at_rest(), s1, calls[1]);
    after_calls_push(at_rest(), s2, calls[2]);
    after_calls_push(at_rest(), s3, calls[3]);
    after_calls_push(at_rest(), s4, calls[4]);
    after_calls_push(at_rest(), s5, calls[5]);
    assert(calls =~= s5.push(calls[5]));
}

/// A new texture is made smooth in both directions and clamped at both edges,
/// while it is bound.
pub proof fn setup_makes_smooth_and_clamped(texture: u32)
    ensures
        ({
            let calls = setup_calls(texture);
            &&& calls.len() == 6
            &&& calls.first() == (GlCall::Bind { texture: Some(texture) })
            &&& calls.last() == (GlCall::Bind { texture: None })
            &&& calls.contains(
                GlCall::Parameter { param: TexParam::MinFilter, value: TexValue::Linear },
            )
            &&& calls.contains(
                GlCall::Parameter { param: TexParam::MagFilter, value: TexValue::Linear },
            )
            &&& calls.contains(
                GlCall::Parameter { param: TexParam::WrapS, value: TexValue::ClampToEdge },
            )
            &&& calls.contains(
                GlCall::Parameter { param: TexParam::WrapT, value: TexValue::ClampToEdge },
            )
        }),
{
    let calls = setup_calls(texture);
    assert(calls[1] == GlCall::Parameter { param: TexParam::MinFilter, value: TexValue::Linear });
    assert(calls[2] == GlCall::Parameter { param: TexParam::MagFilter, value: TexValue::Linear });
    assert(calls[3] == GlCall::Parameter { param: TexParam::WrapS, value: TexValue::ClampToEdge });
    assert(calls[4] == GlCall::Parameter { param: TexParam::WrapT, value: TexValue::ClampToEdge });
}

/// A row holds the full pixels in its bytes.
pub proof fn a_row_holds_its_full_pixels(stride: int)
    ensures
        stride >= 0 ==> 4 * row_pixels(stride) <= stride < 4 * row_pixels(stride) + 4,
        row_pixels(-stride) == -row_pixels(stride),
{
}

/// What the window's renderer expects: no texture bound, rows aligned to four
/// bytes and as long as the image is wide.
pub proof fn the_renderer_expects_the_defaults()
    ensures
        at_rest().bound is None,
        at_rest().alignment == 4,
        at_rest().row_length == 0,
{
}

/// Loading a frame takes one load, in the size of the frame: it resizes the
/// texture exactly where the frame's size is another than the texture's. The
/// row length is set and put back exactly where rows are padded.
pub proof fn a_frame_is_loaded_once(
    texture: u32,
    size: (i32, i32),
    width: i32,
    height: i32,
    stride: i32,
)
    ensures
        ({
            let calls = upload_calls(texture, size, width, height, stride);
            let padded = row_pixels(stride as int) != width;
            let load: int = if padded {
                3
            } else {
                2
            };
            &&& calls.len() == if padded {
                7
            } else {
                5int
            }
            &&& calls[0] == (GlCall::Bind { texture: Some(texture) })
            &&& calls[1] == (GlCall::UnpackAlignment { bytes: 1 })
            &&& padded ==> calls[2] == (GlCall::UnpackRowLength {
                pixels: row_pixels(stride as int) as i32,
            })
            &&& (width == size.0 && height == size.1) ==> calls[load] == (GlCall::SubImage {
                width,
                height,
            })
            &&& (width != size.0 || height != size.1) ==> calls[load] == (GlCall::Image {
                width,
                height,
            })
            &&& padded ==> calls[4] == (GlCall::UnpackRowLength { pixels: 0 })
            &&& calls[calls.len() - 2] == (GlCall::UnpackAlignment { bytes: 4 })
            &&& calls.last() == (GlCall::Bind { texture: None })
        }),
{
}

/// Of two frames of one size in a row, the second leaves the texture's size
/// alone.
pub proof fn an_equal_frame_does_not_resize(
    texture: u32,
    width: i32,
    height: i32,
    stride: i32,
)
    ensures
        forall|i: int|
            0 <= i < upload_calls(texture, (width, height), width, height, stride).len()
                ==> !((#[trigger] upload_calls(texture, (width, height), width, height, stride)[i])
                is Image),
{
}

} // verus!
