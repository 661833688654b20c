//! Which of the two textures is shown, and which one awaits its frame.

use crate::video_texture::VideoTexture;
use vstd::prelude::*;

verus! {

/// The slot on screen, and the slot that the next render has to fill.
pub struct Presenter {
    shown: usize,
    pending: Option<usize>,
}

/// What a present comes to.
#[derive(Clone, Copy, Debug, PartialEq, Eq, Structural)]
pub enum Presented {
    /// Show the texture in a slot, with its size in pixels.
    Show { slot: usize, width: u32, height: u32 },
    /// The renderer is not up yet: the content stays to be presented.
    Retry,
    /// There is no frame to show.
    Nothing,
}

impl Presenter {
    /// The slot on screen.
    pub closed spec fn on_screen(self) -> int {
        self.shown as int
    }

    /// The slot that the next render has to fill.
    pub closed spec fn awaiting(self) -> Option<usize> {
        self.pending
    }

    /// Whether both slots are among the two that there are.
    pub closed spec fn wf(self) -> bool {
        &&& self.shown < 2
        &&& self.pending is Some ==> self.pending->0 == self.shown
    }

    /// What is well formed names slots that there are, and awaits a frame only
    /// in the slot on screen.
    pub proof fn wf_is_in_range(self)
        requires
            self.wf(),
        ensures
            0 <= self.on_screen() < 2,
            self.awaiting() is Some ==> self.awaiting()->0 == self.on_screen(),
    {
    }

    /// Slot 0 is on screen, and nothing awaits a frame.
    pub fn new() -> (r: Self)
        ensures
            r.wf(),
            r.on_screen() == 0,
            r.awaiting() is None,
    {
        Presenter { shown: 0, pending: None }
    }

    /// The slot to show next, where the active source has a size and the
    /// renderer is up.
    pub fn present(
        &mut self,
        width: Option<i32>,
        height: Option<i32>,
        renderer_up: bool,
    ) -> (r: Presented)
        requires
            old(self).wf(),
        ensures
            final(self).wf(),
            (width is Some && height is Some && renderer_up) ==> {
                let slot = (1 - old(self).on_screen()) as usize;
                &&& r == (Presented::Show {
                    slot,
                    width: width->0 as u32,
                    height: height->0 as u32,
                })
                &&& slot < 2
                &&& final(self).on_screen() == 1 - old(self).on_screen()
                &&& final(self).awaiting() == Some(slot)
            },
            (width is Some && height is Some && !renderer_up) ==> {
                &&& r is Retry
                &&& *final(self) == *old(self)
            },
            !(width is Some && height is Some) ==> {
                &&& r is Nothing
                &&& *final(self) == *old(self)
            },
    {
        match (width, height) {
            (Some(w), Some(h)) => {
                if !renderer_up {
                    return Presented::Retry;
                }
                let slot: usize = 1 - self.shown;
                self.pending = Some(slot);
                self.shown = slot;
                Presented::Show { slot, width: w as u32, height: h as u32 }
            },
            _ => Presented::Nothing,
        }
    }

    /// Takes the slot that has to be filled before the next frame is drawn.
    pub fn take_pending(&mut self) -> (r: Option<usize>)
        requires
            old(self).wf(),
        ensures
            final(self).wf(),
            r == old(self).awaiting(),
            r is Some ==> r->0 < 2,
            final(self).awaiting() is None,
            final(self).on_screen() == old(self).on_screen(),
    {
        let r = self.pending;
        self.pending = None;
        r
    }
}

/// Each present shows another texture than the one before it, so that the
/// window takes the image for a changed one and repaints.
pub proof fn each_present_shows_the_other_texture(
    before: Presenter,
    after: Presenter,
    textures: VideoTexture,
)
    requires
        before.wf(),
        after.on_screen() == 1 - before.on_screen(),
        textures.names()[0] != textures.names()[1],
    ensures
        0 <= after.on_screen() < 2,
        textures.names()[after.on_screen()] != textures.names()[before.on_screen()],
{
}

} // verus!
