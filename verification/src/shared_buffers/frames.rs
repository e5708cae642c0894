//! A picture that is drawn while another one is shown.

use crate::bytes::{zeroed, zeros};
use arc_swap::ArcSwap;
use std::sync::Arc;
use vstd::prelude::*;

verus! {

/// A picture, four bytes per pixel.
#[derive(Clone, Debug, PartialEq)]
pub struct Framebuffer {
    pub width: u32,
    pub height: u32,
    pub pixels: Vec<u8>,
}

/// What a picture shows.
pub ghost struct PictureView {
    pub width: u32,
    pub height: u32,
    pub pixels: Seq<u8>,
}

impl Framebuffer {
    pub open spec fn view(&self) -> PictureView {
        PictureView { width: self.width, height: self.height, pixels: self.pixels@ }
    }
}

/// An empty picture.
pub open spec fn empty_picture(width: u32, height: u32) -> PictureView {
    PictureView { width, height, pixels: zeros((width * height * 4) as nat) }
}

/// A slot that holds one picture.
#[verifier::external_body]
pub struct PictureSlot {
    slot: ArcSwap<Framebuffer>,
}

/// The picture in a slot.
pub uninterp spec fn slot_picture(slot: PictureSlot) -> PictureView;

impl PictureSlot {
    /// `ArcSwap::new`: the slot holds the picture that it is made with.
    #[verifier::external_body]
    fn holding(picture: Framebuffer) -> (r: Self)
        ensures
            slot_picture(r) == picture@,
    {
        Self { slot: ArcSwap::new(Arc::new(picture)) }
    }

    /// `ArcSwap::store`: the slot holds the new picture in place of the old one.
    #[verifier::external_body]
    fn store(&mut self, picture: Arc<Framebuffer>)
        ensures
            slot_picture(*final(self)) == picture@,
    {
        self.slot.store(picture);
    }

    /// `ArcSwap::load_full`: a handle on the picture that the slot holds.
    #[verifier::external_body]
    fn load(&self) -> (r: Arc<Framebuffer>)
        ensures
            r@ == slot_picture(*self),
    {
        self.slot.load_full()
    }
}

/// Two pictures: the one shown, and the one being drawn.
pub struct DoubleBufferedFramebuffer {
    pub front: PictureSlot,
    pub back: PictureSlot,
}

/// The two pictures.
pub ghost struct DoubleView {
    pub front: PictureView,
    pub back: PictureView,
}

/// The pictures change places.
pub open spec fn exchanged(v: DoubleView) -> DoubleView {
    DoubleView { front: v.back, back: v.front }
}

/// Another picture in the back.
pub open spec fn drawn_over(v: DoubleView, picture: PictureView) -> DoubleView {
    DoubleView { back: picture, ..v }
}

impl DoubleBufferedFramebuffer {
    pub open spec fn view(&self) -> DoubleView {
        DoubleView { front: slot_picture(self.front), back: slot_picture(self.back) }
    }

    /// Two empty pictures.
    pub fn new(width: u32, height: u32) -> (r: Self)
        requires
            width * height * 4 <= u32::MAX,
        ensures
            r@ == (DoubleView {
                front: empty_picture(width, height),
                back: empty_picture(width, height),
            }),
    {
        assert(0 <= width * height) by (nonlinear_arith)
            requires
                width >= 0,
                height >= 0,
        ;
        let size: usize = (width * height * 4) as usize;
        Self {
            front: PictureSlot::holding(Framebuffer { width, height, pixels: zeroed(size) }),
            back: PictureSlot::holding(Framebuffer { width, height, pixels: zeroed(size) }),
        }
    }

    /// Show what was drawn, and draw over what was shown.
    pub fn swap(&mut self)
        ensures
            final(self)@ == exchanged(old(self)@),
    {
        let front: Arc<Framebuffer> = self.front.load();
        let back: Arc<Framebuffer> = self.back.load();
        self.front.store(back);
        self.back.store(front);
    }

    /// Put a picture in the back, in place of the one there.
    pub fn draw(&mut self, picture: Framebuffer)
        ensures
            final(self)@ == drawn_over(old(self)@, picture@),
    {
        self.back.store(Arc::new(picture));
    }

    /// The picture in the back.
    pub fn drawn(&self) -> (r: Arc<Framebuffer>)
        ensures
            r@ == self@.back,
    {
        self.back.load()
    }

    /// The picture shown.
    pub fn shown(&self) -> (r: Arc<Framebuffer>)
        ensures
            r@ == self@.front,
    {
        self.front.load()
    }
}

/// Swapping twice shows the first picture again.
pub proof fn swap_is_an_involution(v: DoubleView)
    ensures
        exchanged(exchanged(v)) == v,
{
}

/// What is drawn is not shown before the swap, and is after it.
pub proof fn swap_shows_what_was_drawn(v: DoubleView, picture: PictureView)
    ensures
        drawn_over(v, picture).front == v.front,
        exchanged(drawn_over(v, picture)).front == picture,
        exchanged(drawn_over(v, picture)).back == v.front,
{
}

} // verus!
