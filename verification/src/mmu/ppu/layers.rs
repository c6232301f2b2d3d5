//! The layers of the picture.
use vstd::prelude::*;
use super::registers::{BG01CNT, BG23CNT, OFS};

verus! {

/// A layer that draws into the picture.
pub trait Layer {
    fn render(&mut self, pixels: &Vec<u16>);
}

/// A background: its control register and its scroll offsets.
pub struct BG<T> {
    pub cnt: T,
    pub hofs: OFS,
    pub vofs: OFS,
}

impl BG<BG01CNT> {
    pub fn new() -> (r: BG<BG01CNT>)
        ensures
            r.cnt == BG01CNT::zero(),
            r.hofs.offset == 0,
            r.vofs.offset == 0,
    {
        BG { cnt: BG01CNT::new(), hofs: OFS::new(), vofs: OFS::new() }
    }
}

impl BG<BG23CNT> {
    pub fn new_affine() -> (r: BG<BG23CNT>)
        ensures
            r.cnt.bg01cnt == BG01CNT::zero(),
            !r.cnt.wrap,
            r.hofs.offset == 0,
            r.vofs.offset == 0,
    {
        BG { cnt: BG23CNT::new(), hofs: OFS::new(), vofs: OFS::new() }
    }
}

impl<T> Layer for BG<T> {
    /// Backgrounds are not drawn by this renderer.
    fn render(&mut self, pixels: &Vec<u16>) {
    }
}

} // verus!
