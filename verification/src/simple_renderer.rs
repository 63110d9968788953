//! The drawing surface, as far as the simulation needs to know it.

use crate::particle::Particle;
use crate::scalar::Scalar;
use vstd::prelude::*;

verus! {

/// The size of the surface that the particles are drawn on, in pixels.
pub struct Renderer {
    pub width: u32,
    pub height: u32,
}

impl Renderer {
    /// A renderer for a surface of 1920 by 1080 pixels.
    pub fn new() -> (r: Self)
        ensures
            r.width == 1920,
            r.height == 1080,
    {
        Renderer { width: 1920, height: 1080 }
    }

    /// Takes over a new size of the surface.
    pub fn resize(&mut self, width: u32, height: u32)
        ensures
            final(self).width == width,
            final(self).height == height,
    {
        self.width = width;
        self.height = height;
    }

    /// Takes the particles of one frame and says how many there are to draw:
    /// their number, or `None` where there are none. The renderer itself does
    /// not change.
    pub fn render<S: Scalar>(&mut self, particles: &[Particle<S>]) -> (r: Result<
        Option<usize>,
        String,
    >)
        ensures
            *final(self) == *old(self),
            r is Ok,
            r->Ok_0 == (if particles@.len() > 0 {
                Some(particles@.len() as usize)
            } else {
                None
            }),
    {
        if particles.len() > 0 {
            Ok(Some(particles.len()))
        } else {
            Ok(None)
        }
    }
}

} // verus!
