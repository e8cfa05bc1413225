use vstd::prelude::*;

use crate::image::{Pixel, PixelShader, ShaderCall};
use crate::path::{Bounce, RayTracer};

verus! {

/// A ray tracer together with the record of what each of its traced rays
/// did, in order. Only `trace` adds to the record.
pub struct TracedPath<T: RayTracer> {
    tracer: T,
    bounces: Ghost<Seq<Bounce>>,
}

impl<T: RayTracer> TracedPath<T> {
    /// What the rays traced through this value did, in order.
    pub closed spec fn log(&self) -> Seq<Bounce> {
        self.bounces@
    }

    /// Starts recording `tracer` with an empty record.
    pub fn new(tracer: T) -> (r: TracedPath<T>)
        ensures
            r.log() == Seq::<Bounce>::empty(),
    {
        TracedPath { tracer, bounces: Ghost(Seq::empty()) }
    }

    /// Traces the current ray at `depth` and records what it did.
    pub fn trace(&mut self, depth: u32) -> (b: Bounce)
        ensures
            final(self).log() == old(self).log().push(b),
    {
        let b = self.tracer.trace(depth);
        self.bounces = Ghost(self.bounces@.push(b));
        b
    }

    /// The recorded tracer.
    pub fn tracer(&self) -> &T {
        &self.tracer
    }

    /// Gives the recorded tracer back.
    pub fn into_inner(self) -> T {
        self.tracer
    }
}

/// A pixel shader together with the record of the calls made on it, in
/// order. Only `sample` and `finish` add to the record.
pub struct TracedShader<S: PixelShader> {
    shader: S,
    calls: Ghost<Seq<ShaderCall>>,
}

impl<S: PixelShader> TracedShader<S> {
    /// The calls made through this value, in order.
    pub closed spec fn log(&self) -> Seq<ShaderCall> {
        self.calls@
    }

    /// Starts recording `shader` with an empty record.
    pub fn new(shader: S) -> (r: TracedShader<S>)
        ensures
            r.log() == Seq::<ShaderCall>::empty(),
    {
        TracedShader { shader, calls: Ghost(Seq::empty()) }
    }

    /// Draws one sample of the pixel in `column` of `scanline` and records it.
    pub fn sample(&mut self, column: u32, scanline: u32)
        ensures
            final(self).log() == old(self).log().push(ShaderCall::Sample { column, scanline }),
    {
        self.shader.sample(column, scanline);
        self.calls = Ghost(self.calls@.push(ShaderCall::Sample { column, scanline }));
    }

    /// Closes the pixel in `column` of `scanline` and records it.
    pub fn finish(&mut self, column: u32, scanline: u32) -> (pixel: Pixel)
        ensures
            final(self).log() == old(self).log().push(
                ShaderCall::Finish { column, scanline, pixel },
            ),
    {
        let pixel = self.shader.finish(column, scanline);
        self.calls = Ghost(self.calls@.push(ShaderCall::Finish { column, scanline, pixel }));
        pixel
    }

    /// The recorded shader.
    pub fn shader(&self) -> &S {
        &self.shader
    }

    /// Gives the recorded shader back.
    pub fn into_inner(self) -> S {
        self.shader
    }
}

} // verus!
