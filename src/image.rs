use vstd::prelude::*;

use crate::traced::TracedShader;

verus! {

/// One output pixel: 8-bit red, green and blue channels.
#[derive(Clone, Copy, Debug, PartialEq, Eq, Structural)]
pub struct Pixel {
    pub r: u8,
    pub g: u8,
    pub b: u8,
}

/// Why render settings were refused.
#[derive(Clone, Copy, Debug, PartialEq, Eq, Structural)]
pub enum SettingsError {
    /// The image has no columns or no rows.
    EmptyImage,
    /// Each pixel needs at least one sample.
    NoSamples,
    /// The image has more pixels than memory can index.
    TooLarge,
}

/// The size of an image and the number of samples averaged per pixel.
#[derive(Clone, Copy, Debug, PartialEq, Eq, Structural)]
pub struct RenderSettings {
    pub width: u32,
    pub height: u32,
    pub samples: u32,
}

impl RenderSettings {
    /// Settings that a render can run on.
    pub open spec fn valid(&self) -> bool {
        &&& self.width > 0
        &&& self.height > 0
        &&& self.samples > 0
        &&& self.width * self.height <= usize::MAX
    }

    /// Checks the settings of a render.
    pub fn new(width: u32, height: u32, samples: u32) -> (r: Result<RenderSettings, SettingsError>)
        ensures
            (width == 0 || height == 0) <==> r == Err::<RenderSettings, _>(
                SettingsError::EmptyImage,
            ),
            (width > 0 && height > 0 && samples == 0) <==> r == Err::<RenderSettings, _>(
                SettingsError::NoSamples,
            ),
            (width > 0 && height > 0 && samples > 0 && width * height > usize::MAX) <==> r
                == Err::<RenderSettings, _>(SettingsError::TooLarge),
            r is Ok ==> r->Ok_0 == (RenderSettings { width, height, samples }) && r->Ok_0.valid(),
    {
        proof {
            assert((width as int) * (height as int) <= u64::MAX) by (nonlinear_arith)
                requires
                    width <= u32::MAX,
                    height <= u32::MAX,
            ;
        }
        if width == 0 || height == 0 {
            Err(SettingsError::EmptyImage)
        } else if samples == 0 {
            Err(SettingsError::NoSamples)
        } else if (width as u64) * (height as u64) > usize::MAX as u64 {
            Err(SettingsError::TooLarge)
        } else {
            Ok(RenderSettings { width, height, samples })
        }
    }

    /// Number of pixels of the image.
    pub fn pixel_count(&self) -> (r: usize)
        requires
            self.valid(),
        ensures
            r == self.width * self.height,
    {
        (self.width as usize) * (self.height as usize)
    }
}

/// What an image holds: its size and its pixels in row-major order, the top
/// scanline first.
pub struct ImageView {
    pub width: nat,
    pub height: nat,
    pub pixels: Seq<Pixel>,
}

/// A rendered image.
pub struct Image {
    width: u32,
    height: u32,
    pixels: Vec<Pixel>,
}

impl View for Image {
    type V = ImageView;

    closed spec fn view(&self) -> ImageView {
        ImageView { width: self.width as nat, height: self.height as nat, pixels: self.pixels@ }
    }
}

impl Image {
    /// One pixel per column of each scanline, and a size that memory can index.
    pub open spec fn wf(&self) -> bool {
        &&& self@.pixels.len() == self@.width * self@.height
        &&& self@.width * self@.height <= usize::MAX
    }

    pub fn width(&self) -> (r: u32)
        ensures
            r == self@.width,
    {
        self.width
    }

    pub fn height(&self) -> (r: u32)
        ensures
            r == self@.height,
    {
        self.height
    }

    /// The pixels, row-major, the top scanline first.
    pub fn pixels(&self) -> (r: &Vec<Pixel>)
        ensures
            r@ == self@.pixels,
    {
        &self.pixels
    }

    /// The pixel in `column` of `scanline`, scanlines counted from the top.
    pub fn pixel(&self, column: u32, scanline: u32) -> (r: Pixel)
        requires
            self.wf(),
            column < self@.width,
            scanline < self@.height,
        ensures
            r == self@.pixels[scanline * self@.width + column],
    {
        proof {
            lemma_row_major_index(self.width as int, self.height as int, scanline as int, column as int);
        }
        self.pixels[(scanline as usize) * (self.width as usize) + (column as usize)]
    }
}

/// In a row-major grid the cell at (`row`, `column`) comes before the end of
/// its row, and so before every cell of a later row.
proof fn lemma_row_major_index(width: int, height: int, row: int, column: int)
    requires
        0 <= row < height,
        0 <= column < width,
    ensures
        0 <= row * width + column < (row + 1) * width <= height * width,
{
    assert(0 <= row * width) by (nonlinear_arith)
        requires
            0 <= row,
            0 <= width,
    ;
    assert((row + 1) * width <= height * width) by (nonlinear_arith)
        requires
            row + 1 <= height,
            0 <= width,
    ;
    assert((row + 1) * width == row * width + width) by (nonlinear_arith);
}

/// The per-pixel work of a render: draws samples of a pixel and closes the
/// pixel from them.
pub trait PixelShader {
    /// Draws one more sample of the pixel in `column` of `scanline`.
    fn sample(&mut self, column: u32, scanline: u32);

    /// Closes the pixel in `column` of `scanline` from the samples drawn for
    /// it, and gets ready for the next pixel.
    fn finish(&mut self, column: u32, scanline: u32) -> Pixel;
}

/// One call that a render makes on its shader.
#[derive(Clone, Copy, Debug, PartialEq, Eq, Structural)]
pub enum ShaderCall {
    Sample { column: u32, scanline: u32 },
    Finish { column: u32, scanline: u32, pixel: Pixel },
}

/// The calls that shade one pixel: `samples` samples of it, then closing it
/// to `pixel`.
pub open spec fn pixel_calls(column: u32, scanline: u32, samples: nat, pixel: Pixel) -> Seq<
    ShaderCall,
> {
    Seq::new(samples, |i: int| ShaderCall::Sample { column, scanline }).push(
        ShaderCall::Finish { column, scanline, pixel },
    )
}

/// The calls that shade `pixels`, row-major in an image `width` wide with the
/// top scanline first, each from `samples` samples.
pub open spec fn render_calls(width: nat, samples: nat, pixels: Seq<Pixel>) -> Seq<ShaderCall>
    decreases pixels.len(),
{
    if pixels.len() == 0 {
        Seq::empty()
    } else {
        let k = pixels.len() - 1;
        render_calls(width, samples, pixels.drop_last()) + pixel_calls(
            (k % width as int) as u32,
            (k / width as int) as u32,
            samples,
            pixels.last(),
        )
    }
}

/// Shading pixels makes `samples` sample calls and one closing call per pixel.
pub proof fn lemma_render_calls_len(width: nat, samples: nat, pixels: Seq<Pixel>)
    ensures
        render_calls(width, samples, pixels).len() == pixels.len() * (samples + 1),
    decreases pixels.len(),
{
    if pixels.len() > 0 {
        lemma_render_calls_len(width, samples, pixels.drop_last());
        assert(pixels.len() * (samples + 1) == (pixels.len() - 1) * (samples + 1) + samples + 1)
            by (nonlinear_arith);
    }
}

/// A render of `settings` draws exactly `samples` samples for each of the
/// `width * height` pixels and closes each pixel once: `width * height *
/// (samples + 1)` shader calls in all.
pub proof fn lemma_render_call_count(settings: RenderSettings, pixels: Seq<Pixel>)
    requires
        settings.valid(),
        pixels.len() == settings.width * settings.height,
    ensures
        render_calls(settings.width as nat, settings.samples as nat, pixels).len()
            == settings.width * settings.height * (settings.samples + 1),
{
    lemma_render_calls_len(settings.width as nat, settings.samples as nat, pixels);
}

/// Renders an image pixel by pixel, row-major with the top scanline first:
/// for each pixel draws `settings.samples` samples from `shader`, then keeps
/// the pixel it closes to. The calls on `shader` are exactly those.
pub fn render<S: PixelShader>(settings: &RenderSettings, shader: &mut TracedShader<S>) -> (img:
    Image)
    requires
        settings.valid(),
    ensures
        img.wf(),
        img@.width == settings.width,
        img@.height == settings.height,
        final(shader).log() == old(shader).log() + render_calls(
            settings.width as nat,
            settings.samples as nat,
            img@.pixels,
        ),
{
    let width = settings.width;
    let height = settings.height;
    let samples = settings.samples;
    let mut pixels: Vec<Pixel> = Vec::new();
    let mut scanline: u32 = 0;
    while scanline < height
        invariant
            settings.valid(),
            width == settings.width,
            height == settings.height,
            samples == settings.samples,
            scanline <= height,
            pixels@.len() == scanline * width,
            shader.log() == old(shader).log() + render_calls(width as nat, samples as nat, pixels@),
        decreases height - scanline,
    {
        let mut column: u32 = 0;
        while column < width
            invariant
                settings.valid(),
                width == settings.width,
                height == settings.height,
                samples == settings.samples,
                scanline < height,
                column <= width,
                pixels@.len() == scanline * width + column,
                shader.log() == old(shader).log() + render_calls(
                    width as nat,
                    samples as nat,
                    pixels@,
                ),
            decreases width - column,
        {
            let ghost done = shader.log();
            let mut drawn: u32 = 0;
            while drawn < samples
                invariant
                    drawn <= samples,
                    shader.log() == done + Seq::new(
                        drawn as nat,
                        |i: int| ShaderCall::Sample { column, scanline },
                    ),
                decreases samples - drawn,
            {
                shader.sample(column, scanline);
                proof {
                    assert(Seq::new(
                        (drawn + 1) as nat,
                        |i: int| ShaderCall::Sample { column, scanline },
                    ) =~= Seq::new(drawn as nat, |i: int| ShaderCall::Sample { column, scanline }).push(
                        ShaderCall::Sample { column, scanline },
                    ));
                }
                drawn = drawn + 1;
            }
            let p = shader.finish(column, scanline);
            let ghost before = pixels@;
            proof {
                vstd::arithmetic::div_mod::lemma_fundamental_div_mod_converse(
                    before.len() as int,
                    width as int,
                    scanline as int,
                    column as int,
                );
            }
            pixels.push(p);
            proof {
                assert(pixels@.drop_last() =~= before);
                assert(shader.log() =~= old(shader).log() + render_calls(
                    width as nat,
                    samples as nat,
                    pixels@,
                ));
            }
            column = column + 1;
        }
        proof {
            assert((scanline + 1) * width == scanline * width + width) by (nonlinear_arith);
        }
        scanline = scanline + 1;
    }
    proof {
        assert(width * height == height * width) by (nonlinear_arith);
    }
    Image { width, height, pixels }
}

} // verus!
