use raytracer::image::{render, Pixel, PixelShader, RenderSettings};
use raytracer::ppm::encode;
use raytracer::traced::TracedShader;

/// Closes every pixel to the pixel of its column, or to `rest` past the
/// listed columns.
struct Fixed {
    by_column: Vec<Pixel>,
    rest: Pixel,
}

impl PixelShader for Fixed {
    fn sample(&mut self, _column: u32, _scanline: u32) {}

    fn finish(&mut self, column: u32, _scanline: u32) -> Pixel {
        *self.by_column.get(column as usize).unwrap_or(&self.rest)
    }
}

#[test]
fn encodes_header_and_pixel_lines() {
    let s = RenderSettings::new(2, 1, 1).unwrap();
    let mut shader = TracedShader::new(Fixed {
        by_column: vec![Pixel { r: 0, g: 128, b: 255 }, Pixel { r: 7, g: 10, b: 99 }],
        rest: Pixel { r: 0, g: 0, b: 0 },
    });
    let img = render(&s, &mut shader);
    let text = String::from_utf8(encode(&img)).unwrap();
    assert_eq!(text, "P3\n2 1\n255\n0 128 255\n7 10 99\n");
}

#[test]
fn encodes_multi_digit_size() {
    let s = RenderSettings::new(1200, 800, 1).unwrap();
    let mut shader =
        TracedShader::new(Fixed { by_column: Vec::new(), rest: Pixel { r: 1, g: 2, b: 3 } });
    let img = render(&s, &mut shader);
    let text = String::from_utf8(encode(&img)).unwrap();
    assert!(text.starts_with("P3\n1200 800\n255\n1 2 3\n"));
    assert_eq!(text.lines().count(), 3 + 1200 * 800);
}
