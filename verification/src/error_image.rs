//! The placeholder image answered when a capture fails: a flat
//! 400 x 200 card in a pale warning color, encoded as PNG.
use vstd::prelude::*;

verus! {

/// Width of the placeholder card, in pixels.
pub const ERROR_IMAGE_WIDTH: u32 = 400;

/// Height of the placeholder card, in pixels.
pub const ERROR_IMAGE_HEIGHT: u32 = 200;

/// The raw RGB bytes of the card: every pixel is (255, 200, 200).
pub open spec fn spec_error_pixels() -> Seq<u8> {
    Seq::new(240000, |i: int| if i % 3 == 0 { 255u8 } else { 200u8 })
}

/// What image's PNG encoder produces for an RGB8 buffer of the given
/// dimensions; a pure function of its arguments.
pub uninterp spec fn png_of(width: u32, height: u32, rgb: Seq<u8>) -> Seq<u8>;

/// Relies on image::codecs::png::PngEncoder::write_image: deterministic
/// PNG encoding of an RGB8 buffer into an in-memory writer. The buffer
/// must hold exactly three bytes per pixel and the dimensions must be
/// positive, or the encoder panics or errors.
#[verifier::external_body]
fn encode_png_rgb(width: u32, height: u32, rgb: &Vec<u8>) -> (r: Vec<u8>)
    requires
        0 < width,
        0 < height,
        rgb@.len() == 3 * width * height,
    ensures
        r@ == png_of(width, height, rgb@),
{
    let mut buf = Vec::new();
    let encoder = image::codecs::png::PngEncoder::new(&mut buf);
    image::ImageEncoder::write_image(encoder, rgb, width, height, image::ExtendedColorType::Rgb8)
        .unwrap();
    buf
}

/// Fills the card's pixel buffer.
fn error_pixel_buffer() -> (r: Vec<u8>)
    ensures
        r@ == spec_error_pixels(),
{
    let mut buf: Vec<u8> = Vec::new();
    let mut i: usize = 0;
    while i < 240000
        invariant
            i <= 240000,
            buf@.len() == i,
            forall|j: int| 0 <= j < i ==> buf@[j] == spec_error_pixels()[j],
        decreases 240000 - i,
    {
        if i % 3 == 0 {
            buf.push(255);
        } else {
            buf.push(200);
        }
        i = i + 1;
    }
    proof {
        assert(buf@ =~= spec_error_pixels());
    }
    buf
}

/// The PNG placeholder answered for a failed capture. The message is
/// accepted for interface stability but not rendered: the card is a
/// plain colored field.
pub fn create_error_image(_error_msg: &str) -> (r: Vec<u8>)
    ensures
        r@ == png_of(ERROR_IMAGE_WIDTH, ERROR_IMAGE_HEIGHT, spec_error_pixels()),
{
    let pixels = error_pixel_buffer();
    encode_png_rgb(ERROR_IMAGE_WIDTH, ERROR_IMAGE_HEIGHT, &pixels)
}

} // verus!
