//! The colours of a painted page, as an image file wants them.
use image::RgbaImage;
use vstd::prelude::*;

verus! {

/// Pixels with the first and the third byte of each exchanged. Bytes behind the last whole pixel
/// stay.
pub open spec fn exchanged(pixels: Seq<u8>) -> Seq<u8> {
    Seq::new(
        pixels.len(),
        |i: int|
            if i >= pixels.len() - pixels.len() % 4 {
                pixels[i]
            } else if i % 4 == 0 {
                pixels[i + 2]
            } else if i % 4 == 2 {
                pixels[i - 2]
            } else {
                pixels[i]
            },
    )
}

/// Whether an image of the given size can be made of so many bytes. A row has to fit into memory
/// even where there are no rows.
pub open spec fn enough_bytes(width: u32, height: u32, length: nat) -> bool {
    4 * width <= usize::MAX && 4 * width * height <= length
}

/// Turns blue, green, red, alpha into red, green, blue, alpha.
pub fn bgra_to_rgba(bgra: &[u8]) -> (rgba: Vec<u8>)
    ensures
        rgba@ == exchanged(bgra@),
{
    let mut rgba: Vec<u8> = Vec::new();
    let length: usize = bgra.len();
    let whole: usize = length - length % 4;
    let mut index: usize = 0;
    while index < length
        invariant
            index <= length,
            length == bgra@.len(),
            length == bgra.len(),
            whole == length - length % 4,
            rgba@ == exchanged(bgra@).take(index as int),
        decreases length - index,
    {
        let byte: u8 = if index >= whole {
            bgra[index]
        } else if index % 4 == 0 {
            bgra[index + 2]
        } else if index % 4 == 2 {
            bgra[index - 2]
        } else {
            bgra[index]
        };
        rgba.push(byte);
        assert(exchanged(bgra@).take(index + 1) =~= exchanged(bgra@).take(index as int).push(byte));
        index += 1;
    }
    assert(exchanged(bgra@).take(length as int) =~= exchanged(bgra@));
    rgba
}

/// Calls `image::RgbaImage::from_raw`, which makes an image if there are at least four bytes for
/// each pixel, and then keeps the size and the bytes as they are. The image is given back as its
/// width, its height and its bytes.
#[verifier::external_body]
fn image_from_raw(width: u32, height: u32, buffer: Vec<u8>) -> (image: Option<(u32, u32, Vec<u8>)>)
    ensures
        image is Some <==> enough_bytes(width, height, buffer@.len()),
        image matches Some((image_width, image_height, data)) ==> image_width == width
            && image_height == height && data@ == buffer@,
{
    RgbaImage::from_raw(width, height, buffer).map(
        |image| (image.width(), image.height(), image.into_raw()),
    )
}

/// The image of a painted page, if there are enough bytes for its size.
pub fn painted_image(bgra: &[u8], width: u32, height: u32) -> (image: Option<(u32, u32, Vec<u8>)>)
    ensures
        image is Some <==> enough_bytes(width, height, bgra@.len()),
        image matches Some((image_width, image_height, data)) ==> image_width == width
            && image_height == height && data@ == exchanged(bgra@),
{
    image_from_raw(width, height, bgra_to_rgba(bgra))
}

/// Exchanging the colours twice changes nothing.
pub proof fn law_exchanging_twice_changes_nothing(pixels: Seq<u8>)
    ensures
        exchanged(exchanged(pixels)) == pixels,
{
    assert(exchanged(exchanged(pixels)) =~= pixels);
}

/// Of every whole pixel the first and the third byte change places, and the second and the fourth stay; so do
/// the bytes behind the last whole pixel.
pub proof fn law_first_and_third_byte_change_places(pixels: Seq<u8>, pixel: int)
    requires
        0 <= pixel,
        4 * pixel + 4 <= pixels.len(),
    ensures
        exchanged(pixels).len() == pixels.len(),
        exchanged(pixels)[4 * pixel] == pixels[4 * pixel + 2],
        exchanged(pixels)[4 * pixel + 1] == pixels[4 * pixel + 1],
        exchanged(pixels)[4 * pixel + 2] == pixels[4 * pixel],
        exchanged(pixels)[4 * pixel + 3] == pixels[4 * pixel + 3],
        forall|i: int|
            pixels.len() / 4 * 4 <= i < pixels.len() ==> #[trigger] exchanged(pixels)[i] == pixels[i],
{
}

/// An image needs four bytes for each of its pixels; more do not matter.
pub proof fn law_image_needs_four_bytes_a_pixel(width: u32, height: u32, length: nat, more: nat)
    requires
        4 * width <= usize::MAX,
    ensures
        enough_bytes(width, height, length) <==> length >= width * height * 4,
        enough_bytes(width, height, length) ==> enough_bytes(width, height, length + more),
{
    assert(4 * width * height == width * height * 4) by (nonlinear_arith);
}

} // verus!
