use vstd::prelude::*;
use vstd::arithmetic::div_mod::lemma_fundamental_div_mod_converse;

verus! {

/// A decoded image: RGBA, 8 bits per channel, row-major, 4 bytes per pixel.
pub struct PixelBuffer {
    pub width: u32,
    pub height: u32,
    pub rgba: Vec<u8>,
}

impl PixelBuffer {
    pub open spec fn wf(self) -> bool {
        self.rgba@.len() == 4 * self.width * self.height
    }
}

/// The side of the square canvas a source is letterboxed onto: the larger
/// of its two dimensions.
pub open spec fn canvas_side(width: u32, height: u32) -> u32 {
    if width >= height {
        width
    } else {
        height
    }
}

/// One byte of the letterboxed canvas: the source byte where the centered
/// source rectangle lies, opaque black padding elsewhere. `x`, `y` are
/// canvas coordinates, `c` the channel (alpha is channel 3).
pub open spec fn letterbox_pixel(width: u32, height: u32, px: Seq<u8>, x: int, y: int, c: int) -> u8 {
    let s = canvas_side(width, height) as int;
    let xo = (s - width) / 2;
    let yo = (s - height) / 2;
    if xo <= x < xo + width && yo <= y < yo + height {
        px[4 * ((y - yo) * width + (x - xo)) + c]
    } else if c == 3 {
        255u8
    } else {
        0u8
    }
}

/// The whole letterboxed canvas, as one row-major RGBA byte sequence.
pub open spec fn letterbox_spec(width: u32, height: u32, px: Seq<u8>) -> Seq<u8> {
    let s = canvas_side(width, height) as int;
    Seq::new(
        (4 * s * s) as nat,
        |i: int| letterbox_pixel(width, height, px, (i / 4) % s, (i / 4) / s, i % 4),
    )
}

/// Whether the square canvas for a source of these dimensions fits in
/// memory at all.
pub open spec fn letterbox_fits(width: u32, height: u32) -> bool {
    4 * (canvas_side(width, height) as int) * (canvas_side(width, height) as int) <= usize::MAX
}

/// Where byte `4 * (y * s + x) + c` of a row-major canvas of side `s`
/// falls: back on pixel `(x, y)`, channel `c`.
proof fn lemma_cell_index(s: int, x: int, y: int, c: int)
    requires
        s > 0,
        0 <= x < s,
        0 <= y < s,
        0 <= c < 4,
    ensures
        0 <= 4 * (y * s + x) + c < 4 * s * s,
        (4 * (y * s + x) + c) / 4 == y * s + x,
        (4 * (y * s + x) + c) % 4 == c,
        (y * s + x) / s == y,
        (y * s + x) % s == x,
{
    let p = y * s + x;
    assert(0 <= p && p < s * s) by (nonlinear_arith)
        requires
            0 <= y < s,
            0 <= x < s,
            p == y * s + x,
    ;
    assert(4 * p + c == p * 4 + c);
    lemma_fundamental_div_mod_converse(4 * p + c, 4, p, c);
    lemma_fundamental_div_mod_converse(p, s, y, x);
    assert(4 * p + c < 4 * s * s) by (nonlinear_arith)
        requires
            p < s * s,
            0 <= c < 4,
    ;
}

/// Letterbox a source of `width` by `height` RGBA bytes onto its square
/// canvas: the source is centered, pixel for pixel, and the rest of the
/// canvas is opaque black. No scaling, no resampling.
pub fn letterbox_rgba(width: u32, height: u32, px: &Vec<u8>) -> (out: Vec<u8>)
    requires
        px@.len() == 4 * width * height,
        width >= 1,
        height >= 1,
        letterbox_fits(width, height),
    ensures
        out@ == letterbox_spec(width, height, px@),
{
    let s_u32: u32 = if width >= height {
        width
    } else {
        height
    };
    let s: usize = s_u32 as usize;
    let w: usize = width as usize;
    let h: usize = height as usize;
    let xo: usize = (s - w) / 2;
    let yo: usize = (s - h) / 2;
    let px_len: usize = px.len();
    let ghost lb = letterbox_spec(width, height, px@);
    proof {
        assert(lb.len() == 4 * (s as int) * (s as int));
    }
    let mut out: Vec<u8> = Vec::new();
    proof {
        assert(out@.len() == 0);
        assert(4 * (0 as int) * (s as int) == 0) by (nonlinear_arith);
        assert(out@ =~= lb.take(0));
    }
    let mut y: usize = 0;
    while y < s
        invariant
            width >= 1,
            height >= 1,
            s == canvas_side(width, height),
            w == width,
            h == height,
            xo == ((s - w) / 2) as usize,
            yo == ((s - h) / 2) as usize,
            px@.len() == 4 * width * height,
            px_len == px@.len(),
            4 * (s as int) * (s as int) <= usize::MAX,
            lb == letterbox_spec(width, height, px@),
            lb.len() == 4 * (s as int) * (s as int),
            y <= s,
            out@.len() == 4 * (y as int) * (s as int),
            out@ == lb.take(out@.len() as int),
        decreases s - y,
    {
        let mut x: usize = 0;
        while x < s
            invariant
                width >= 1,
                height >= 1,
                s == canvas_side(width, height),
                w == width,
                h == height,
                xo == ((s - w) / 2) as usize,
                yo == ((s - h) / 2) as usize,
                px@.len() == 4 * width * height,
                px_len == px@.len(),
                4 * (s as int) * (s as int) <= usize::MAX,
                lb == letterbox_spec(width, height, px@),
                lb.len() == 4 * (s as int) * (s as int),
                y < s,
                x <= s,
                out@.len() == 4 * (y as int) * (s as int) + 4 * (x as int),
                out@ == lb.take(out@.len() as int),
            decreases s - x,
        {
            let in_x = x >= xo && x < xo + w;
            let in_y = y >= yo && y < yo + h;
            let mut c: usize = 0;
            while c < 4
                invariant
                    width >= 1,
                    height >= 1,
                    s == canvas_side(width, height),
                    w == width,
                    h == height,
                    xo == ((s - w) / 2) as usize,
                    yo == ((s - h) / 2) as usize,
                    px@.len() == 4 * width * height,
                    px_len == px@.len(),
                    4 * (s as int) * (s as int) <= usize::MAX,
                    lb == letterbox_spec(width, height, px@),
                    lb.len() == 4 * (s as int) * (s as int),
                    y < s,
                    x < s,
                    c <= 4,
                    in_x == (xo <= x < xo + w),
                    in_y == (yo <= y < yo + h),
                    out@.len() == 4 * (y as int) * (s as int) + 4 * (x as int) + c,
                    out@ == lb.take(out@.len() as int),
                decreases 4 - c,
            {
                let ghost li: int = out@.len() as int;
                proof {
                    lemma_cell_index(s as int, x as int, y as int, c as int);
                    assert(li == 4 * ((y as int) * (s as int) + (x as int)) + (c as int))
                        by (nonlinear_arith)
                        requires
                            li == 4 * (y as int) * (s as int) + 4 * (x as int) + (c as int),
                    ;
                    assert(lb[li] == letterbox_pixel(width, height, px@, x as int, y as int,
                    c as int));
                }
                let v: u8 = if in_x && in_y {
                    proof {
                        assert(0 <= ((y - yo) as int) * (width as int) + ((x - xo) as int) < (
                        width as int) * (height as int)) by (nonlinear_arith)
                            requires
                                0 <= (y - yo) as int,
                                ((y - yo) as int) < (height as int),
                                0 <= (x - xo) as int,
                                ((x - xo) as int) < (width as int),
                        ;
                        assert(4 * ((width as int) * (height as int)) == px@.len())
                            by (nonlinear_arith)
                            requires
                                px@.len() == 4 * (width as int) * (height as int),
                        ;
                    }
                    px[4 * ((y - yo) * w + (x - xo)) + c]
                } else if c == 3 {
                    255
                } else {
                    0
                };
                proof {
                    assert(lb[li] == v);
                }
                out.push(v);
                proof {
                    assert(out@ =~= lb.take(li + 1)) by {
                        assert(lb.take(li + 1) =~= lb.take(li).push(lb[li]));
                    }
                }
                c = c + 1;
            }
            x = x + 1;
        }
        proof {
            assert(4 * (y as int) * (s as int) + 4 * (s as int) == 4 * ((y + 1) as int) * (
            s as int)) by (nonlinear_arith);
        }
        y = y + 1;
    }
    proof {
        assert(out@ =~= lb);
    }
    out
}

/// What decoding a byte string as an image yields, if anything: the
/// dimensions and the row-major RGBA bytes. A function of the bytes alone.
pub uninterp spec fn image_decoding(bytes: Seq<u8>) -> Option<(u32, u32, Seq<u8>)>;

/// The PNG encoding of a row-major RGBA buffer of the given dimensions. A
/// function of the dimensions and bytes alone.
pub uninterp spec fn png_encoding(width: u32, height: u32, rgba: Seq<u8>) -> Seq<u8>;

/// Relies on `image::load_from_memory` and `DynamicImage::to_rgba8`:
/// decoding depends on the bytes alone, and a decoded RGBA8 buffer holds
/// exactly `4 * width * height` bytes.
#[verifier::external_body]
fn decode_rgba(bytes: &Vec<u8>) -> (r: Option<(u32, u32, Vec<u8>)>)
    ensures
        r is Some <==> image_decoding(bytes@) is Some,
        r matches Some(t) ==> image_decoding(bytes@) == Some((t.0, t.1, t.2@)) && t.2@.len() == 4
            * t.0 * t.1,
{
    match image::load_from_memory(bytes) {
        Ok(img) => {
            let rgba = img.to_rgba8();
            let width = rgba.width();
            let height = rgba.height();
            Some((width, height, rgba.into_raw()))
        },
        Err(_) => None,
    }
}

/// Relies on `RgbaImage::from_raw` and `ImageBuffer::write_to` with the PNG
/// format: `from_raw` accepts a buffer of exactly `4 * width * height`
/// bytes, encoding to an in-memory cursor cannot hit an I/O error and does
/// not fail on a non-empty image, and the encoded bytes depend on the
/// dimensions and pixel bytes alone.
#[verifier::external_body]
fn encode_png(width: u32, height: u32, rgba: &Vec<u8>) -> (r: Vec<u8>)
    requires
        rgba@.len() == 4 * width * height,
        width >= 1,
        height >= 1,
    ensures
        r@ == png_encoding(width, height, rgba@),
{
    let buf = image::RgbaImage::from_raw(width, height, rgba.clone()).unwrap();
    let mut cursor = std::io::Cursor::new(Vec::new());
    buf.write_to(&mut cursor, image::ImageFormat::Png).unwrap();
    cursor.into_inner()
}

/// Decode encoded image bytes into a pixel buffer, if they form an image.
pub fn decode_image(bytes: &Vec<u8>) -> (r: Option<PixelBuffer>)
    ensures
        r is Some <==> image_decoding(bytes@) is Some,
        r matches Some(img) ==> img.wf() && image_decoding(bytes@) == Some(
            (img.width, img.height, img.rgba@),
        ),
{
    match decode_rgba(bytes) {
        Some((width, height, rgba)) => Some(PixelBuffer { width, height, rgba }),
        None => None,
    }
}

/// Encode a non-empty pixel buffer as PNG bytes.
pub fn encode_image(img: &PixelBuffer) -> (r: Vec<u8>)
    requires
        img.wf(),
        img.width >= 1,
        img.height >= 1,
    ensures
        r@ == png_encoding(img.width, img.height, img.rgba@),
{
    encode_png(img.width, img.height, &img.rgba)
}

/// Letterbox a pixel buffer onto its square canvas. `None` exactly when the
/// source is empty in either dimension or the canvas would not fit in
/// memory.
pub fn letterbox_image(img: &PixelBuffer) -> (r: Option<PixelBuffer>)
    requires
        img.wf(),
    ensures
        r is Some <==> (img.width >= 1 && img.height >= 1 && letterbox_fits(
            img.width,
            img.height,
        )),
        r matches Some(out) ==> out.wf() && out.width == canvas_side(img.width, img.height)
            && out.height == canvas_side(img.width, img.height) && out.rgba@ == letterbox_spec(
            img.width,
            img.height,
            img.rgba@,
        ),
{
    if img.width == 0 || img.height == 0 {
        return None;
    }
    let side: u32 = if img.width >= img.height {
        img.width
    } else {
        img.height
    };
    let s: usize = side as usize;
    let four_s: usize = match 4usize.checked_mul(s) {
        Some(t) => t,
        None => {
            proof {
                assert(4 * (s as int) * (s as int) > usize::MAX) by (nonlinear_arith)
                    requires
                        4 * (s as int) > usize::MAX,
                        s >= 1,
                ;
            }
            return None;
        },
    };
    match four_s.checked_mul(s) {
        Some(_) => {
            let out = letterbox_rgba(img.width, img.height, &img.rgba);
            Some(PixelBuffer { width: side, height: side, rgba: out })
        },
        None => None,
    }
}

/// What the in-place transform leaves in the byte buffer, when it applies:
/// the PNG encoding of the decoded image letterboxed onto its square
/// canvas.
pub open spec fn letterboxed_png(bytes: Seq<u8>) -> Option<Seq<u8>> {
    match image_decoding(bytes) {
        None => None,
        Some((width, height, px)) => if width >= 1 && height >= 1 && letterbox_fits(
            width,
            height,
        ) {
            Some(
                png_encoding(
                    canvas_side(width, height),
                    canvas_side(width, height),
                    letterbox_spec(width, height, px),
                ),
            )
        } else {
            None
        },
    }
}

/// Letterbox encoded image bytes in place: decode, pad onto the square
/// canvas, re-encode as PNG. Returns `false`, with the buffer untouched,
/// when the bytes do not decode as an image, the image is empty in either
/// dimension, or the canvas would not fit in memory.
pub fn apply_letterboxing(buffer: &mut Vec<u8>) -> (ok: bool)
    ensures
        ok <==> letterboxed_png(old(buffer)@) is Some,
        ok ==> Some(final(buffer)@) == letterboxed_png(old(buffer)@),
        !ok ==> final(buffer)@ == old(buffer)@,
{
    let decoded = decode_image(buffer);
    match decoded {
        None => false,
        Some(img) => {
            match letterbox_image(&img) {
                None => false,
                Some(out) => {
                    let encoded = encode_image(&out);
                    *buffer = encoded;
                    true
                },
            }
        },
    }
}

} // verus!
