use vstd::prelude::*;

verus! {

/// The byte length of a `width` by `height` RGBA image.
pub open spec fn rgba_len(width: nat, height: nat) -> nat {
    width * height * 4
}

/// `s` with the first and third byte of every whole four-byte pixel exchanged; a trailing
/// partial pixel is left as it is. This turns BGRA into RGBA and back.
pub open spec fn swap_channels(s: Seq<u8>) -> Seq<u8> {
    let whole = s.len() - s.len() % 4;
    Seq::new(
        s.len(),
        |i: int|
            if i < whole && i % 4 == 0 {
                s[i + 2]
            } else if i < whole && i % 4 == 2 {
                s[i - 2]
            } else {
                s[i]
            },
    )
}

/// Exchanging the channel pairs twice gives back the original bytes.
pub proof fn lemma_swap_channels_involution(s: Seq<u8>)
    ensures
        swap_channels(swap_channels(s)) == s,
{
    let t = swap_channels(s);
    assert(swap_channels(t) =~= s);
}

/// Exchanges the first and third byte of every whole four-byte pixel in place.
pub fn swap_red_blue(buf: &mut Vec<u8>)
    ensures
        final(buf)@ == swap_channels(old(buf)@),
{
    let n = buf.len();
    let whole = n - n % 4;
    let mut i: usize = 0;
    while i < whole
        invariant
            n == buf@.len(),
            n == old(buf)@.len(),
            whole == n - n % 4,
            i % 4 == 0,
            i <= whole,
            forall|j: int| 0 <= j < i ==> buf@[j] == #[trigger] swap_channels(old(buf)@)[j],
            forall|j: int| i <= j < n ==> buf@[j] == old(buf)@[j],
        decreases whole - i,
    {
        let r = buf[i];
        let b = buf[i + 2];
        buf.set(i, b);
        buf.set(i + 2, r);
        i = i + 4;
    }
    assert(buf@ =~= swap_channels(old(buf)@));
}

/// A straight (non-premultiplied) RGBA image, stored top-down, row by row.
pub struct IconImage {
    width: usize,
    height: usize,
    pixels: Vec<u8>,
}

impl IconImage {
    pub closed spec fn spec_width(&self) -> nat {
        self.width as nat
    }

    pub closed spec fn spec_height(&self) -> nat {
        self.height as nat
    }

    pub closed spec fn spec_pixels(&self) -> Seq<u8> {
        self.pixels@
    }

    /// The pixel bytes hold exactly four channels for each pixel.
    pub open spec fn wf(&self) -> bool {
        self.spec_pixels().len() == rgba_len(self.spec_width(), self.spec_height())
    }

    /// An image from RGBA bytes, or `None` when their length is not four per pixel.
    pub fn from_rgba(width: usize, height: usize, pixels: Vec<u8>) -> (r: Option<IconImage>)
        ensures
            r is Some <==> pixels@.len() == rgba_len(width as nat, height as nat),
            r matches Some(img) ==> {
                &&& img.wf()
                &&& img.spec_width() == width
                &&& img.spec_height() == height
                &&& img.spec_pixels() == pixels@
            },
    {
        let n = pixels.len();
        match width.checked_mul(height) {
            Some(area) => match area.checked_mul(4) {
                Some(len) => {
                    if n == len {
                        Some(IconImage { width, height, pixels })
                    } else {
                        None
                    }
                },
                None => {
                    proof {
                        assert(width * height * 4 > usize::MAX) by (nonlinear_arith)
                            requires area == width * height, area * 4 > usize::MAX;
                    }
                    None
                },
            },
            None => {
                proof {
                    assert(width * height * 4 > usize::MAX) by (nonlinear_arith)
                        requires width * height > usize::MAX;
                }
                None
            },
        }
    }

    /// An image from the BGRA bytes of a device-independent bitmap, with the red and blue
    /// channels exchanged into RGBA; `None` when the length is not four per pixel.
    pub fn from_bgra(width: usize, height: usize, bgra: Vec<u8>) -> (r: Option<IconImage>)
        ensures
            r is Some <==> bgra@.len() == rgba_len(width as nat, height as nat),
            r matches Some(img) ==> {
                &&& img.wf()
                &&& img.spec_width() == width
                &&& img.spec_height() == height
                &&& img.spec_pixels() == swap_channels(bgra@)
            },
    {
        let mut buf = bgra;
        swap_red_blue(&mut buf);
        IconImage::from_rgba(width, height, buf)
    }

    pub fn width(&self) -> (r: usize)
        ensures
            r == self.spec_width(),
    {
        self.width
    }

    pub fn height(&self) -> (r: usize)
        ensures
            r == self.spec_height(),
    {
        self.height
    }

    /// The RGBA bytes, row by row from the top.
    pub fn pixels(&self) -> (r: &Vec<u8>)
        ensures
            r@ == self.spec_pixels(),
    {
        &self.pixels
    }
}

/// The layout of a 32-bit top-down bitmap read back from a bitmap whose header gives
/// `bm_width` and `bm_height` (negative for a top-down source): its width, its height and
/// the byte length of its pixel buffer. `None` for a negative width or a buffer that
/// cannot be addressed.
pub fn bitmap_layout(bm_width: i32, bm_height: i32) -> (r: Option<(usize, usize, usize)>)
    ensures
        ({
            let h: int = if bm_height < 0 { -bm_height } else { bm_height as int };
            match r {
                Some((w, hh, len)) => {
                    &&& bm_width >= 0
                    &&& w == bm_width
                    &&& hh == h
                    &&& len == rgba_len(w as nat, hh as nat)
                },
                None => bm_width < 0 || rgba_len(bm_width as nat, h as nat) > usize::MAX,
            }
        }),
{
    if bm_width < 0 {
        return None;
    }
    let h64: i64 = if bm_height < 0 { -(bm_height as i64) } else { bm_height as i64 };
    let w = bm_width as usize;
    let h = h64 as usize;
    match w.checked_mul(h) {
        Some(area) => match area.checked_mul(4) {
            Some(len) => Some((w, h, len)),
            None => {
                proof {
                    assert(w * h * 4 > usize::MAX) by (nonlinear_arith)
                        requires area == w * h, area * 4 > usize::MAX;
                }
                None
            },
        },
        None => {
            proof {
                assert(w * h * 4 > usize::MAX) by (nonlinear_arith)
                    requires w * h > usize::MAX;
            }
            None
        },
    }
}

} // verus!
