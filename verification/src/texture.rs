//! Texture data: decoded RGBA pixels with their dimensions.
//!
//! External images arrive decoded from outside; the library flips them
//! vertically to match the texture-coordinate convention, and that flip is
//! verified pixel-exact.

use crate::mesh::copy_vec;
use vstd::arithmetic::div_mod::{
    lemma_fundamental_div_mod_converse_div, lemma_fundamental_div_mod_converse_mod,
};
use vstd::prelude::*;

verus! {

/// The value of a texture: dimensions and the RGBA byte sequence.
#[verifier::ext_equal]
pub struct TextureView {
    pub width: u32,
    pub height: u32,
    pub rgba: Seq<u8>,
}

/// A decoded texture: `width * height` pixels, four bytes each, rows
/// bottom-up as the sampler convention expects. Immutable after creation.
#[derive(Debug)]
pub struct Texture {
    pub width: u32,
    pub height: u32,
    pub rgba: Vec<u8>,
}

impl View for Texture {
    type V = TextureView;

    open spec fn view(&self) -> TextureView {
        TextureView { width: self.width, height: self.height, rgba: self.rgba@ }
    }
}

impl Texture {
    /// Well-formed: four bytes per pixel.
    pub open spec fn wf(self) -> bool {
        self.rgba@.len() == 4 * self.width * self.height
    }

    /// A new instance holding the same pixels.
    pub fn duplicate(&self) -> (r: Texture)
        ensures
            r@ == self@,
    {
        Texture { width: self.width, height: self.height, rgba: copy_vec(&self.rgba) }
    }
}

/// Where byte `i` of the vertically flipped image comes from in the
/// original: same column, mirrored row.
pub open spec fn flip_index(w: int, h: int, i: int) -> int {
    let row_bytes = 4 * w;
    let r = i / row_bytes;
    let c = i % row_bytes;
    (h - 1 - r) * row_bytes + c
}

/// The vertically flipped image.
pub open spec fn flipped_spec(w: int, h: int, s: Seq<u8>) -> Seq<u8> {
    Seq::new(s.len(), |i: int| s[flip_index(w, h, i)])
}

/// Build a texture from decoded RGBA bytes, flipping rows vertically.
pub fn from_rgba_flipped(width: u32, height: u32, raw: &Vec<u8>) -> (t: Texture)
    requires
        1 <= width <= 4096,
        1 <= height <= 4096,
        raw@.len() == 4 * width * height,
    ensures
        t.width == width,
        t.height == height,
        t@.rgba == flipped_spec(width as int, height as int, raw@),
        t.wf(),
{
    let rb: usize = 4 * (width as usize);
    let h: usize = height as usize;
    let n: usize = raw.len();
    let ghost rbi = rb as int;
    let ghost wi = width as int;
    let mut out: Vec<u8> = Vec::new();
    let mut r: usize = 0;
    proof {
        assert(raw@.len() == (h as int) * rbi) by (nonlinear_arith)
            requires
                raw@.len() == 4 * width * height && rbi == 4 * width && h == height,
        ;
    }
    while r < h
        invariant
            1 <= rb <= 16384,
            1 <= h <= 4096,
            rbi == rb as int,
            rbi == 4 * wi,
            n == raw@.len(),
            raw@.len() == (h as int) * rbi,
            0 <= r <= h,
            out@.len() == (r as int) * rbi,
            forall|k: int|
                0 <= k < out@.len() ==> out@[k] == raw@[flip_index(wi, h as int, k)],
        decreases h - r,
    {
        let src_row: usize = h - 1 - r;
        let ghost out0 = out@;
        let mut c: usize = 0;
        proof {
            assert((src_row as int) * rbi + rbi <= (h as int) * rbi) by (nonlinear_arith)
                requires
                    0 <= src_row as int <= (h as int) - 1 && rbi >= 1,
            ;
            assert((src_row as int) * rbi >= 0) by (nonlinear_arith)
                requires
                    src_row as int >= 0 && rbi >= 0,
            ;
            assert((r as int) * rbi + rbi <= (h as int) * rbi) by (nonlinear_arith)
                requires
                    0 <= r as int <= (h as int) - 1 && rbi >= 1,
            ;
        }
        let base: usize = src_row * rb;
        while c < rb
            invariant
                1 <= rb <= 16384,
                rbi == rb as int,
                n == raw@.len(),
                base == (src_row as int) * rbi,
                base + rb <= n,
                0 <= c <= rb,
                out@ == out0 + raw@.subrange(base as int, base as int + c as int),
            decreases rb - c,
        {
            out.push(raw[base + c]);
            proof {
                assert(out@ =~= out0 + raw@.subrange(base as int, base as int + (c + 1) as int));
            }
            c = c + 1;
        }
        proof {
            assert forall|k: int| 0 <= k < out@.len() implies out@[k] == raw@[flip_index(
                wi,
                h as int,
                k,
            )] by {
                if k >= out0.len() {
                    let kk = k - (r as int) * rbi;
                    assert(0 <= kk < rbi);
                    assert(out@[k] == raw@[(src_row as int) * rbi + kk]);
                    assert(k == rbi * (r as int) + kk) by (nonlinear_arith)
                        requires
                            k == kk + (r as int) * rbi,
                    ;
                    lemma_fundamental_div_mod_converse_div(k, rbi, r as int, kk);
                    lemma_fundamental_div_mod_converse_mod(k, rbi, r as int, kk);
                    assert(flip_index(wi, h as int, k) == (h - 1 - r) * rbi + kk);
                }
            }
            assert(out@.len() == ((r + 1) as int) * rbi) by (nonlinear_arith)
                requires
                    out@.len() == (r as int) * rbi + rbi,
            ;
        }
        r = r + 1;
    }
    let t = Texture { width, height, rgba: out };
    proof {
        assert(t@.rgba =~= flipped_spec(width as int, height as int, raw@));
        assert(t.rgba@.len() == 4 * width * height);
    }
    t
}

/// The built-in container texture: a two-by-two checker of light and dark
/// pixels, fully opaque.
pub fn gen_crate_texture() -> (t: Texture)
    ensures
        t.width == 2,
        t.height == 2,
        t@.rgba == seq![
            230u8, 230u8, 230u8, 255u8,
            90u8, 90u8, 90u8, 255u8,
            90u8, 90u8, 90u8, 255u8,
            230u8, 230u8, 230u8, 255u8,
        ],
        t.wf(),
{
    let mut p: Vec<u8> = Vec::new();
    p.push(230);
    p.push(230);
    p.push(230);
    p.push(255);
    p.push(90);
    p.push(90);
    p.push(90);
    p.push(255);
    p.push(90);
    p.push(90);
    p.push(90);
    p.push(255);
    p.push(230);
    p.push(230);
    p.push(230);
    p.push(255);
    let t = Texture { width: 2, height: 2, rgba: p };
    proof {
        assert(t@.rgba =~= seq![
            230u8, 230u8, 230u8, 255u8,
            90u8, 90u8, 90u8, 255u8,
            90u8, 90u8, 90u8, 255u8,
            230u8, 230u8, 230u8, 255u8,
        ]);
    }
    t
}

} // verus!
