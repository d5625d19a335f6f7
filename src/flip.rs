//! Reversal of the vertical order of pixel rows in a frame buffer.
use vstd::prelude::*;
use vstd::arithmetic::div_mod::lemma_fundamental_div_mod_converse;

verus! {

/// The buffer `s` with its first `height` rows of `stride` bytes each put in
/// reverse vertical order; bytes past those rows are kept.
pub open spec fn flipped(s: Seq<u8>, stride: nat, height: nat) -> Seq<u8> {
    Seq::new(
        s.len(),
        |k: int|
            if k < stride * height {
                s[(height - 1 - k / (stride as int)) * stride + k % (stride as int)]
            } else {
                s[k]
            },
    )
}

/// Row `r` and column `c` name the byte at `r * stride + c`, and no other pair does.
pub proof fn lemma_row_col(r: int, c: int, stride: int)
    requires
        0 <= c < stride,
        0 <= r,
    ensures
        (r * stride + c) / stride == r,
        (r * stride + c) % stride == c,
{
    lemma_fundamental_div_mod_converse(r * stride + c, stride, r, c);
}

proof fn lemma_div_mod_parts(k: int, w: int)
    requires
        0 <= k,
        0 < w,
    ensures
        k == (k / w) * w + k % w,
        0 <= k % w < w,
{
    vstd::arithmetic::div_mod::lemma_fundamental_div_mod(k, w);
    vstd::arithmetic::div_mod::lemma_mod_pos_bound(k, w);
    vstd::arithmetic::mul::lemma_mul_is_commutative(w, k / w);
}

proof fn lemma_row_of(k: int, w: int, h: int)
    requires
        0 <= k < w * h,
        0 <= w,
    ensures
        0 < w,
        k == (k / w) * w + k % w,
        0 <= k % w < w,
        0 <= k / w < h,
{
    assert(0 < w) by (nonlinear_arith)
        requires
            0 <= k < w * h,
            0 <= w,
    ;
    lemma_div_mod_parts(k, w);
    let r = k / w;
    let c = k % w;
    assert(0 <= r < h) by (nonlinear_arith)
        requires
            k == r * w + c,
            0 <= c < w,
            0 <= k < w * h,
            0 < w,
    ;
}

proof fn lemma_row_start(r: int, w: int, h: int)
    requires
        0 <= r < h,
        0 <= w,
    ensures
        0 <= r * w,
        r * w + w <= h * w,
{
    assert(0 <= r * w && r * w + w <= h * w) by (nonlinear_arith)
        requires
            0 <= r < h,
            0 <= w,
    ;
}

proof fn lemma_cell_distinct(r1: int, c1: int, r2: int, c2: int, stride: int)
    requires
        0 <= c1 < stride,
        0 <= c2 < stride,
        0 <= r1,
        0 <= r2,
        r1 != r2 || c1 != c2,
    ensures
        r1 * stride + c1 != r2 * stride + c2,
{
    lemma_row_col(r1, c1, stride);
    lemma_row_col(r2, c2, stride);
}

proof fn lemma_cell_bound(r: int, c: int, stride: int, height: int)
    requires
        0 <= c < stride,
        0 <= r < height,
    ensures
        0 <= r * stride + c < height * stride,
        0 <= r * stride,
{
    assert(r * stride + c < height * stride) by (nonlinear_arith)
        requires
            0 <= c < stride,
            0 <= r < height,
    ;
    assert(0 <= r * stride) by (nonlinear_arith)
        requires
            0 <= c < stride,
            0 <= r,
    ;
}

/// A buffer with fewer than two rows is its own flip.
pub proof fn lemma_flip_short(s: Seq<u8>, stride: nat, height: nat)
    requires
        height < 2,
    ensures
        flipped(s, stride, height) == s,
{
    if height == 1 {
        assert(stride * height == stride);
        assert forall|k: int| 0 <= k < s.len() && k < stride implies #[trigger] flipped(
            s,
            stride,
            height,
        )[k] == s[k] by {
            lemma_div_mod_parts(k, stride as int);
            vstd::arithmetic::div_mod::lemma_basic_div(k, stride as int);
            assert(k / (stride as int) == 0);
            vstd::arithmetic::mul::lemma_mul_basics(stride as int);
            assert((k / (stride as int)) * stride == 0);
            assert(k % (stride as int) == k);
            assert((height - 1 - k / (stride as int)) * stride + k % (stride as int) == k);
        }
    }
    assert(flipped(s, stride, height) =~= s);
}

/// Flipping a buffer twice gives the buffer back, for any buffer that holds
/// the rows being flipped.
pub proof fn lemma_flip_involution(s: Seq<u8>, stride: nat, height: nat)
    requires
        height < 2 || stride * height <= s.len(),
    ensures
        flipped(flipped(s, stride, height), stride, height) == s,
{
    if height < 2 {
        lemma_flip_short(s, stride, height);
        lemma_flip_short(flipped(s, stride, height), stride, height);
        return;
    }
    let f = flipped(s, stride, height);
    let g = flipped(f, stride, height);
    assert forall|k: int| 0 <= k < s.len() implies g[k] == s[k] by {
        if k < stride * height {
            let w = stride as int;
            let r = k / w;
            let c = k % w;
            lemma_row_of(k, w, height as int);
            let r2 = height - 1 - r;
            lemma_row_col(r2, c, w);
            lemma_cell_bound(r2, c, w, height as int);
            lemma_row_col(r, c, w);
            let k2 = r2 * w + c;
            assert(g[k] == f[k2]);
            vstd::arithmetic::mul::lemma_mul_is_commutative(height as int, w);
            assert(f[k2] == s[(height - 1 - r2) * w + c]);
            assert((height - 1 - r2) * w + c == k);
        }
    }
    assert(g =~= s);
}

/// Reverses the vertical order of the first `height` rows of `stride` bytes:
/// row `j` trades places with row `height - 1 - j`, and a middle row stays.
pub fn vflip(buf: &mut Vec<u8>, stride: usize, height: usize)
    requires
        height < 2 || stride * height <= old(buf)@.len(),
    ensures
        final(buf)@ == flipped(old(buf)@, stride as nat, height as nat),
{
    if height < 2 {
        proof {
            lemma_flip_short(buf@, stride as nat, height as nat);
        }
        return;
    }
    let ghost orig = buf@;
    let ghost w = stride as int;
    let ghost h = height as int;
    let len: usize = buf.len();
    let half: usize = height / 2;
    let mut j: usize = 0;
    while j < half
        invariant
            half == height / 2,
            j <= half,
            stride * height <= orig.len(),
            orig.len() == len,
            w == stride,
            h == height,
            buf@.len() == orig.len(),
            forall|k: int| stride * height <= k < orig.len() ==> buf@[k] == orig[k],
            forall|r: int, c: int|
                #![trigger buf@[r * w + c]]
                0 <= r < h && 0 <= c < w ==> buf@[r * w + c] == if r < j || r >= h - j {
                    orig[(h - 1 - r) * w + c]
                } else {
                    orig[r * w + c]
                },
        decreases half - j,
    {
        proof {
            lemma_row_start(j as int, w, h);
            lemma_row_start(h - j - 1, w, h);
        }
        let top: usize = j * stride;
        let bottom: usize = (height - j - 1) * stride;
        let mut i: usize = 0;
        while i < stride
            invariant
                half == height / 2,
                j < half,
                i <= stride,
                stride * height <= orig.len(),
                orig.len() == len,
                w == stride,
                h == height,
                top == j * w,
                bottom == (h - j - 1) * w,
                top + w <= h * w,
                bottom + w <= h * w,
                buf@.len() == orig.len(),
                forall|k: int| stride * height <= k < orig.len() ==> buf@[k] == orig[k],
                forall|r: int, c: int|
                    #![trigger buf@[r * w + c]]
                    0 <= r < h && 0 <= c < w ==> buf@[r * w + c] == if r < j || r >= h - j || ((
                    r == j || r == h - j - 1) && c < i) {
                        orig[(h - 1 - r) * w + c]
                    } else {
                        orig[r * w + c]
                    },
            decreases stride - i,
        {
            proof {
                lemma_cell_bound(j as int, i as int, w, h);
                lemma_cell_bound(h - j - 1, i as int, w, h);
            }
            let a: usize = top + i;
            let b: usize = bottom + i;
            let ghost prev = buf@;
            let x = buf[a];
            let y = buf[b];
            buf.set(a, y);
            buf.set(b, x);
            proof {
                assert forall|k: int| stride * height <= k < orig.len() implies buf@[k] == orig[k] by {
                    assert(k != a && k != b);
                }
                assert forall|r: int, c: int|
                    0 <= r < h && 0 <= c < w implies #[trigger] buf@[r * w + c] == if r < j || r
                        >= h - j || ((r == j || r == h - j - 1) && c < i + 1) {
                        orig[(h - 1 - r) * w + c]
                    } else {
                        orig[r * w + c]
                    } by {
                    lemma_cell_bound(r, c, w, h);
                    if r == j && c == i {
                    } else if r == h - j - 1 && c == i {
                    } else {
                        lemma_cell_distinct(r, c, j as int, i as int, w);
                        lemma_cell_distinct(r, c, h - j - 1, i as int, w);
                        assert(prev[r * w + c] == buf@[r * w + c]);
                    }
                    assert(a == j * w + i);
                    assert(b == (h - j - 1) * w + i);
                    assert(prev[j * w + i] == orig[j * w + i]);
                    assert(prev[(h - j - 1) * w + i] == orig[(h - j - 1) * w + i]);
                }
            }
            i = i + 1;
        }
        j = j + 1;
    }
    proof {
        let f = flipped(orig, stride as nat, height as nat);
        assert forall|k: int| 0 <= k < orig.len() implies buf@[k] == f[k] by {
            if k < stride * height {
                let r = k / w;
                let c = k % w;
                lemma_row_of(k, w, h);
                assert(buf@[r * w + c] == orig[(h - 1 - r) * w + c]);
            }
        }
        assert(buf@ =~= f);
    }
}

} // verus!
