//! Repair of a colour cursor's AND mask (after TigerVNC and noVNC).
//!
//! `cbits` holds `width * height` pixels of four bytes (blue, green, red,
//! alpha) row by row; `mbits` holds the monochrome mask with
//! `bm_width_bytes` bytes per row. A cursor whose colour bitmap has no
//! alpha channel is turned into RGBA: the mask is packed to
//! `(width + 7) / 8` bytes per row and inverted, pixels that the mask marks
//! as "inverted background" are painted black, and every pixel gets the
//! alpha that the mask gives it.

use vstd::prelude::*;

verus! {

/// Bytes of packed mask per row.
pub open spec fn packed_width(width: int) -> int {
    (width + 7) / 8
}

/// Copies inverted mask byte `b` to position `a` when both lie in the mask.
pub open spec fn pack_cell(m: Seq<u8>, a: int, b: int) -> Seq<u8> {
    if 0 <= a < m.len() && 0 <= b < m.len() {
        m.update(a, !m[b])
    } else {
        m
    }
}

/// The mask after the first `x` bytes of row `y` were packed.
pub open spec fn pack_row(m: Seq<u8>, y: int, x: int, pw: int, bmw: int) -> Seq<u8>
    decreases x,
{
    if x <= 0 {
        m
    } else {
        pack_cell(pack_row(m, y, x - 1, pw, bmw), y * pw + (x - 1), y * bmw + (x - 1))
    }
}

/// The mask after its first `y` rows were packed, in place and in order.
pub open spec fn pack_rows(m: Seq<u8>, y: int, pw: int, bmw: int) -> Seq<u8>
    decreases y,
{
    if y <= 0 {
        m
    } else {
        pack_row(pack_rows(m, y - 1, pw, bmw), y - 1, pw, pw, bmw)
    }
}

/// Bit `t` (counted from the most significant) of `v`.
pub open spec fn bit_of(v: u8, t: u8) -> bool {
    v & (0x80u8 >> t) != 0u8
}

/// The mask byte that holds the bit of pixel `(y, x)`.
pub open spec fn mask_index(pw: int, y: int, x: int) -> int {
    y * pw + x / 8
}

/// Bit `t` of packed mask byte `j` of row `y`.
pub open spec fn mask_row_bit(m: Seq<u8>, pw: int, y: int, j: int, t: u8) -> bool {
    bit_of(m[y * pw + j], t)
}

/// The mask marks pixel `(y, x)` as transparent (its bit is clear).
pub open spec fn mask_clear(m: Seq<u8>, pw: int, y: int, x: int) -> bool {
    let k = mask_index(pw, y, x);
    k < m.len() && !bit_of(m[k], (x % 8) as u8)
}

/// Byte `b` of pixel `(y, x)`.
pub open spec fn pixel_byte(c: Seq<u8>, w: int, y: int, x: int, b: int) -> u8 {
    c[4 * (y * w + x) + b]
}

pub open spec fn pixel_blank(c: Seq<u8>, w: int, y: int, x: int) -> bool {
    pixel_byte(c, w, y, x, 0) == 0 && pixel_byte(c, w, y, x, 1) == 0 && pixel_byte(c, w, y, x, 2)
        == 0 && pixel_byte(c, w, y, x, 3) == 0
}

/// The alpha byte of pixel `i`.
pub open spec fn alpha_byte(c: Seq<u8>, i: int) -> u8 {
    c[4 * i + 3]
}

/// No pixel has a nonzero alpha byte.
pub open spec fn no_alpha(c: Seq<u8>, n: int) -> bool {
    forall|i: int| 0 <= i < n ==> #[trigger] alpha_byte(c, i) == 0
}

/// A pixel that the packed mask `m` leaves transparent but that is not
/// blank: it is painted black and its mask bit is set.
pub open spec fn repainted(m: Seq<u8>, c: Seq<u8>, w: int, pw: int, y: int, x: int) -> bool {
    0 <= x < w && mask_clear(m, pw, y, x) && !pixel_blank(c, w, y, x)
}

/// Byte `b` of pixel `(y, x)` once repaired, from the packed mask `m` and
/// the original pixels `c`: a transparent pixel stays clear if blank and
/// turns opaque black if not; any other pixel has red and blue swapped and
/// is opaque.
pub open spec fn fixed_pixel_byte(m: Seq<u8>, c: Seq<u8>, w: int, pw: int, y: int, x: int, b: int) -> u8 {
    if mask_clear(m, pw, y, x) {
        if b == 3 && !pixel_blank(c, w, y, x) {
            255
        } else {
            0
        }
    } else if b == 0 {
        pixel_byte(c, w, y, x, 2)
    } else if b == 1 {
        pixel_byte(c, w, y, x, 1)
    } else if b == 2 {
        pixel_byte(c, w, y, x, 0)
    } else {
        255
    }
}

/// What a successful repair leaves, from the original mask `m0` and
/// pixels `c0`.
pub open spec fn cursor_fixed(
    m0: Seq<u8>,
    c0: Seq<u8>,
    m: Seq<u8>,
    c: Seq<u8>,
    w: int,
    h: int,
    bmw: int,
) -> bool {
    let pw = packed_width(w);
    let m2 = pack_rows(m0, h, pw, bmw);
    &&& m.len() == m0.len()
    &&& c.len() == c0.len()
    &&& forall|y: int, x: int, b: int|
        0 <= y < h && 0 <= x < w && 0 <= b < 4 ==> #[trigger] pixel_byte(c, w, y, x, b)
            == fixed_pixel_byte(m2, c0, w, pw, y, x, b)
    &&& forall|k: int| 4 * w * h <= k < c.len() ==> c[k] == c0[k]
    &&& forall|y: int, j: int, t: u8|
        0 <= y < h && 0 <= j < pw && t < 8 && y * pw + j < m.len() ==> #[trigger] mask_row_bit(
            m,
            pw,
            y,
            j,
            t,
        ) == (mask_row_bit(m2, pw, y, j, t) || repainted(m2, c0, w, pw, y, 8 * j + t))
    &&& forall|k: int| h * pw <= k < m.len() ==> m[k] == m2[k]
}

proof fn lemma_pack_row_len(m: Seq<u8>, y: int, x: int, pw: int, bmw: int)
    ensures
        pack_row(m, y, x, pw, bmw).len() == m.len(),
    decreases x,
{
    if x > 0 {
        lemma_pack_row_len(m, y, x - 1, pw, bmw);
    }
}

pub proof fn lemma_pack_rows_len(m: Seq<u8>, y: int, pw: int, bmw: int)
    ensures
        pack_rows(m, y, pw, bmw).len() == m.len(),
    decreases y,
{
    if y > 0 {
        lemma_pack_rows_len(m, y - 1, pw, bmw);
        lemma_pack_row_len(pack_rows(m, y - 1, pw, bmw), y - 1, pw, pw, bmw);
    }
}

proof fn lemma_or_bit(v: u8, s: u8, t: u8)
    requires
        s < 8,
        t < 8,
    ensures
        bit_of(v | (0x80u8 >> s), t) == (bit_of(v, t) || s == t),
{
    assert(((v | (0x80u8 >> s)) & (0x80u8 >> t) != 0u8) == ((v & (0x80u8 >> t) != 0u8) || s
        == t)) by (bit_vector)
        requires
            s < 8,
            t < 8,
    ;
}

proof fn lemma_row_index_unique(y1: int, j1: int, y2: int, j2: int, n: int)
    requires
        0 <= j1 < n,
        0 <= j2 < n,
        0 <= y1,
        0 <= y2,
        y1 * n + j1 == y2 * n + j2,
    ensures
        y1 == y2,
        j1 == j2,
{
    if y1 < y2 {
        assert(y1 * n + n <= y2 * n) by (nonlinear_arith)
            requires
                y1 < y2,
                0 <= n,
        ;
    } else if y2 < y1 {
        assert(y2 * n + n <= y1 * n) by (nonlinear_arith)
            requires
                y2 < y1,
                0 <= n,
        ;
    }
}

proof fn lemma_row_index_bound(y: int, j: int, n: int, h: int)
    requires
        0 <= y < h,
        0 <= j < n,
    ensures
        0 <= y * n + j < h * n,
        y * n + n <= h * n,
{
    assert(y * n + n <= h * n) by (nonlinear_arith)
        requires
            y < h,
            0 <= n,
    ;
    assert(0 <= y * n) by (nonlinear_arith)
        requires
            0 <= y,
            0 <= n,
    ;
}

proof fn lemma_rows_fit(y: int, n: int, h: int)
    requires
        0 <= y < h,
        0 <= n,
    ensures
        0 <= y * n,
        y * n + n <= h * n,
{
    assert(y * n + n <= h * n) by (nonlinear_arith)
        requires
            y < h,
            0 <= n,
    ;
    assert(0 <= y * n) by (nonlinear_arith)
        requires
            0 <= y,
            0 <= n,
    ;
}

proof fn lemma_pixel_offset(w: int, y: int, x: int)
    ensures
        4 * (y * w + x) == y * (4 * w) + 4 * x,
{
    assert(4 * (y * w) == y * (4 * w)) by (nonlinear_arith);
}

proof fn lemma_pixel_slot_unique(w: int, y1: int, x1: int, b1: int, y2: int, x2: int, b2: int)
    requires
        0 <= x1 < w,
        0 <= x2 < w,
        0 <= y1,
        0 <= y2,
        0 <= b1 < 4,
        0 <= b2 < 4,
        4 * (y1 * w + x1) + b1 == 4 * (y2 * w + x2) + b2,
    ensures
        y1 == y2 && x1 == x2 && b1 == b2,
{
    assert(y1 * w + x1 == y2 * w + x2 && b1 == b2) by (nonlinear_arith)
        requires
            0 <= b1 < 4,
            0 <= b2 < 4,
            4 * (y1 * w + x1) + b1 == 4 * (y2 * w + x2) + b2,
    ;
    lemma_row_index_unique(y1, x1, y2, x2, w);
}

proof fn lemma_pixel_in_range(w: int, h: int, y: int, x: int, b: int)
    requires
        0 <= y < h,
        0 <= x < w,
        0 <= b < 4,
    ensures
        0 <= 4 * (y * w + x) + b < 4 * w * h,
{
    lemma_row_index_bound(y, x, w, h);
    assert(4 * (h * w) == 4 * w * h) by (nonlinear_arith);
}

/// Phase one: whether no pixel has alpha; the cursor is left alone otherwise.
fn alpha_free(cbits: &Vec<u8>, n: usize) -> (r: bool)
    requires
        4 * n <= cbits@.len(),
    ensures
        r == no_alpha(cbits@, n as int),
{
    let total = cbits.len();
    let mut i: usize = 0;
    let mut p: usize = 0;
    while i < n
        invariant
            total == cbits@.len(),
            i <= n,
            p == 4 * i,
            4 * n <= cbits@.len(),
            no_alpha(cbits@, i as int),
        decreases n - i,
    {
        if cbits[p + 3] != 0 {
            assert(alpha_byte(cbits@, i as int) != 0);
            return false;
        }
        i = i + 1;
        p = p + 4;
    }
    true
}

/// Phase two: packs and inverts the mask in place, row by row.
fn pack_mask(mbits: &mut Vec<u8>, height: usize, pw: usize, bmw: usize)
    requires
        height * pw <= usize::MAX,
        height * bmw + pw <= usize::MAX,
    ensures
        final(mbits)@ == pack_rows(old(mbits)@, height as int, pw as int, bmw as int),
{
    let bm_size = mbits.len();
    let mut y: usize = 0;
    let mut row_a: usize = 0;
    let mut row_b: usize = 0;
    while y < height
        invariant
            y <= height,
            row_a == y * pw,
            row_b == y * bmw,
            height * pw <= usize::MAX,
            height * bmw + pw <= usize::MAX,
            bm_size == mbits@.len(),
            mbits@ == pack_rows(old(mbits)@, y as int, pw as int, bmw as int),
        decreases height - y,
    {
        proof {
            lemma_rows_fit(y as int, pw as int, height as int);
            lemma_rows_fit(y as int, bmw as int, height as int);
        }
        let ghost start = mbits@;
        let mut x: usize = 0;
        while x < pw
            invariant
                y < height,
                x <= pw,
                row_a == y * pw,
                row_b == y * bmw,
                row_a + pw <= height * pw,
                row_b + bmw <= height * bmw,
                height * pw <= usize::MAX,
                height * bmw + pw <= usize::MAX,
                bm_size == mbits@.len(),
                start == pack_rows(old(mbits)@, y as int, pw as int, bmw as int),
                mbits@ == pack_row(start, y as int, x as int, pw as int, bmw as int),
            decreases pw - x,
        {
            let a = row_a + x;
            let b = row_b + x;
            if a < bm_size && b < bm_size {
                let v = !mbits[b];
                mbits.set(a, v);
            }
            x = x + 1;
        }
        proof {
            assert(row_a + pw == (y + 1) * pw) by (nonlinear_arith)
                requires
                    row_a == y * pw,
            ;
            assert(row_b + bmw == (y + 1) * bmw) by (nonlinear_arith)
                requires
                    row_b == y * bmw,
            ;
        }
        y = y + 1;
        row_a = row_a + pw;
        row_b = row_b + bmw;
    }
}


/// The four bytes that pixel `p` of `c` becomes, given whether the mask
/// leaves it transparent.
pub open spec fn repaired_bytes(c: Seq<u8>, p: int, clear: bool) -> (u8, u8, u8, u8) {
    let blank = c[p] == 0 && c[p + 1] == 0 && c[p + 2] == 0 && c[p + 3] == 0;
    if clear {
        (0, 0, 0, if blank {
            0
        } else {
            255
        })
    } else {
        (c[p + 2], c[p + 1], c[p], 255)
    }
}

/// Repairs one pixel at byte offset `p` whose mask bit is bit `s` of
/// mask byte `k`.
fn repair_pixel(mbits: &mut Vec<u8>, cbits: &mut Vec<u8>, k: usize, p: usize, s: u8)
    requires
        p + 4 <= old(cbits)@.len(),
        s < 8,
    ensures
        ({
            let m = old(mbits)@;
            let c = old(cbits)@;
            let clear = k < m.len() && !bit_of(m[k as int], s);
            let blank = c[p as int] == 0 && c[p + 1] == 0 && c[p + 2] == 0 && c[p + 3] == 0;
            let r = repaired_bytes(c, p as int, clear);
            &&& final(mbits)@ == (if clear && !blank {
                m.update(k as int, m[k as int] | (0x80u8 >> s))
            } else {
                m
            })
            &&& final(cbits)@ == c.update(p as int, r.0).update(p + 1, r.1).update(p + 2, r.2).update(
                p + 3,
                r.3,
            )
        }),
{
    let n = cbits.len();
    assert(p + 4 <= n);
    let bit: u8 = 0x80u8 >> s;
    let clear = k < mbits.len() && mbits[k] & bit == 0;
    let blank = cbits[p] == 0 && cbits[p + 1] == 0 && cbits[p + 2] == 0 && cbits[p + 3] == 0;
    if clear && !blank {
        let v = mbits[k] | bit;
        mbits.set(k, v);
    }
    let c0 = cbits[p];
    let c1 = cbits[p + 1];
    let c2 = cbits[p + 2];
    if clear {
        cbits.set(p, 0);
        cbits.set(p + 1, 0);
        cbits.set(p + 2, 0);
        cbits.set(p + 3, if blank { 0 } else { 255 });
    } else {
        cbits.set(p, c2);
        cbits.set(p + 1, c1);
        cbits.set(p + 2, c0);
        cbits.set(p + 3, 255);
    }
}

/// The packed mask `m` and pixels `c0` after the pixels `(y, x)` with
/// `done(y, x)` were repaired: `c` and `m` as a repair leaves them there,
/// untouched elsewhere.
pub open spec fn processed(y: int, x: int, yd: int, xd: int) -> bool {
    y < yd || (y == yd && x < xd)
}

pub open spec fn repair_progress(
    m2: Seq<u8>,
    c0: Seq<u8>,
    m: Seq<u8>,
    c: Seq<u8>,
    w: int,
    h: int,
    pw: int,
    yd: int,
    xd: int,
) -> bool {
    &&& m.len() == m2.len()
    &&& c.len() == c0.len()
    &&& forall|y: int, x: int, b: int|
        0 <= y < h && 0 <= x < w && 0 <= b < 4 ==> #[trigger] pixel_byte(c, w, y, x, b) == (if processed(
            y,
            x,
            yd,
            xd,
        ) {
            fixed_pixel_byte(m2, c0, w, pw, y, x, b)
        } else {
            pixel_byte(c0, w, y, x, b)
        })
    &&& forall|k: int| 4 * w * h <= k < c.len() ==> c[k] == c0[k]
    &&& forall|y: int, j: int, t: u8|
        0 <= y < h && 0 <= j < pw && t < 8 && y * pw + j < m.len() ==> #[trigger] mask_row_bit(
            m,
            pw,
            y,
            j,
            t,
        ) == (mask_row_bit(m2, pw, y, j, t) || (processed(y, 8 * j + t, yd, xd) && repainted(
            m2,
            c0,
            w,
            pw,
            y,
            8 * j + t,
        )))
    &&& forall|k: int| h * pw <= k < m.len() ==> m[k] == m2[k]
}


proof fn lemma_repair_step(
    m2: Seq<u8>,
    c0: Seq<u8>,
    mb: Seq<u8>,
    cb: Seq<u8>,
    m: Seq<u8>,
    c: Seq<u8>,
    w: int,
    h: int,
    pw: int,
    y: int,
    x: int,
    k: int,
    p: int,
    s: u8,
)
    requires
        0 <= y < h,
        0 <= x < w,
        pw == packed_width(w),
        k == y * pw + x / 8,
        p == 4 * (y * w + x),
        s == (x % 8) as u8,
        4 * w * h <= cb.len(),
        repair_progress(m2, c0, mb, cb, w, h, pw, y, x),
        ({
            let clear = k < mb.len() && !bit_of(mb[k], s);
            let blank = cb[p] == 0 && cb[p + 1] == 0 && cb[p + 2] == 0 && cb[p + 3] == 0;
            let r = repaired_bytes(cb, p, clear);
            &&& m == (if clear && !blank {
                mb.update(k, mb[k] | (0x80u8 >> s))
            } else {
                mb
            })
            &&& c == cb.update(p, r.0).update(p + 1, r.1).update(p + 2, r.2).update(p + 3, r.3)
        }),
    ensures
        repair_progress(m2, c0, m, c, w, h, pw, y, x + 1),
{
    let j0 = x / 8;
    assert(x == 8 * j0 + s);
    assert(0 <= j0 < pw);
    lemma_row_index_bound(y, j0, pw, h);
    lemma_pixel_in_range(w, h, y, x, 0);
    lemma_pixel_in_range(w, h, y, x, 3);
    // The pixel's own mask bit and bytes are still the packed/original ones.
    let clear = k < mb.len() && !bit_of(mb[k], s);
    if k < mb.len() {
        assert(mask_row_bit(mb, pw, y, j0, s) == (mask_row_bit(m2, pw, y, j0, s) || (processed(
            y,
            8 * j0 + s,
            y,
            x,
        ) && repainted(m2, c0, w, pw, y, 8 * j0 + s))));
    }
    assert(clear == mask_clear(m2, pw, y, x));
    assert(pixel_byte(cb, w, y, x, 0) == pixel_byte(c0, w, y, x, 0));
    assert(pixel_byte(cb, w, y, x, 1) == pixel_byte(c0, w, y, x, 1));
    assert(pixel_byte(cb, w, y, x, 2) == pixel_byte(c0, w, y, x, 2));
    assert(pixel_byte(cb, w, y, x, 3) == pixel_byte(c0, w, y, x, 3));
    let blank = cb[p] == 0 && cb[p + 1] == 0 && cb[p + 2] == 0 && cb[p + 3] == 0;
    assert(blank == pixel_blank(c0, w, y, x));
    assert(repainted(m2, c0, w, pw, y, x) == (clear && !blank));
    assert forall|y1: int, x1: int, b1: int|
        0 <= y1 < h && 0 <= x1 < w && 0 <= b1 < 4 implies #[trigger] pixel_byte(c, w, y1, x1, b1)
        == (if processed(y1, x1, y, x + 1) {
        fixed_pixel_byte(m2, c0, w, pw, y1, x1, b1)
    } else {
        pixel_byte(c0, w, y1, x1, b1)
    }) by {
        lemma_pixel_in_range(w, h, y1, x1, b1);
        if y1 == y && x1 == x {
        } else {
            let q = 4 * (y1 * w + x1) + b1;
            if p <= q < p + 4 {
                lemma_pixel_slot_unique(w, y1, x1, b1, y, x, q - p);
            }
            assert(c[q] == cb[q]);
            assert(pixel_byte(cb, w, y1, x1, b1) == (if processed(y1, x1, y, x) {
                fixed_pixel_byte(m2, c0, w, pw, y1, x1, b1)
            } else {
                pixel_byte(c0, w, y1, x1, b1)
            }));
        }
    }
    assert forall|q: int| 4 * w * h <= q < c.len() implies c[q] == c0[q] by {
        assert(c[q] == cb[q]);
    }
    assert forall|y1: int, j1: int, t1: u8|
        0 <= y1 < h && 0 <= j1 < pw && t1 < 8 && y1 * pw + j1 < m.len() implies #[trigger] mask_row_bit(
        m,
        pw,
        y1,
        j1,
        t1,
    ) == (mask_row_bit(m2, pw, y1, j1, t1) || (processed(y1, 8 * j1 + t1, y, x + 1) && repainted(
        m2,
        c0,
        w,
        pw,
        y1,
        8 * j1 + t1,
    ))) by {
        let k1 = y1 * pw + j1;
        assert(mask_row_bit(mb, pw, y1, j1, t1) == (mask_row_bit(m2, pw, y1, j1, t1) || (processed(
            y1,
            8 * j1 + t1,
            y,
            x,
        ) && repainted(m2, c0, w, pw, y1, 8 * j1 + t1))));
        if k1 == k {
            lemma_row_index_unique(y1, j1, y, j0, pw);
            if clear && !blank {
                lemma_or_bit(mb[k], s, t1);
            }
        } else {
            assert(m[k1] == mb[k1]);
            if y1 == y && 8 * j1 + t1 == x {
                assert(j1 == j0);
            }
        }
    }
    assert forall|q: int| h * pw <= q < m.len() implies m[q] == m2[q] by {
        assert(m[q] == mb[q]);
    }
}

proof fn lemma_repair_done(
    m2: Seq<u8>,
    c0: Seq<u8>,
    m: Seq<u8>,
    c: Seq<u8>,
    w: int,
    h: int,
    pw: int,
)
    requires
        repair_progress(m2, c0, m, c, w, h, pw, h, 0),
    ensures
        forall|y: int, x: int, b: int|
            0 <= y < h && 0 <= x < w && 0 <= b < 4 ==> #[trigger] pixel_byte(c, w, y, x, b)
                == fixed_pixel_byte(m2, c0, w, pw, y, x, b),
        forall|y: int, j: int, t: u8|
            0 <= y < h && 0 <= j < pw && t < 8 && y * pw + j < m.len() ==> #[trigger] mask_row_bit(
                m,
                pw,
                y,
                j,
                t,
            ) == (mask_row_bit(m2, pw, y, j, t) || repainted(m2, c0, w, pw, y, 8 * j + t)),
{
    assert forall|y: int, x: int, b: int|
        0 <= y < h && 0 <= x < w && 0 <= b < 4 implies #[trigger] pixel_byte(c, w, y, x, b)
        == fixed_pixel_byte(m2, c0, w, pw, y, x, b) by {
        assert(processed(y, x, h, 0));
    }
    assert forall|y: int, j: int, t: u8|
        0 <= y < h && 0 <= j < pw && t < 8 && y * pw + j < m.len() implies #[trigger] mask_row_bit(
        m,
        pw,
        y,
        j,
        t,
    ) == (mask_row_bit(m2, pw, y, j, t) || repainted(m2, c0, w, pw, y, 8 * j + t)) by {
        assert(processed(y, 8 * j + t, h, 0));
    }
}

/// Phases three and four, pixel by pixel: paints the transparent pixels
/// that are not blank black and marks them opaque in the mask, swaps red
/// and blue, and sets each pixel's alpha from the mask.
fn repair_pixels(mbits: &mut Vec<u8>, cbits: &mut Vec<u8>, width: usize, height: usize, pw: usize)
    requires
        4 * width * height <= old(cbits)@.len(),
        height * pw <= usize::MAX,
        pw == packed_width(width as int),
    ensures
        repair_progress(
            old(mbits)@,
            old(cbits)@,
            final(mbits)@,
            final(cbits)@,
            width as int,
            height as int,
            pw as int,
            height as int,
            0,
        ),
{
    let ghost m2 = mbits@;
    let ghost c0 = cbits@;
    let total = cbits.len();
    let mut y: usize = 0;
    let mut row_k: usize = 0;
    let mut row_p: usize = 0;
    while y < height
        invariant
            y <= height,
            row_k == y * pw,
            row_p == y * (4 * width),
            total == cbits@.len(),
            4 * width * height <= total,
            height * pw <= usize::MAX,
            pw == packed_width(width as int),
            m2 == old(mbits)@,
            c0 == old(cbits)@,
            repair_progress(m2, c0, mbits@, cbits@, width as int, height as int, pw as int, y as int, 0),
        decreases height - y,
    {
        proof {
            lemma_rows_fit(y as int, pw as int, height as int);
            lemma_rows_fit(y as int, 4 * width as int, height as int);
            assert(height * (4 * width) == 4 * width * height) by (nonlinear_arith);
        }
        let mut x: usize = 0;
        while x < width
            invariant
                y < height,
                x <= width,
                row_k == y * pw,
                row_p == y * (4 * width),
                row_k + pw <= height * pw,
                row_p + 4 * width <= 4 * width * height,
                total == cbits@.len(),
                4 * width * height <= total,
                height * pw <= usize::MAX,
                pw == packed_width(width as int),
                m2 == old(mbits)@,
                c0 == old(cbits)@,
                repair_progress(
                    m2,
                    c0,
                    mbits@,
                    cbits@,
                    width as int,
                    height as int,
                    pw as int,
                    y as int,
                    x as int,
                ),
            decreases width - x,
        {
            let k = row_k + x / 8;
            let p = row_p + 4 * x;
            let s = (x % 8) as u8;
            proof {
                lemma_pixel_offset(width as int, y as int, x as int);
            }
            let ghost mb = mbits@;
            let ghost cb = cbits@;
            repair_pixel(mbits, cbits, k, p, s);
            proof {
                lemma_repair_step(
                    m2,
                    c0,
                    mb,
                    cb,
                    mbits@,
                    cbits@,
                    width as int,
                    height as int,
                    pw as int,
                    y as int,
                    x as int,
                    k as int,
                    p as int,
                    s,
                );
            }
            x = x + 1;
        }
        proof {
            assert(row_p + 4 * width == (y + 1) * (4 * width)) by (nonlinear_arith)
                requires
                    row_p == y * (4 * width),
            ;
            assert(row_k + pw == (y + 1) * pw) by (nonlinear_arith)
                requires
                    row_k == y * pw,
            ;
        }
        y = y + 1;
        row_k = row_k + pw;
        row_p = row_p + 4 * width;
    }
}


/// Repairs the mask and pixels of a colour cursor whose bitmap carries no
/// alpha, and says whether it did: a cursor with any nonzero alpha byte is
/// left as it is and gets `false`.
pub fn fix_cursor_mask(
    mbits: &mut Vec<u8>,
    cbits: &mut Vec<u8>,
    width: usize,
    height: usize,
    bm_width_bytes: usize,
) -> (ok: bool)
    requires
        4 * width * height <= old(cbits)@.len(),
        width + 7 <= usize::MAX,
        height * packed_width(width as int) <= usize::MAX,
        height * bm_width_bytes + packed_width(width as int) <= usize::MAX,
    ensures
        ok == no_alpha(old(cbits)@, width * height),
        !ok ==> final(mbits)@ == old(mbits)@ && final(cbits)@ == old(cbits)@,
        ok ==> cursor_fixed(
            old(mbits)@,
            old(cbits)@,
            final(mbits)@,
            final(cbits)@,
            width as int,
            height as int,
            bm_width_bytes as int,
        ),
{
    proof {
        assert(4 * (width * height) == 4 * width * height) by (nonlinear_arith);
    }
    let total = cbits.len();
    assert(width * height <= total);
    let n = width * height;
    if !alpha_free(cbits, n) {
        return false;
    }
    let pw = (width + 7) / 8;
    let ghost m0 = mbits@;
    let ghost c0 = cbits@;
    pack_mask(mbits, height, pw, bm_width_bytes);
    repair_pixels(mbits, cbits, width, height, pw);
    proof {
        lemma_pack_rows_len(m0, height as int, pw as int, bm_width_bytes as int);
        lemma_repair_done(
            pack_rows(m0, height as int, pw as int, bm_width_bytes as int),
            c0,
            mbits@,
            cbits@,
            width as int,
            height as int,
            pw as int,
        );
    }
    true
}


/// The packing state after the cells before `(yd, xd)` were handled, for
/// a mask whose rows shrink (`pw <= bmw`): each handled cell holds the
/// inverted source byte, everything from the next cell on is untouched.
spec fn pack_state(m0: Seq<u8>, s: Seq<u8>, pw: int, bmw: int, yd: int, xd: int) -> bool {
    &&& s.len() == m0.len()
    &&& forall|y: int, x: int|
        0 <= y && 0 <= x < pw && processed(y, x, yd, xd) && y * pw + x < m0.len() ==> #[trigger] s[y
            * pw + x] == (if y * bmw + x < m0.len() {
            !m0[y * bmw + x]
        } else {
            m0[y * pw + x]
        })
    &&& forall|q: int| yd * pw + xd <= q < m0.len() ==> s[q] == m0[q]
}

proof fn lemma_pack_row_state(m0: Seq<u8>, s: Seq<u8>, y: int, x: int, pw: int, bmw: int)
    requires
        0 <= y,
        0 <= x <= pw,
        pw <= bmw,
        pack_state(m0, s, pw, bmw, y, 0),
    ensures
        pack_state(m0, pack_row(s, y, x, pw, bmw), pw, bmw, y, x),
    decreases x,
{
    if x > 0 {
        lemma_pack_row_state(m0, s, y, x - 1, pw, bmw);
        let prev = pack_row(s, y, x - 1, pw, bmw);
        let a = y * pw + (x - 1);
        let b = y * bmw + (x - 1);
        assert(y * pw <= y * bmw) by (nonlinear_arith)
            requires
                0 <= y,
                pw <= bmw,
        ;
        let next = pack_row(s, y, x, pw, bmw);
        assert(next == pack_cell(prev, a, b));
        assert forall|y1: int, x1: int|
            0 <= y1 && 0 <= x1 < pw && processed(y1, x1, y, x) && y1 * pw + x1 < m0.len() implies #[trigger] next[y1
            * pw + x1] == (if y1 * bmw + x1 < m0.len() {
            !m0[y1 * bmw + x1]
        } else {
            m0[y1 * pw + x1]
        }) by {
            if y1 == y && x1 == x - 1 {
                if 0 <= b < m0.len() {
                    assert(prev[b] == m0[b]);
                }
            } else {
                assert(processed(y1, x1, y, x - 1));
                if y1 < y {
                    assert(y1 * pw + x1 < y * pw) by (nonlinear_arith)
                        requires
                            0 <= y1 < y,
                            0 <= x1 < pw,
                    ;
                }
                assert(y1 * pw + x1 < a);
            }
        }
    }
}

proof fn lemma_pack_rows_state(m0: Seq<u8>, y: int, pw: int, bmw: int)
    requires
        0 <= y,
        0 <= pw <= bmw,
    ensures
        pack_state(m0, pack_rows(m0, y, pw, bmw), pw, bmw, y, 0),
    decreases y,
{
    if y > 0 {
        lemma_pack_rows_state(m0, y - 1, pw, bmw);
        let prev = pack_rows(m0, y - 1, pw, bmw);
        lemma_pack_row_state(m0, prev, y - 1, pw, pw, bmw);
        let next = pack_rows(m0, y, pw, bmw);
        assert((y - 1) * pw + pw == y * pw) by (nonlinear_arith);
        assert forall|y1: int, x1: int|
            0 <= y1 && 0 <= x1 < pw && processed(y1, x1, y, 0) && y1 * pw + x1 < m0.len() implies #[trigger] next[y1
            * pw + x1] == (if y1 * bmw + x1 < m0.len() {
            !m0[y1 * bmw + x1]
        } else {
            m0[y1 * pw + x1]
        }) by {
            assert(processed(y1, x1, y - 1, pw));
        }
    } else {
        assert forall|y1: int, x1: int|
            0 <= y1 && 0 <= x1 < pw && processed(y1, x1, y, 0) && y1 * pw + x1 < m0.len() implies false by {
        }
    }
}

/// Packing moves each row's first `pw` bytes, inverted, to their packed
/// place: where rows do not grow (`pw <= bmw`), byte `x` of packed row `y`
/// is the inverse of byte `x` of source row `y` (kept as it was when that
/// source byte lies outside the mask), and bytes past the packed rows keep
/// their value.
pub proof fn law_pack_inverts_rows(m0: Seq<u8>, h: int, pw: int, bmw: int)
    requires
        0 <= h,
        0 <= pw <= bmw,
    ensures
        pack_rows(m0, h, pw, bmw).len() == m0.len(),
        forall|y: int, x: int|
            0 <= y < h && 0 <= x < pw && y * pw + x < m0.len() ==> #[trigger] pack_rows(
                m0,
                h,
                pw,
                bmw,
            )[y * pw + x] == (if y * bmw + x < m0.len() {
                !m0[y * bmw + x]
            } else {
                m0[y * pw + x]
            }),
        forall|q: int| h * pw <= q < m0.len() ==> pack_rows(m0, h, pw, bmw)[q] == m0[q],
{
    lemma_pack_rows_state(m0, h, pw, bmw);
    let r = pack_rows(m0, h, pw, bmw);
    assert forall|y: int, x: int|
        0 <= y < h && 0 <= x < pw && y * pw + x < m0.len() implies #[trigger] r[y * pw + x] == (if y
        * bmw + x < m0.len() {
        !m0[y * bmw + x]
    } else {
        m0[y * pw + x]
    }) by {
        assert(processed(y, x, h, 0));
    }
}


/// Why the bitmaps of a cursor cannot be used.
#[derive(Clone, Copy, Debug, PartialEq, Eq, Structural)]
pub enum CursorError {
    /// Fewer than four pixels.
    TooSmall,
    /// Copying the mask bits failed.
    MaskCopyFailed,
    /// The mask copy gave another number of bytes than the buffer holds.
    MaskSizeMismatch,
}

/// The buffers for a cursor's bitmaps: its size in pixels, the colour
/// buffer (four bytes a pixel) and the mask buffer.
#[derive(Clone, Copy, Debug, PartialEq, Eq, Structural)]
pub struct CursorLayout {
    pub width: i32,
    pub height: i32,
    pub color_len: usize,
    pub mask_len: usize,
}

/// The layout of a cursor whose mask bitmap is `bm_width` x `bm_height`
/// with `bm_width_bytes` bytes a row: a monochrome cursor stacks its AND
/// and XOR masks, so its height is half the mask's; a cursor of fewer than
/// four pixels is refused.
pub open spec fn cursor_height(bm_height: i32, is_color: bool) -> int {
    if is_color {
        bm_height as int
    } else {
        crate::geometry::half(bm_height as int)
    }
}

pub fn cursor_layout(bm_width: i32, bm_height: i32, bm_width_bytes: i32, is_color: bool) -> (r: Result<
    CursorLayout,
    CursorError,
>)
    requires
        i32::MIN <= 4 * bm_width * cursor_height(bm_height, is_color) <= i32::MAX,
        0 <= bm_width_bytes * bm_height <= i32::MAX,
    ensures
        match r {
            Ok(l) => 4 * bm_width * cursor_height(bm_height, is_color) >= 16 && l.width == bm_width
                && l.height == cursor_height(bm_height, is_color) && l.color_len == 4 * bm_width
                * cursor_height(bm_height, is_color) && l.mask_len == bm_width_bytes * bm_height,
            Err(e) => 4 * bm_width * cursor_height(bm_height, is_color) < 16 && e
                == CursorError::TooSmall,
        },
{
    let height = if is_color {
        bm_height
    } else {
        bm_height / 2
    };
    assert(height as int == cursor_height(bm_height, is_color));
    assert(-0x8000_0000 * 0x8000_0000 <= (bm_width as int) * (height as int) <= 0x8000_0000 * 0x8000_0000) by (nonlinear_arith)
        requires
            -0x8000_0000 <= bm_width <= 0x7fff_ffff,
            -0x8000_0000 <= height <= 0x7fff_ffff,
    ;
    let wh = (bm_width as i64) * (height as i64);
    assert(wh as int == bm_width * cursor_height(bm_height, is_color));
    assert(4 * (bm_width * cursor_height(bm_height, is_color)) == 4 * bm_width * cursor_height(
        bm_height,
        is_color,
    )) by (nonlinear_arith);
    let size = wh * 4;
    if size < 16 {
        return Err(CursorError::TooSmall);
    }
    assert(-0x8000_0000 * 0x8000_0000 <= (bm_width_bytes as int) * (bm_height as int) <= 0x8000_0000 * 0x8000_0000) by (nonlinear_arith)
        requires
            -0x8000_0000 <= bm_width_bytes <= 0x7fff_ffff,
            -0x8000_0000 <= bm_height <= 0x7fff_ffff,
    ;
    let mask = (bm_width_bytes as i64) * (bm_height as i64);
    Ok(CursorLayout { width: bm_width, height, color_len: size as usize, mask_len: mask as usize })
}

/// Checks the result of copying `mask_len` bytes of mask bits (`copied`
/// bytes reported, 0 for failure).
pub fn check_mask_copy(copied: i32, mask_len: usize) -> (r: Result<(), CursorError>)
    requires
        mask_len <= i32::MAX,
    ensures
        r == (if copied == 0 {
            Err(CursorError::MaskCopyFailed)
        } else if copied as int != mask_len as int {
            Err(CursorError::MaskSizeMismatch)
        } else {
            Ok(())
        }),
{
    if copied == 0 {
        Err(CursorError::MaskCopyFailed)
    } else if copied != mask_len as i32 {
        Err(CursorError::MaskSizeMismatch)
    } else {
        Ok(())
    }
}

/// The layout after an outline is drawn around a cursor: one pixel more on
/// every side, the hotspot moved along, and the new colour buffer length.
pub fn outlined_layout(width: i32, height: i32, hot_x: i32, hot_y: i32) -> (r: (i32, i32, i32, i32, usize))
    requires
        0 <= width,
        0 <= height,
        4 * (width + 2) * (height + 2) <= i32::MAX,
        hot_x < i32::MAX,
        hot_y < i32::MAX,
    ensures
        r == (
            (width + 2) as i32,
            (height + 2) as i32,
            (hot_x + 1) as i32,
            (hot_y + 1) as i32,
            (4 * (width + 2) * (height + 2)) as usize,
        ),
{
    assert(width + 2 <= 4 * (width + 2) * (height + 2) && height + 2 <= 4 * (width + 2) * (height
        + 2)) by (nonlinear_arith)
        requires
            0 <= width,
            0 <= height,
    ;
    let w = width + 2;
    let h = height + 2;
    assert(0 <= w * h && 4 * (w * h) == 4 * w * h) by (nonlinear_arith)
        requires
            0 <= w,
            0 <= h,
    ;
    let len = (w * h) * 4;
    (w, h, hot_x + 1, hot_y + 1, len as usize)
}

} // verus!
