use hdesk_platform::cursor_mask::fix_cursor_mask;

#[test]
fn alpha_cursor_is_left_alone() {
    let mut m = vec![0x12, 0x34];
    let mut c = vec![1, 2, 3, 0, 4, 5, 6, 9];
    assert!(!fix_cursor_mask(&mut m, &mut c, 2, 1, 2));
    assert_eq!(m, vec![0x12, 0x34]);
    assert_eq!(c, vec![1, 2, 3, 0, 4, 5, 6, 9]);
}

#[test]
fn mask_is_packed_inverted_and_pixels_get_alpha() {
    let mut m = vec![0b0100_0000, 0xAA];
    let mut c = vec![10, 20, 30, 0, 0, 0, 0, 0];
    assert!(fix_cursor_mask(&mut m, &mut c, 2, 1, 2));
    assert_eq!(m, vec![0xBF, 0xAA]);
    assert_eq!(c, vec![30, 20, 10, 255, 0, 0, 0, 0]);
}

#[test]
fn inverted_background_becomes_opaque_black() {
    let mut m = vec![0b0100_0000, 0xAA];
    let mut c = vec![10, 20, 30, 0, 5, 0, 0, 0];
    assert!(fix_cursor_mask(&mut m, &mut c, 2, 1, 2));
    assert_eq!(m, vec![0xFF, 0xAA]);
    assert_eq!(c, vec![30, 20, 10, 255, 0, 0, 0, 255]);
}

#[test]
fn rows_are_packed_from_wider_source_rows() {
    // Two rows of 3 pixels; source rows are 2 bytes wide, packed rows 1.
    let mut m = vec![0x00, 0x11, 0xFF, 0x22];
    let mut c = vec![0u8; 4 * 6];
    for (i, b) in c.iter_mut().enumerate() {
        if i % 4 == 0 {
            *b = 1;
        }
    }
    assert!(fix_cursor_mask(&mut m, &mut c, 3, 2, 2));
    // Row 0: !0x00 = 0xFF, row 1: !0xFF = 0x00 then its three pixels are
    // painted black and their bits set: 0xE0.
    assert_eq!(m, vec![0xFF, 0xE0, 0xFF, 0x22]);
    for px in 0..3 {
        assert_eq!(&c[4 * px..4 * px + 4], &[0, 0, 1, 255]);
    }
    for px in 3..6 {
        assert_eq!(&c[4 * px..4 * px + 4], &[0, 0, 0, 255]);
    }
}

/// The repair written as three passes over the bitmaps, for comparison.
fn three_pass_fix(mbits: &mut Vec<u8>, cbits: &mut Vec<u8>, width: usize, height: usize, bm_width_bytes: usize) -> bool {
    let mut pix_idx = 0;
    for _ in 0..height {
        for _ in 0..width {
            if cbits[pix_idx + 3] != 0 {
                return false;
            }
            pix_idx += 4;
        }
    }
    let packed_width_bytes = (width + 7) >> 3;
    let bm_size = mbits.len();
    let c_size = cbits.len();
    for y in 0..height {
        for x in 0..packed_width_bytes {
            let a = y * packed_width_bytes + x;
            let b = y * bm_width_bytes + x;
            if a < bm_size && b < bm_size {
                mbits[a] = !mbits[b];
            }
        }
    }
    let bytes_row = width << 2;
    for y in 0..height {
        let mut bitmask: u8 = 0x80;
        for x in 0..width {
            let mask_idx = y * packed_width_bytes + (x >> 3);
            if mask_idx < bm_size {
                let pix_idx = y * bytes_row + (x << 2);
                if (mbits[mask_idx] & bitmask) == 0 {
                    for b1 in 0..4 {
                        let a = pix_idx + b1;
                        if a < c_size && cbits[a] != 0 {
                            mbits[mask_idx] ^= bitmask;
                            for b2 in b1..4 {
                                let b = pix_idx + b2;
                                if b < c_size {
                                    cbits[b] = 0x00;
                                }
                            }
                            break;
                        }
                    }
                }
            }
            bitmask >>= 1;
            if bitmask == 0 {
                bitmask = 0x80;
            }
        }
    }
    let mut pix_idx = 0;
    for y in 0..height {
        for x in 0..width {
            let mask_idx = y * packed_width_bytes + (x >> 3);
            let mut alpha = 255;
            if mask_idx < bm_size && (mbits[mask_idx] << (x & 0x7)) & 0x80 == 0 {
                alpha = 0;
            }
            let a = cbits[pix_idx + 2];
            let b = cbits[pix_idx + 1];
            let c = cbits[pix_idx];
            cbits[pix_idx] = a;
            cbits[pix_idx + 1] = b;
            cbits[pix_idx + 2] = c;
            cbits[pix_idx + 3] = alpha;
            pix_idx += 4;
        }
    }
    true
}

#[test]
fn matches_three_passes_on_many_bitmaps() {
    let mut seed: u64 = 0x2545_F491_4F6C_DD1D;
    let mut next = move || {
        seed ^= seed << 13;
        seed ^= seed >> 7;
        seed ^= seed << 17;
        seed
    };
    for _ in 0..400 {
        let width = (next() % 20) as usize;
        let height = (next() % 6) as usize;
        let bmw = ((width + 7) / 8) + (next() % 3) as usize;
        let mlen = bmw * height + (next() % 3) as usize;
        let extra = (next() % 5) as usize;
        let mut m: Vec<u8> = (0..mlen).map(|_| next() as u8).collect();
        let mut c: Vec<u8> = (0..4 * width * height + extra)
            .map(|i| {
                let v = next();
                if i % 4 == 3 && v % 7 != 0 {
                    0
                } else if v % 3 == 0 {
                    0
                } else {
                    v as u8
                }
            })
            .collect();
        let (mut m2, mut c2) = (m.clone(), c.clone());
        let ok = fix_cursor_mask(&mut m, &mut c, width, height, bmw);
        let ok2 = three_pass_fix(&mut m2, &mut c2, width, height, bmw);
        assert_eq!(ok, ok2);
        assert_eq!(m, m2);
        assert_eq!(c, c2);
    }
}

use hdesk_platform::cursor_mask::{check_mask_copy, cursor_layout, outlined_layout, CursorError, CursorLayout};

#[test]
fn cursor_buffers_are_sized_from_the_mask() {
    assert_eq!(
        cursor_layout(32, 32, 4, true),
        Ok(CursorLayout { width: 32, height: 32, color_len: 4096, mask_len: 128 })
    );
    assert_eq!(
        cursor_layout(32, 64, 4, false),
        Ok(CursorLayout { width: 32, height: 32, color_len: 4096, mask_len: 256 })
    );
    assert_eq!(cursor_layout(1, 3, 2, true), Err(CursorError::TooSmall));
    assert_eq!(cursor_layout(2, 2, 2, true), Ok(CursorLayout { width: 2, height: 2, color_len: 16, mask_len: 4 }));
    assert_eq!(check_mask_copy(0, 128), Err(CursorError::MaskCopyFailed));
    assert_eq!(check_mask_copy(64, 128), Err(CursorError::MaskSizeMismatch));
    assert_eq!(check_mask_copy(128, 128), Ok(()));
    assert_eq!(outlined_layout(32, 32, 5, 6), (34, 34, 6, 7, 4624));
}
