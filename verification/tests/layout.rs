use kornia_gpu::{GpuError, GpuImageLayout};

#[test]
fn layout_shape_strides_numel() {
    let l = GpuImageLayout::new(4, 6, 3).unwrap();
    assert_eq!(l.height(), 4);
    assert_eq!(l.width(), 6);
    assert_eq!(l.channels(), 3);
    assert_eq!(l.numel(), 72);
    assert_eq!(l.shape(), [4, 6, 3]);
    assert_eq!(l.strides(), [18, 3, 1]);
}

#[test]
fn layout_1080p_rgb() {
    let l = GpuImageLayout::new(1080, 1920, 3).unwrap();
    assert_eq!(l.numel(), 6_220_800);
    assert_eq!(l.size_in_bytes(4), Some(24_883_200));
    assert_eq!(l.strides(), [5760, 3, 1]);
}

#[test]
fn layout_overflow_is_rejected() {
    assert!(GpuImageLayout::new(usize::MAX, 2, 1).is_none());
    assert!(GpuImageLayout::new(1, usize::MAX, 2).is_none());
    assert!(GpuImageLayout::new(1 << 40, 1 << 20, 1 << 10).is_none());
    // zero rows: no elements, whatever the row length
    let empty = GpuImageLayout::new(0, usize::MAX, 2).unwrap();
    assert_eq!(empty.numel(), 0);
    assert_eq!(empty.shape(), [0, usize::MAX, 2]);
    assert!(GpuImageLayout::new(usize::MAX, 1, 1).is_some());
}

#[test]
fn layout_size_in_bytes_overflow() {
    let l = GpuImageLayout::new(usize::MAX, 1, 1).unwrap();
    assert_eq!(l.size_in_bytes(1), Some(usize::MAX));
    assert_eq!(l.size_in_bytes(2), None);
}

#[test]
fn layout_empty_image() {
    let l = GpuImageLayout::new(0, 8, 3).unwrap();
    assert_eq!(l.numel(), 0);
    assert_eq!(l.strides(), [24, 3, 1]);
}

#[test]
fn layout_same_size_ignores_channels() {
    let rgb = GpuImageLayout::new(8, 8, 3).unwrap();
    let gray = GpuImageLayout::new(8, 8, 1).unwrap();
    let other = GpuImageLayout::new(8, 4, 3).unwrap();
    assert!(rgb.same_size(&gray));
    assert!(!rgb.same_size(&other));
}

#[test]
fn layout_expect_same_size_ok() {
    let src = GpuImageLayout::new(8, 8, 3).unwrap();
    let dst = GpuImageLayout::new(8, 8, 3).unwrap();
    assert!(src.expect_same_size(&dst).is_ok());
}

#[test]
fn layout_expect_same_size_mismatch() {
    let src = GpuImageLayout::new(8, 8, 3).unwrap();
    let dst = GpuImageLayout::new(4, 6, 3).unwrap();
    match src.expect_same_size(&dst) {
        Err(GpuError::BufferSizeMismatch(a, b, c, d)) => assert_eq!((a, b, c, d), (8, 8, 4, 6)),
        _ => panic!("expected BufferSizeMismatch"),
    }
}

#[test]
fn layout_with_channels_for_gray() {
    let rgb = GpuImageLayout::new(8, 8, 3).unwrap();
    let gray = rgb.with_channels(1).unwrap();
    assert_eq!(gray.shape(), [8, 8, 1]);
    assert_eq!(gray.numel() * 3, rgb.numel());
    assert!(GpuImageLayout::new(1 << 40, 1 << 20, 1).unwrap().with_channels(1 << 10).is_none());
}

#[test]
fn layout_flat_offsets_are_distinct_and_in_bounds() {
    let l = GpuImageLayout::new(3, 5, 3).unwrap();
    let [s0, s1, s2] = l.strides();
    let mut seen = vec![false; l.numel()];
    for row in 0..l.height() {
        for col in 0..l.width() {
            for ch in 0..l.channels() {
                let off = (row * l.width() + col) * l.channels() + ch;
                assert_eq!(off, row * s0 + col * s1 + ch * s2);
                assert!(off < l.numel());
                assert!(!seen[off]);
                seen[off] = true;
            }
        }
    }
    assert!(seen.iter().all(|&b| b));
}

#[test]
fn layout_bilinear_window_at_bottom_right_stays_inside() {
    // The last window that passes the sampling bounds test: x0 = w - 2, y0 = h - 2.
    let l = GpuImageLayout::new(8, 8, 3).unwrap();
    let (w, c) = (l.width(), l.channels());
    let (x0, y0) = (w - 2, l.height() - 2);
    for ch in 0..c {
        let base = (y0 * w + x0) * c + ch;
        let p11 = base + w * c + c;
        assert_eq!(p11, ((y0 + 1) * w + (x0 + 1)) * c + ch);
        assert!(p11 < l.numel());
    }
    // The bottom-right element is the last one in the buffer.
    assert_eq!(((y0 + 1) * w + (x0 + 1)) * c + (c - 1), l.numel() - 1);
}
