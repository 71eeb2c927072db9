use mfhq::raster::Raster;
use mfhq::vision::{self, Integral};

#[test]
fn fast_lengths() {
    assert_eq!(vision::next_fast_len(1), 1);
    assert_eq!(vision::next_fast_len(7), 8);
    assert_eq!(vision::next_fast_len(11), 12);
    assert_eq!(vision::next_fast_len(1471), 1500);
    assert_eq!(vision::next_fast_len(923), 960);
    assert_eq!(vision::next_fast_len(14), 15);
}

#[test]
fn transpose_and_back() {
    let a: Vec<u32> = (0..6).collect();
    let mut b = vec![0u32; 8];
    vision::transpose(&a, &mut b, 3, 2);
    assert_eq!(b, vec![0, 3, 1, 4, 2, 5, 0, 0]);
    let mut c = vec![9u32; 6];
    vision::transpose(&b, &mut c, 2, 3);
    assert_eq!(c, a);
}

fn image(w: usize, h: usize) -> Vec<u8> {
    (0..w * h * 3).map(|i| ((i * 37 + 11) % 256) as u8).collect()
}

#[test]
fn integral_windows_are_exact_sums() {
    let (w, h) = (5usize, 4usize);
    let raw = image(w, h);
    for ch in [Some(0), Some(1), Some(2), None] {
        let t = Integral::new(&raw, w, h, ch);
        for (x, y, tw, th) in [(0, 0, 5, 4), (1, 1, 2, 3), (4, 3, 1, 1), (2, 0, 3, 2), (3, 2, 0, 2)] {
            let mut expect: u128 = 0;
            for yy in y..y + th {
                for xx in x..x + tw {
                    let b = (yy * w + xx) * 3;
                    expect += match ch {
                        Some(c) => raw[b + c] as u128,
                        None => (0..3).map(|c| (raw[b + c] as u128) * (raw[b + c] as u128)).sum(),
                    };
                }
            }
            assert_eq!(t.window(x, y, tw, th), expect);
        }
    }
}

#[test]
fn template_sums() {
    let raw = vec![1u8, 2, 3, 4, 5, 6, 255, 0, 10];
    assert_eq!(vision::channel_sums(&raw, 3, 0), (260, 1 + 16 + 65025));
    assert_eq!(vision::channel_sums(&raw, 3, 2), (19, 9 + 36 + 100));
}

#[test]
fn match_regions() {
    assert_eq!(vision::match_region(10, 8, 3, 2), Some((8, 7)));
    assert_eq!(vision::match_region(10, 8, 10, 8), Some((1, 1)));
    assert_eq!(vision::match_region(10, 8, 11, 2), None);
    assert_eq!(vision::match_region(10, 8, 0, 2), None);
}

#[test]
fn raster_crop_clips() {
    let raw = image(4, 3);
    let r = Raster::from_raw(4, 3, raw.clone()).unwrap();
    assert!(Raster::from_raw(4, 3, vec![0; 5]).is_none());
    let c = r.crop(1, 1, 2, 5);
    assert_eq!((c.width(), c.height()), (2, 2));
    let px = |img: &[u8], w: usize, x: usize, y: usize| img[(y * w + x) * 3..(y * w + x) * 3 + 3].to_vec();
    assert_eq!(px(c.as_raw(), 2, 0, 0), px(&raw, 4, 1, 1));
    assert_eq!(px(c.as_raw(), 2, 1, 1), px(&raw, 4, 2, 2));
    let e = r.crop(9, 9, 2, 2);
    assert_eq!((e.width(), e.height()), (0, 0));
}

#[test]
fn bgra_to_rgb() {
    let buf = vec![1u8, 2, 3, 255, 4, 5, 6, 255];
    let r = Raster::from_bgra(2, 1, &buf);
    assert_eq!(r.into_raw(), vec![3, 2, 1, 6, 5, 4]);
}

#[test]
fn decode_png() {
    let mut img = image::RgbImage::new(2, 1);
    img.put_pixel(0, 0, image::Rgb([10, 20, 30]));
    img.put_pixel(1, 0, image::Rgb([40, 50, 60]));
    let mut bytes = std::io::Cursor::new(Vec::new());
    img.write_to(&mut bytes, image::ImageFormat::Png).unwrap();
    let r = Raster::decode(bytes.get_ref()).unwrap();
    assert_eq!((r.width(), r.height()), (2, 1));
    assert_eq!(r.as_raw(), &[10, 20, 30, 40, 50, 60]);
    assert!(Raster::decode(&[1, 2, 3]).is_none());
}

#[test]
fn template_sum_equals_full_window() {
    let (w, h) = (6usize, 3usize);
    let raw = image(w, h);
    for c in 0..3 {
        let (s, _) = vision::channel_sums(&raw, w * h, c);
        assert_eq!(s, Integral::new(&raw, w, h, Some(c)).window(0, 0, w, h));
    }
}

#[test]
fn integral_ignores_trailing_bytes() {
    let (w, h) = (4usize, 3usize);
    let raw = image(w, h);
    let mut longer = raw.clone();
    longer.extend_from_slice(&[255; 7]);
    for ch in [Some(1), None] {
        let a = Integral::new(&raw, w, h, ch);
        let b = Integral::new(&longer, w, h, ch);
        assert_eq!(a.window(0, 0, w, h), b.window(0, 0, w, h));
        assert_eq!(a.window(1, 1, 3, 2), b.window(1, 1, 3, 2));
    }
}
