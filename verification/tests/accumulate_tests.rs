use raytracer_core::accumulate::{ImageCombiner, Pixel, RawImage, combine_images};
use raytracer_core::sync::CompletionToken;

fn constant_frame(width: u32, height: u32, px: Pixel) -> RawImage {
    let n = (width as usize) * (height as usize);
    RawImage { width, height, pixels: vec![px; n] }
}

fn accumulate_n_identical(n: usize) {
    let raw = constant_frame(8, 4, Pixel { r: 13, g: 200, b: 77, a: 255 });
    let mut combiner = ImageCombiner::new([8, 4]);
    let mut token = CompletionToken::initial();
    for _ in 0..n {
        let (t, _d) = combiner.next_frame(&raw, token);
        token = t;
    }
    let shown = combiner.image();
    assert_eq!(shown.pixels, raw.pixels);
}

#[test]
fn one_identical_frame_shows_exactly() {
    accumulate_n_identical(1);
}

#[test]
fn five_identical_frames_show_exactly() {
    accumulate_n_identical(5);
}

#[test]
fn hundred_identical_frames_show_exactly() {
    accumulate_n_identical(100);
}

#[test]
fn first_frame_after_reset_overwrites() {
    let bright = constant_frame(4, 4, Pixel { r: 250, g: 250, b: 250, a: 255 });
    let dark = constant_frame(4, 4, Pixel { r: 3, g: 5, b: 7, a: 255 });
    let mut combiner = ImageCombiner::new([4, 4]);
    let mut token = CompletionToken::initial();
    for _ in 0..6 {
        let (t, _d) = combiner.next_frame(&bright, token);
        token = t;
    }
    // the camera moved: the next frame must not blend with the history
    combiner.reset();
    let (_t, d) = combiner.next_frame(&dark, token);
    assert_eq!(d.frame, 0);
    let shown = combiner.image();
    assert_eq!(shown.pixels, dark.pixels);
}

#[test]
fn mean_of_two_frames_is_exact() {
    let a = constant_frame(2, 2, Pixel { r: 10, g: 0, b: 255, a: 255 });
    let b = constant_frame(2, 2, Pixel { r: 20, g: 1, b: 0, a: 255 });
    let mut combiner = ImageCombiner::new([2, 2]);
    let token = CompletionToken::initial();
    let (token, _) = combiner.next_frame(&a, token);
    let (_token, _) = combiner.next_frame(&b, token);
    let shown = combiner.image();
    // integer mean, rounded down: (10+20)/2, (0+1)/2, (255+0)/2
    assert_eq!(shown.pixels[0], Pixel { r: 15, g: 0, b: 127, a: 255 });
}

#[test]
fn image_before_first_frame_is_black() {
    let combiner = ImageCombiner::new([3, 5]);
    let shown = combiner.image();
    assert_eq!(shown.pixels.len(), 15);
    for px in shown.pixels.iter() {
        assert_eq!(*px, Pixel { r: 0, g: 0, b: 0, a: 0 });
    }
}

#[test]
fn blend_dispatch_covers_all_pixels_in_groups_of_256() {
    let raw = constant_frame(100, 100, Pixel { r: 1, g: 2, b: 3, a: 4 });
    let mut combiner = ImageCombiner::new([100, 100]);
    let (token, d) = combiner.next_frame(&raw, CompletionToken::initial());
    assert_eq!(token.id, 1);
    assert_eq!(d.frame, 0);
    assert_eq!(d.image_width, 100);
    assert_eq!(d.image_height, 100);
    // ceil(10000 / 256) = 40
    assert_eq!((d.group_x, d.group_y, d.group_z), (40, 1, 1));
    let (token2, d2) = combiner.next_frame(&raw, token);
    assert_eq!(token2.id, 2);
    assert_eq!(d2.frame, 1);
}

#[test]
fn batch_combine_is_order_independent() {
    let a = constant_frame(2, 3, Pixel { r: 9, g: 18, b: 27, a: 255 });
    let b = constant_frame(2, 3, Pixel { r: 100, g: 50, b: 25, a: 255 });
    let c = constant_frame(2, 3, Pixel { r: 33, g: 66, b: 99, a: 0 });
    let one = combine_images(&vec![a.clone(), b.clone(), c.clone()]);
    let other = combine_images(&vec![c, a, b]);
    assert_eq!(one.pixels, other.pixels);
    // and the mean itself is exact: (9+100+33)/3, (18+50+66)/3, (27+25+99)/3, (255+255+0)/3
    assert_eq!(one.pixels[0], Pixel { r: 47, g: 44, b: 50, a: 170 });
}
