use couch_gui::kodi_pictures::{backdrop, backdrop_pixels, BACKDROP_HEIGHT, BACKDROP_WIDTH};

#[test]
fn the_backdrop_is_a_picture_that_reads_back() {
    let pixels = backdrop_pixels();
    assert_eq!(pixels.len(), 960 * 540 * 3);
    let at = |x: usize, y: usize| {
        let i = 3 * (960 * y + x);
        [pixels[i], pixels[i + 1], pixels[i + 2]]
    };
    assert_eq!(at(0, 0), [70, 0, 0]);
    assert_eq!(at(60, 0), [25, 0, 13]);
    assert_eq!(at(60, 60), [70, 18, 13]);
    assert_eq!(at(959, 539), [25, 169, 209]);
    let file = backdrop().unwrap();
    assert_ne!(file, pixels);
    let picture = image::load_from_memory(&file).unwrap().to_rgb8();
    assert_eq!(picture.dimensions(), (BACKDROP_WIDTH, BACKDROP_HEIGHT));
    assert_eq!(picture.into_raw(), pixels);
}
