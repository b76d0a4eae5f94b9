use byteplug::geometry::{Position, Size};
use byteplug::image::{Color, Error, Image};

fn make_2x3_random_pixels() -> Vec<Color> {
    vec![
        Color::red(),
        Color::green(),
        Color::blue(),
        Color::white(),
        Color::black(),
        Color::transparent(),
    ]
}

#[test]
fn image_new() {
    let image = Image::new();
    assert_eq!(image.size(), Size::new(0, 0));
    assert_eq!(image.pixels(), &vec![]);
}

#[test]
fn image_with_size() {
    let size = Size::<usize>::new(2, 3);
    let color = Color::default();

    let image = Image::with_size(size, color);
    assert_eq!(image.size(), size);
    assert_eq!(image.pixels(), &vec![Color::default(); size.width * size.height]);
}

#[test]
fn image_with_pixels() {
    let size = Size::<usize>::new(2, 3);
    let pixels = make_2x3_random_pixels();

    let image = Image::with_pixels(size, pixels.clone()).unwrap();
    assert_eq!(image.size(), size);
    assert_eq!(image.pixels(), &pixels);

    let invalid_pixels = vec![Color::default(); 5];
    let result = Image::with_pixels(size, invalid_pixels);
    assert_eq!(result.unwrap_err(), Error::InvalidPixels(2 * 3));
}

#[test]
fn image_resize() {
    let mut image = Image::new();

    assert_eq!(image.size(), Size::new(0, 0));
    image.resize(Size::new(2, 3), Color::default());

    assert_eq!(image.size(), Size::new(2, 3));
    assert_eq!(image.pixels().len(), 6);

    for pixel in image.pixels().iter() {
        assert_eq!(pixel, &Color::default());
    }
}

#[test]
fn image_pixels() {
    let size = Size::new(2, 3);
    let mut pixels = make_2x3_random_pixels();

    let mut image = Image::new();
    image.update_pixels(pixels.clone(), size).unwrap();

    assert_eq!(image.size(), size);
    assert_eq!(image.pixels(), &pixels);

    assert_eq!(image.pixel(Position::new(0, 0)), Some(&Color::red()));
    assert_eq!(image.pixel(Position::new(1, 0)), Some(&Color::green()));
    assert_eq!(image.pixel(Position::new(0, 1)), Some(&Color::blue()));
    assert_eq!(image.pixel(Position::new(1, 1)), Some(&Color::white()));
    assert_eq!(image.pixel(Position::new(0, 2)), Some(&Color::black()));
    assert_eq!(image.pixel(Position::new(1, 2)), Some(&Color::transparent()));

    *image.pixel_mut(Position::new(1, 0)).unwrap() = Color::magenta();
    *image.pixel_mut(Position::new(0, 2)).unwrap() = Color::cyan();
    *image.pixel_mut(Position::new(1, 2)).unwrap() = Color::yellow();

    pixels[1] = Color::magenta();
    pixels[4] = Color::cyan();
    pixels[5] = Color::yellow();

    assert_eq!(image.pixels(), &pixels);

    {
        let invalid_pixels = vec![Color::default(); 5];
        let result = image.update_pixels(invalid_pixels, size);
        assert_eq!(result.unwrap_err(), Error::InvalidPixels(2 * 3));
    }

    {
        let invalid_pixels = vec![Color::default(); 7];
        let result = image.update_pixels(invalid_pixels, size);
        assert_eq!(result.unwrap_err(), Error::InvalidPixels(2 * 3));
    }

    assert_eq!(image.size(), size);
    assert_eq!(image.pixels(), &pixels);
}

#[test]
fn image_pixel_outside_the_grid() {
    let image = Image::with_pixels(Size::new(2, 3), make_2x3_random_pixels()).unwrap();
    assert_eq!(image.pixel(Position::new(0, 3)), None);
    assert_eq!(image.pixel(Position::new(-1, 0)), None);
    assert_eq!(image.pixel(Position::new(0, -1)), None);
    assert_eq!(image.pixel(Position::new(isize::MAX, isize::MAX)), None);
    assert_eq!(image.pixel(Position::new(isize::MIN, isize::MAX)), None);
    // The row-major index alone decides: one past the right edge is the
    // first pixel of the next row.
    assert_eq!(image.pixel(Position::new(2, 0)), Some(&Color::blue()));
    assert_eq!(image.pixel(Position::new(-1, 1)), Some(&Color::green()));
}

#[test]
fn image_pixel_mut_outside_the_grid() {
    let mut image = Image::with_pixels(Size::new(2, 3), make_2x3_random_pixels()).unwrap();
    assert!(image.pixel_mut(Position::new(2, 2)).is_none());
    assert_eq!(image.pixels(), &make_2x3_random_pixels());
}

#[test]
fn image_resize_keeps_and_extends_pixels() {
    let mut image = Image::with_pixels(Size::new(2, 3), make_2x3_random_pixels()).unwrap();
    image.resize(Size::new(2, 2), Color::cyan());
    assert_eq!(image.size(), Size::new(2, 2));
    assert_eq!(image.pixels(), &make_2x3_random_pixels()[0..4].to_vec());

    image.resize(Size::new(3, 2), Color::cyan());
    assert_eq!(image.size(), Size::new(3, 2));
    let mut expected = make_2x3_random_pixels()[0..4].to_vec();
    expected.push(Color::cyan());
    expected.push(Color::cyan());
    assert_eq!(image.pixels(), &expected);
}

#[test]
fn image_to_rgba8() {
    let image = Image::with_pixels(
        Size::new(2, 1),
        vec![Color::rgba(1, 2, 3, 4), Color::rgba(5, 6, 7, 8)],
    )
    .unwrap();
    assert_eq!(image.to_rgba8(), vec![1, 2, 3, 4, 5, 6, 7, 8]);
    assert_eq!(Image::new().to_rgba8(), Vec::<u8>::new());
}

#[test]
fn image_from_png_frame() {
    let data = vec![1, 2, 3, 4, 5, 6, 7, 8];
    let image = Image::from_png_frame(1, 2, 6, 8, &data).unwrap();
    assert_eq!(image.size(), Size::new(1, 2));
    assert_eq!(image.pixels(), &vec![Color::rgba(1, 2, 3, 4), Color::rgba(5, 6, 7, 8)]);

    assert_eq!(Image::from_png_frame(1, 2, 2, 8, &data).unwrap_err(), Error::UnsupportedFormat);
    assert_eq!(Image::from_png_frame(1, 2, 6, 16, &data).unwrap_err(), Error::UnsupportedFormat);
    assert_eq!(Image::from_png_frame(2, 2, 6, 8, &data).unwrap_err(), Error::CorruptedData);
    assert_eq!(Image::from_png_frame(1, 1, 6, 8, &data).unwrap_err(), Error::CorruptedData);
    assert_eq!(
        Image::from_png_frame(u32::MAX, u32::MAX, 6, 8, &data).unwrap_err(),
        Error::CorruptedData
    );
}

#[test]
fn image_save() {
    let image = Image::with_pixels(Size::new(2, 3), make_2x3_random_pixels()).unwrap();
    let bytes = image.save().unwrap();
    assert_eq!(&bytes[0..8], &[137, 80, 78, 71, 13, 10, 26, 10]);

    let mut saved_image = Image::new();
    saved_image.load(&bytes).unwrap();

    assert_eq!(image.size(), saved_image.size());
    assert_eq!(image.pixels(), saved_image.pixels());
}

#[test]
fn image_save_empty_image_fails() {
    assert_eq!(Image::new().save().unwrap_err(), Error::EncodingFailed);
    let image = Image::with_size(Size::new(0, 4), Color::red());
    assert_eq!(image.save().unwrap_err(), Error::EncodingFailed);
}

#[test]
fn image_load_rejects_garbage() {
    let mut image = Image::with_size(Size::new(1, 1), Color::red());
    assert_eq!(image.load(&[1, 2, 3, 4]).unwrap_err(), Error::CorruptedData);
    assert_eq!(image.load(&[]).unwrap_err(), Error::CorruptedData);
    assert_eq!(image.size(), Size::new(1, 1));
    assert_eq!(image.pixels(), &vec![Color::red()]);
}

#[test]
fn color_constructors() {
    assert_eq!(Color::new(), Color { red: 0, green: 0, blue: 0, alpha: 255 });
    assert_eq!(Color::default(), Color::black());
    assert_eq!(Color::rgb(1, 2, 3), Color { red: 1, green: 2, blue: 3, alpha: 255 });
    assert_eq!(Color::rgba(1, 2, 3, 4), Color { red: 1, green: 2, blue: 3, alpha: 4 });
    assert_eq!(Color::argb(4, 1, 2, 3), Color { red: 1, green: 2, blue: 3, alpha: 4 });
    assert_eq!(Color::magenta(), Color::rgb(255, 0, 255));
    assert_eq!(Color::transparent(), Color::rgba(0, 0, 0, 0));
}

#[test]
fn color_addition_saturates() {
    assert_eq!(Color::rgba(100, 200, 0, 10) + Color::rgba(100, 100, 0, 20), Color::rgba(200, 255, 0, 30));
    let mut c = Color::red();
    c += Color::rgba(1, 2, 3, 4);
    assert_eq!(c, Color::rgba(255, 2, 3, 255));
}
