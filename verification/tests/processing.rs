use reddit_harvest::ImagePlan;
use reddit_harvest::RedditError;
use reddit_harvest::encode_image;
use reddit_harvest::orientation_prefix;
use reddit_harvest::plan_image;
use reddit_harvest::write_decision;

fn jpeg_bytes(w: u32, h: u32) -> Vec<u8> {
    let img = image::DynamicImage::ImageRgb8(image::RgbImage::new(w, h));
    let mut buf = std::io::Cursor::new(Vec::new());
    img.write_to(&mut buf, image::ImageOutputFormat::Jpeg(90)).unwrap();
    buf.into_inner()
}

fn png_bytes(w: u32, h: u32) -> Vec<u8> {
    let img = image::DynamicImage::ImageRgb8(image::RgbImage::new(w, h));
    let mut buf = std::io::Cursor::new(Vec::new());
    img.write_to(&mut buf, image::ImageOutputFormat::Png).unwrap();
    buf.into_inner()
}

fn saved_name(plan: &ImagePlan) -> &str {
    match plan {
        ImagePlan::Save { name, .. } => name.as_str(),
        ImagePlan::TooSmall => panic!("expected a save plan"),
    }
}

#[test]
fn wide_image_gets_sir_name_from_url_segment() {
    let bytes = jpeg_bytes(2000, 1500);
    let plan = plan_image("https://example.com/photos/photo.jpg", &bytes).unwrap();
    assert_eq!(saved_name(&plan), "sir_photo.jpg");
}

#[test]
fn tall_image_gets_vys_name() {
    let bytes = jpeg_bytes(1500, 2000);
    let plan = plan_image("https://i.redd.it/abc.jpg", &bytes).unwrap();
    assert_eq!(saved_name(&plan), "vys_abc.jpg");
}

#[test]
fn square_image_gets_vys_name() {
    let bytes = jpeg_bytes(1700, 1700);
    let plan = plan_image("https://i.redd.it/def.jpg", &bytes).unwrap();
    assert_eq!(saved_name(&plan), "vys_def.jpg");
}

#[test]
fn largest_dimension_1599_is_discarded() {
    let bytes = jpeg_bytes(1599, 800);
    let plan = plan_image("https://example.com/a.jpg", &bytes).unwrap();
    assert!(matches!(plan, ImagePlan::TooSmall));
    let bytes = jpeg_bytes(800, 1599);
    let plan = plan_image("https://example.com/a.jpg", &bytes).unwrap();
    assert!(matches!(plan, ImagePlan::TooSmall));
}

#[test]
fn largest_dimension_1600_is_kept() {
    let bytes = jpeg_bytes(1600, 800);
    let plan = plan_image("https://example.com/a.jpg", &bytes).unwrap();
    assert_eq!(saved_name(&plan), "sir_a.jpg");
    let bytes = jpeg_bytes(800, 1600);
    let plan = plan_image("https://example.com/a.jpg", &bytes).unwrap();
    assert_eq!(saved_name(&plan), "vys_a.jpg");
}

#[test]
fn png_source_is_decoded_by_format_detection() {
    let bytes = png_bytes(1800, 1600);
    let plan = plan_image("https://example.com/pic.png.jpg", &bytes).unwrap();
    assert_eq!(saved_name(&plan), "sir_pic.png.jpg");
}

#[test]
fn unrecognized_bytes_are_a_decode_error() {
    let bytes = vec![1u8, 2, 3, 4, 5];
    let r = plan_image("https://example.com/a.jpg", &bytes);
    assert!(matches!(r, Err(RedditError::Decode)));
}

#[test]
fn empty_bytes_are_a_decode_error() {
    let r = plan_image("https://example.com/a.jpg", &Vec::new());
    assert!(matches!(r, Err(RedditError::Decode)));
}

#[test]
fn url_without_file_name_is_reported() {
    let bytes = jpeg_bytes(1700, 1700);
    let r = plan_image("https://example.com/photos/", &bytes);
    match r {
        Err(e) => assert_eq!(e.message(), "image url has no file name"),
        Ok(_) => panic!("expected an error for a url ending in a slash"),
    }
}

#[test]
fn orientation_prefix_rules() {
    assert_eq!(orientation_prefix(1200, 800), "sir");
    assert_eq!(orientation_prefix(800, 1200), "vys");
    assert_eq!(orientation_prefix(1000, 1000), "vys");
}

#[test]
fn existing_file_suppresses_the_write() {
    let bytes = jpeg_bytes(2000, 1500);
    let plan = plan_image("https://example.com/photo.jpg", &bytes).unwrap();
    assert!(write_decision(&plan, true).is_none());
}

#[test]
fn absent_file_lets_the_write_happen() {
    let bytes = jpeg_bytes(2000, 1500);
    let plan = plan_image("https://example.com/photo.jpg", &bytes).unwrap();
    let name = write_decision(&plan, false);
    assert_eq!(name.unwrap().as_str(), "sir_photo.jpg");
}

#[test]
fn discarded_image_is_never_written() {
    let bytes = jpeg_bytes(100, 100);
    let plan = plan_image("https://example.com/photo.jpg", &bytes).unwrap();
    assert!(write_decision(&plan, false).is_none());
    assert!(write_decision(&plan, true).is_none());
}

#[test]
fn repeated_planning_is_deterministic() {
    let bytes = jpeg_bytes(2000, 1500);
    let first = plan_image("https://example.com/photo.jpg", &bytes).unwrap();
    let second = plan_image("https://example.com/photo.jpg", &bytes).unwrap();
    assert_eq!(saved_name(&first), saved_name(&second));
}

#[test]
fn re_encoding_one_image_is_deterministic() {
    let bytes = jpeg_bytes(1700, 1600);
    let plan = plan_image("https://example.com/p.jpg", &bytes).unwrap();
    match plan {
        ImagePlan::Save { image, .. } => {
            let first = encode_image(&image).unwrap();
            let second = encode_image(&image).unwrap();
            assert!(!first.is_empty());
            assert_eq!(first, second);
        },
        ImagePlan::TooSmall => panic!("expected a save plan"),
    }
}

#[test]
fn encode_produces_a_decodable_jpeg_with_same_dimensions() {
    let bytes = png_bytes(1700, 1600);
    let plan = plan_image("https://example.com/p.jpg", &bytes).unwrap();
    match plan {
        ImagePlan::Save { image, .. } => {
            let encoded = encode_image(&image).unwrap();
            assert!(!encoded.is_empty());
            let replan = plan_image("https://example.com/p.jpg", &encoded).unwrap();
            assert_eq!(saved_name(&replan), "sir_p.jpg");
        },
        ImagePlan::TooSmall => panic!("expected a save plan"),
    }
}
