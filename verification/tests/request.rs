use fractal_renderer::color::Color;
use fractal_renderer::fractal::{Fractals, SimplifiedFractals};
use fractal_renderer::grimoire::{
    default_colors, DEFAULT_HEIGHT, DEFAULT_MAX_ITER, DEFAULT_MSAA, DEFAULT_NUM_COLORS,
    DEFAULT_POSITION_X, DEFAULT_POSITION_Y, DEFAULT_WIDTH, DEFAULT_ZOOM, MAX_COLORS,
};
use fractal_renderer::request::{finite_bits, RequestBody, RequestIdentifier, ValidationError};
use std::collections::hash_map::DefaultHasher;
use std::hash::{Hash, Hasher};

fn hash_of(identifier: &RequestIdentifier) -> u64 {
    let mut hasher = DefaultHasher::new();
    identifier.hash(&mut hasher);
    hasher.finish()
}

fn color_list(n: usize) -> String {
    let pieces: Vec<String> = (0..n).map(|i| format!("{:06x}", i)).collect();
    pieces.join(",")
}

#[test]
fn defaults_have_the_documented_values() {
    assert_eq!(f32::from_bits(DEFAULT_ZOOM), 1.0);
    assert_eq!(f32::from_bits(DEFAULT_POSITION_X), -0.75);
    assert_eq!(f32::from_bits(DEFAULT_POSITION_Y), 0.0);
    assert_eq!(DEFAULT_MAX_ITER, 1000);
    assert_eq!(DEFAULT_NUM_COLORS, 200);
    assert_eq!(DEFAULT_MSAA, 1);
    assert_eq!(DEFAULT_WIDTH, 1920);
    assert_eq!(DEFAULT_HEIGHT, 1080);
    assert_eq!(MAX_COLORS, 1024);
}

#[test]
fn default_colors_are_the_five_of_the_palette() {
    let colors = default_colors();
    assert_eq!(
        colors,
        vec![
            Color { r: 85, g: 205, b: 252, a: 255 },
            Color { r: 247, g: 168, b: 184, a: 255 },
            Color { r: 255, g: 255, b: 255, a: 255 },
            Color { r: 247, g: 168, b: 184, a: 255 },
            Color { r: 85, g: 205, b: 252, a: 255 },
        ]
    );
}

#[test]
fn empty_query_resolves_to_the_defaults() {
    let parameters = RequestBody::empty().resolve().unwrap();
    assert_eq!(parameters.width, 1920);
    assert_eq!(parameters.height, 1080);
    assert_eq!(parameters.max_iterations, 1000);
    assert_eq!(parameters.num_colors, 200);
    assert_eq!(parameters.msaa, 1);
    assert_eq!(f32::from_bits(parameters.zoom), 1.0);
    assert_eq!(f32::from_bits(parameters.position_x), -0.75);
    assert_eq!(f32::from_bits(parameters.position_y), 0.0);
    assert!(!parameters.smooth);
    assert!(!parameters.debug);
    assert_eq!(parameters.colors, default_colors());
}

#[test]
fn named_values_replace_the_defaults() {
    let mut body = RequestBody::empty();
    body.width = Some(1024);
    body.height = Some(512);
    body.colors = Some("ffffff,11ffff,1100ff".to_string());
    body.max_iterations = Some(2000);
    body.num_colors = Some(2000);
    body.zoom = Some(10.0f32.to_bits());
    body.position_x = Some((-0.1f32).to_bits());
    body.position_y = Some(1.0f32.to_bits());
    body.msaa = Some(4);
    body.smooth = Some(true);
    body.debug = Some(true);
    let parameters = body.resolve().unwrap();
    assert_eq!(parameters.width, 1024);
    assert_eq!(parameters.height, 512);
    assert_eq!(parameters.max_iterations, 2000);
    assert_eq!(parameters.num_colors, 2000);
    assert_eq!(f32::from_bits(parameters.zoom), 10.0);
    assert_eq!(f32::from_bits(parameters.position_x), -0.1);
    assert_eq!(f32::from_bits(parameters.position_y), 1.0);
    assert_eq!(parameters.msaa, 4);
    assert!(parameters.smooth);
    assert!(parameters.debug);
    assert_eq!(
        parameters.colors,
        vec![
            Color { r: 255, g: 255, b: 255, a: 255 },
            Color { r: 0x11, g: 255, b: 255, a: 255 },
            Color { r: 0x11, g: 0, b: 255, a: 255 },
        ]
    );
}

#[test]
fn bad_colors_are_rejected() {
    let mut body = RequestBody::empty();
    body.colors = Some("zz0000".to_string());
    assert_eq!(body.resolve().err(), Some(ValidationError::InvalidColorFormat));
    body.colors = Some(String::new());
    assert_eq!(body.resolve().err(), Some(ValidationError::InvalidColorFormat));
}

#[test]
fn colors_up_to_the_cap_are_taken_and_one_more_is_rejected() {
    let mut body = RequestBody::empty();
    body.colors = Some(color_list(1024));
    let parameters = body.resolve().unwrap();
    assert_eq!(parameters.colors.len(), 1024);
    assert_eq!(parameters.colors[1023], Color { r: 0, g: 3, b: 0xff, a: 255 });
    body.colors = Some(color_list(1025));
    assert_eq!(body.resolve().err(), Some(ValidationError::TooManyColors));
}

#[test]
fn empty_image_is_rejected() {
    let mut body = RequestBody::empty();
    body.width = Some(0);
    assert_eq!(body.resolve().err(), Some(ValidationError::EmptyImage));
    body.width = Some(10);
    body.height = Some(0);
    assert_eq!(body.resolve().err(), Some(ValidationError::EmptyImage));
}

#[test]
fn numbers_that_are_not_finite_are_rejected() {
    for bad in [f32::NAN, f32::INFINITY, f32::NEG_INFINITY, -f32::NAN] {
        let mut body = RequestBody::empty();
        body.zoom = Some(bad.to_bits());
        assert_eq!(body.resolve().err(), Some(ValidationError::NotFinite));
        let mut body = RequestBody::empty();
        body.position_x = Some(bad.to_bits());
        assert_eq!(body.resolve().err(), Some(ValidationError::NotFinite));
        let mut body = RequestBody::empty();
        body.position_y = Some(bad.to_bits());
        assert_eq!(body.resolve().err(), Some(ValidationError::NotFinite));
    }
}

#[test]
fn finite_bits_agrees_with_the_float() {
    let samples = [
        0.0f32,
        -0.0,
        1.0,
        -0.75,
        f32::MAX,
        f32::MIN,
        f32::MIN_POSITIVE,
        1e-45,
        f32::NAN,
        f32::INFINITY,
        f32::NEG_INFINITY,
    ];
    for x in samples {
        assert_eq!(finite_bits(x.to_bits()), x.is_finite());
    }
    assert!(!finite_bits(0x7FC0_0001));
    assert!(!finite_bits(0xFF80_0000));
    assert!(finite_bits(0x7F7F_FFFF));
}

#[test]
fn checks_come_in_their_order() {
    let mut body = RequestBody::empty();
    body.colors = Some("zz0000".to_string());
    body.width = Some(0);
    body.zoom = Some(f32::NAN.to_bits());
    assert_eq!(body.resolve().err(), Some(ValidationError::InvalidColorFormat));
    body.colors = Some(color_list(1025));
    assert_eq!(body.resolve().err(), Some(ValidationError::TooManyColors));
    body.colors = None;
    assert_eq!(body.resolve().err(), Some(ValidationError::EmptyImage));
    body.width = None;
    assert_eq!(body.resolve().err(), Some(ValidationError::NotFinite));
}

#[test]
fn same_queries_are_equal() {
    let mut a = RequestBody::empty();
    a.colors = Some("ffffff".to_string());
    a.zoom = Some(2.0f32.to_bits());
    let mut b = RequestBody::empty();
    b.colors = Some(format!("{}", "ffffff"));
    b.zoom = Some(2.0f32.to_bits());
    assert_eq!(a, b);
    assert!(a.same_query(&b));
    assert_eq!(a.clone(), a);
    b.zoom = None;
    assert_ne!(a, b);
    assert!(!a.same_query(&b));
}

#[test]
fn queries_compare_real_values_bit_for_bit() {
    let mut plus = RequestBody::empty();
    plus.position_y = Some(0.0f32.to_bits());
    let mut minus = RequestBody::empty();
    minus.position_y = Some((-0.0f32).to_bits());
    assert_ne!(plus, minus);
    let mut nan = RequestBody::empty();
    nan.zoom = Some(f32::NAN.to_bits());
    let mut same_nan = RequestBody::empty();
    same_nan.zoom = Some(f32::NAN.to_bits());
    assert_eq!(nan, same_nan);
}

#[test]
fn same_requests_have_the_same_identifier() {
    let mut a = RequestBody::empty();
    a.colors = Some("ffffff".to_string());
    a.zoom = Some(2.0f32.to_bits());
    let mut b = RequestBody::empty();
    b.colors = Some(format!("{}", "ffffff"));
    b.zoom = Some(2.0f32.to_bits());
    let first = RequestIdentifier::new(SimplifiedFractals::Eye, &a).unwrap();
    let second = RequestIdentifier::new(SimplifiedFractals::Eye, &b).unwrap();
    assert_eq!(first, second);
    assert!(first.same_request(&second));
    assert_eq!(hash_of(&first), hash_of(&second));
    assert_eq!(first.clone(), first);
}

#[test]
fn identifier_holds_the_kind_and_the_resolved_parameters() {
    let mut body = RequestBody::empty();
    body.width = Some(640);
    body.colors = Some("102030".to_string());
    let id = RequestIdentifier::new(SimplifiedFractals::Feather, &body).unwrap();
    assert_eq!(id.kind(), &Fractals::Feather);
    assert_eq!(id.parameters().width, 640);
    assert_eq!(id.parameters().height, 1080);
    assert_eq!(id.parameters().max_iterations, 1000);
    assert_eq!(id.parameters().colors, vec![Color { r: 0x10, g: 0x20, b: 0x30, a: 255 }]);
    assert!(id.parameters().is_well_formed());
    assert_eq!(id.parameters(), &body.resolve().unwrap());

    let mut body = RequestBody::empty();
    body.formula = Some("Z^2+C".to_string());
    let id = RequestIdentifier::new(SimplifiedFractals::Custom, &body).unwrap();
    assert_eq!(id.kind(), &Fractals::Custom("Z^2+C".to_string()));
}

#[test]
fn a_default_spelled_out_is_the_same_request() {
    let plain = RequestIdentifier::new(SimplifiedFractals::Mandelbrot, &RequestBody::empty())
        .unwrap();
    let mut body = RequestBody::empty();
    body.zoom = Some(0x3F80_0000);
    let zoom = RequestIdentifier::new(SimplifiedFractals::Mandelbrot, &body).unwrap();
    assert_eq!(plain, zoom);
    assert_eq!(hash_of(&plain), hash_of(&zoom));

    let mut body = RequestBody::empty();
    body.width = Some(1920);
    body.height = Some(1080);
    body.max_iterations = Some(1000);
    body.num_colors = Some(200);
    body.msaa = Some(1);
    body.smooth = Some(false);
    body.debug = Some(false);
    body.position_x = Some((-0.75f32).to_bits());
    body.position_y = Some(0.0f32.to_bits());
    body.colors = Some("55cdfc,f7a8b8,ffffff,f7a8b8,55cdfc".to_string());
    let all = RequestIdentifier::new(SimplifiedFractals::Mandelbrot, &body).unwrap();
    assert_eq!(plain, all);
    assert_eq!(hash_of(&plain), hash_of(&all));
}

#[test]
fn formula_counts_only_for_the_custom_kind() {
    let mut with = RequestBody::empty();
    with.formula = Some("Z^2+C".to_string());
    let mut other = RequestBody::empty();
    other.formula = Some("Z^3+C".to_string());
    assert_eq!(
        RequestIdentifier::new(SimplifiedFractals::Eye, &with).unwrap(),
        RequestIdentifier::new(SimplifiedFractals::Eye, &RequestBody::empty()).unwrap()
    );
    assert_ne!(
        RequestIdentifier::new(SimplifiedFractals::Custom, &with).unwrap(),
        RequestIdentifier::new(SimplifiedFractals::Custom, &other).unwrap()
    );
    assert_eq!(
        RequestIdentifier::new(SimplifiedFractals::Custom, &with).unwrap(),
        RequestIdentifier::new(SimplifiedFractals::Custom, &with.clone()).unwrap()
    );
}

#[test]
fn requests_differ_by_the_kind_and_by_any_resolved_value() {
    let base = RequestBody::empty();
    let id = RequestIdentifier::new(SimplifiedFractals::Eye, &base).unwrap();
    assert_ne!(id, RequestIdentifier::new(SimplifiedFractals::Feather, &base).unwrap());
    let mut other = RequestBody::empty();
    other.width = Some(1921);
    assert_ne!(id, RequestIdentifier::new(SimplifiedFractals::Eye, &other).unwrap());
    let mut other = RequestBody::empty();
    other.height = Some(1);
    assert_ne!(id, RequestIdentifier::new(SimplifiedFractals::Eye, &other).unwrap());
    let mut other = RequestBody::empty();
    other.colors = Some("ffffff".to_string());
    assert_ne!(id, RequestIdentifier::new(SimplifiedFractals::Eye, &other).unwrap());
    let mut other = RequestBody::empty();
    other.colors = Some("55cdfc,f7a8b8,ffffff,f7a8b8,55cdfd".to_string());
    assert_ne!(id, RequestIdentifier::new(SimplifiedFractals::Eye, &other).unwrap());
    let mut other = RequestBody::empty();
    other.debug = Some(true);
    assert_ne!(id, RequestIdentifier::new(SimplifiedFractals::Eye, &other).unwrap());
    let mut other = RequestBody::empty();
    other.smooth = Some(true);
    assert_ne!(id, RequestIdentifier::new(SimplifiedFractals::Eye, &other).unwrap());
    let mut other = RequestBody::empty();
    other.msaa = Some(2);
    assert_ne!(id, RequestIdentifier::new(SimplifiedFractals::Eye, &other).unwrap());
    let mut other = RequestBody::empty();
    other.max_iterations = Some(1001);
    assert_ne!(id, RequestIdentifier::new(SimplifiedFractals::Eye, &other).unwrap());
    let mut other = RequestBody::empty();
    other.num_colors = Some(201);
    assert_ne!(id, RequestIdentifier::new(SimplifiedFractals::Eye, &other).unwrap());
    let mut other = RequestBody::empty();
    other.zoom = Some(2.0f32.to_bits());
    assert_ne!(id, RequestIdentifier::new(SimplifiedFractals::Eye, &other).unwrap());
    let mut other = RequestBody::empty();
    other.position_x = Some(0.0f32.to_bits());
    assert_ne!(id, RequestIdentifier::new(SimplifiedFractals::Eye, &other).unwrap());
}

#[test]
fn identifiers_compare_real_values_bit_for_bit() {
    let mut plus = RequestBody::empty();
    plus.position_y = Some(0.0f32.to_bits());
    let mut minus = RequestBody::empty();
    minus.position_y = Some((-0.0f32).to_bits());
    let plus = RequestIdentifier::new(SimplifiedFractals::Eye, &plus).unwrap();
    let minus = RequestIdentifier::new(SimplifiedFractals::Eye, &minus).unwrap();
    assert_ne!(plus, minus);
    assert!(!plus.same_request(&minus));
}

#[test]
fn invalid_request_has_no_identifier() {
    assert_eq!(
        RequestIdentifier::new(SimplifiedFractals::Custom, &RequestBody::empty()).err(),
        Some(ValidationError::MissingFormula)
    );
    let mut body = RequestBody::empty();
    body.colors = Some("zz0000".to_string());
    assert_eq!(
        RequestIdentifier::new(SimplifiedFractals::Eye, &body).err(),
        Some(ValidationError::InvalidColorFormat)
    );
    assert_eq!(
        RequestIdentifier::new(SimplifiedFractals::Custom, &body).err(),
        Some(ValidationError::MissingFormula)
    );
    body.colors = None;
    body.width = Some(0);
    assert_eq!(
        RequestIdentifier::new(SimplifiedFractals::Eye, &body).err(),
        Some(ValidationError::EmptyImage)
    );
}

#[test]
fn identifier_keeps_a_copy_of_the_request() {
    let mut body = RequestBody::empty();
    body.colors = Some("ffffff".to_string());
    let id = RequestIdentifier::new(SimplifiedFractals::Mandelbrot, &body).unwrap();
    let again = RequestIdentifier::new(SimplifiedFractals::Mandelbrot, &body).unwrap();
    body.colors = Some("000000".to_string());
    assert_eq!(id, again);
    assert_ne!(id, RequestIdentifier::new(SimplifiedFractals::Mandelbrot, &body).unwrap());
}

#[test]
fn parameters_know_whether_they_can_be_rendered() {
    let mut parameters = RequestBody::empty().resolve().unwrap();
    assert!(parameters.is_well_formed());
    assert_eq!(parameters.clone(), parameters);
    assert!(parameters.same_parameters(&parameters.clone()));
    parameters.width = 0;
    assert!(!parameters.is_well_formed());
    parameters.width = 1;
    parameters.zoom = f32::INFINITY.to_bits();
    assert!(!parameters.is_well_formed());
    parameters.zoom = 0;
    parameters.colors.clear();
    assert!(!parameters.is_well_formed());
    parameters.colors = vec![Color { r: 0, g: 0, b: 0, a: 255 }; 1025];
    assert!(!parameters.is_well_formed());
    parameters.colors.truncate(1024);
    assert!(parameters.is_well_formed());
    parameters.height = 0;
    assert!(!parameters.is_well_formed());
}
