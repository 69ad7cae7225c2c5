use fractal_renderer::grimoire::rendering_flags::{DEBUG, SMOOTH};
use fractal_renderer::request::RequestBody;
use fractal_renderer::uniforms::{ShaderDataUniforms, MSAA_MASK, SIGN_BIT};

fn scenario() -> RequestBody {
    let mut body = RequestBody::empty();
    body.colors = Some("ffffff,11ffff,1100ff".to_string());
    body.position_x = Some((-0.1f32).to_bits());
    body.position_y = Some(1.0f32.to_bits());
    body.zoom = Some(10.0f32.to_bits());
    body.debug = Some(true);
    body.width = Some(1024);
    body.height = Some(1024);
    body.max_iterations = Some(2000);
    body.num_colors = Some(2000);
    body
}

#[test]
fn flags_are_single_high_bits() {
    assert_eq!(DEBUG, 1 << 31);
    assert_eq!(SMOOTH, 1 << 30);
    assert_eq!(DEBUG.count_ones(), 1);
    assert_eq!(SMOOTH.count_ones(), 1);
    assert_eq!(SIGN_BIT, 1 << 31);
    assert_eq!(MSAA_MASK, 255);
}

#[test]
fn default_record_has_the_documented_values() {
    let uniforms = ShaderDataUniforms::default();
    assert_eq!(f32::from_bits(uniforms.position[0]), -0.75);
    assert_eq!(f32::from_bits(uniforms.position[1]), 0.0);
    assert_eq!(f32::from_bits(uniforms.aspect), 0.0);
    assert_eq!(f32::from_bits(uniforms.zoom), 1.0);
    assert_eq!(uniforms.arr_len, 0);
    assert_eq!(uniforms.max_iter, 1000);
    assert_eq!(uniforms.num_colors, 200);
    assert_eq!(uniforms.flags, 1);
}

#[test]
fn encode_packs_the_parameters() {
    let parameters = scenario().resolve().unwrap();
    let aspect = (1024.0f32 / 1024.0f32).to_bits();
    let uniforms = ShaderDataUniforms::encode(&parameters, aspect);
    assert_eq!(
        uniforms.raw(),
        [
            (-0.1f32).to_bits(),
            (-1.0f32).to_bits(),
            1.0f32.to_bits(),
            10.0f32.to_bits(),
            3,
            2000,
            2000,
            1 | DEBUG,
        ]
    );
}

#[test]
fn encode_flips_the_sign_of_the_vertical_position() {
    for y in [1.0f32, -1.0, 0.0, -0.0, 0.5, -1234.5, f32::MAX, f32::MIN_POSITIVE] {
        let mut body = RequestBody::empty();
        body.position_y = Some(y.to_bits());
        let parameters = body.resolve().unwrap();
        let uniforms = ShaderDataUniforms::encode(&parameters, 0);
        assert_eq!(uniforms.position[1], (-y).to_bits());
        assert_eq!(uniforms.position[0], (-0.75f32).to_bits());
    }
}

#[test]
fn encode_of_the_defaults_flips_zero() {
    let parameters = RequestBody::empty().resolve().unwrap();
    let aspect = (1080.0f32 / 1920.0f32).to_bits();
    let uniforms = ShaderDataUniforms::encode(&parameters, aspect);
    assert_eq!(
        uniforms.raw(),
        [
            (-0.75f32).to_bits(),
            (-0.0f32).to_bits(),
            0.5625f32.to_bits(),
            1.0f32.to_bits(),
            5,
            1000,
            200,
            1,
        ]
    );
}

#[test]
fn flags_carry_the_sample_count_and_the_features() {
    for msaa in [0u8, 1, 2, 4, 8, 15, 16, 255] {
        for smooth in [false, true] {
            for debug in [false, true] {
                let mut body = RequestBody::empty();
                body.msaa = Some(msaa);
                body.smooth = Some(smooth);
                body.debug = Some(debug);
                let parameters = body.resolve().unwrap();
                let flags = ShaderDataUniforms::encode(&parameters, 0).flags;
                assert_eq!(flags & MSAA_MASK, msaa as u32);
                assert_eq!(flags & SMOOTH != 0, smooth);
                assert_eq!(flags & DEBUG != 0, debug);
                assert_eq!(flags & !(MSAA_MASK | SMOOTH | DEBUG), 0);
            }
        }
    }
}

#[test]
fn bytes_are_the_words_in_memory_order() {
    let parameters = scenario().resolve().unwrap();
    let uniforms = ShaderDataUniforms::encode(&parameters, 1.0f32.to_bits());
    let bytes = uniforms.bytes();
    assert_eq!(bytes.len(), 32);
    let mut expected: Vec<u8> = Vec::new();
    for word in uniforms.raw() {
        expected.extend_from_slice(&word.to_ne_bytes());
    }
    assert_eq!(bytes, expected);
    let little: Vec<u8> = uniforms.raw().iter().flat_map(|w| w.to_le_bytes()).collect();
    let big: Vec<u8> = uniforms.raw().iter().flat_map(|w| w.to_be_bytes()).collect();
    assert!(bytes == little || bytes == big);
}
