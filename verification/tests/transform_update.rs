use shaders::Color;
use shaders::FilterQuality;
use shaders::Gradient;
use shaders::GradientStop;
use shaders::LinearGradient;
use shaders::Pattern;
use shaders::RadialGradient;
use shaders::Shader;
use shaders::SpreadMode;
use shaders::Transform;

fn one_stop() -> Vec<GradientStop> {
    vec![GradientStop::new(0, Color::from_rgba8(255, 0, 0, 255))]
}

fn linear_with(transform: Transform) -> LinearGradient {
    LinearGradient {
        start_x: 0,
        start_y: 0,
        end_x: 100,
        end_y: 0,
        base: Gradient { transform, mode: SpreadMode::Pad, stops: one_stop() },
    }
}

fn shader_transform(s: &Shader) -> Option<Transform> {
    match s {
        Shader::SolidColor(_) => None,
        Shader::LinearGradient(g) => Some(g.base.transform),
        Shader::RadialGradient(g) => Some(g.base.transform),
        Shader::Pattern(p) => Some(p.transform),
    }
}

#[test]
fn post_concat_exact_composition() {
    // Scale by (2, 3), then translate by (5, 7).
    let scale = Transform::from_row(2, 0, 0, 3, 0, 0);
    let translate = Transform::from_row(1, 0, 0, 1, 5, 7);
    let r = scale.post_concat(&translate);
    assert_eq!(r, Some(Transform::from_row(2, 0, 0, 3, 5, 7)));
}

#[test]
fn post_concat_noninvertible_result_fails() {
    let t = Transform::identity();
    let collapse = Transform::from_row(0, 0, 0, 0, 4, 4);
    assert_eq!(t.post_concat(&collapse), None);
}

#[test]
fn post_concat_overflowing_entry_fails() {
    let big = Transform::from_row(i32::MAX, 0, 0, i32::MAX, 0, 0);
    let double = Transform::from_row(2, 0, 0, 2, 0, 0);
    assert_eq!(big.post_concat(&double), None);
}

#[test]
fn is_invertible_by_determinant() {
    assert!(Transform::identity().is_invertible());
    assert!(!Transform::from_row(2, 4, 3, 6, 1, 1).is_invertible());
}

#[test]
fn identity_delta_on_linear_gradient() {
    let base = Transform::from_row(2, 0, 1, 3, 10, -4);
    let mut s = Shader::LinearGradient(linear_with(base));
    s.transform(&Transform::identity());
    assert_eq!(shader_transform(&s), Some(base));
}

#[test]
fn identity_delta_on_radial_gradient() {
    let base = Transform::from_row(1, 2, 0, 1, -3, 9);
    let mut s = Shader::RadialGradient(RadialGradient {
        center_x: 1,
        center_y: 2,
        radius: 5,
        base: Gradient { transform: base, mode: SpreadMode::Reflect, stops: one_stop() },
    });
    s.transform(&Transform::identity());
    assert_eq!(shader_transform(&s), Some(base));
}

#[test]
fn identity_delta_on_pattern() {
    let base = Transform::from_row(4, 0, 0, 4, 2, 2);
    let mut s = Shader::Pattern(Pattern {
        width: 8,
        height: 8,
        quality: FilterQuality::Bilinear,
        transform: base,
    });
    s.transform(&Transform::identity());
    assert_eq!(shader_transform(&s), Some(base));
}

#[test]
fn failed_composition_keeps_transform_bit_for_bit() {
    let base = Transform::from_row(2, 0, 1, 3, 10, -4);
    let mut s = Shader::LinearGradient(linear_with(base));
    // The zero matrix collapses the plane: the composed result is not
    // invertible, so the update must be dropped whole.
    s.transform(&Transform::from_row(0, 0, 0, 0, 0, 0));
    assert_eq!(shader_transform(&s), Some(base));
}

#[test]
fn overflowing_composition_keeps_transform() {
    let base = Transform::from_row(i32::MAX, 0, 0, i32::MAX, 0, 0);
    let mut s = Shader::Pattern(Pattern {
        width: 8,
        height: 8,
        quality: FilterQuality::Nearest,
        transform: base,
    });
    s.transform(&Transform::from_row(3, 0, 0, 3, 0, 0));
    assert_eq!(shader_transform(&s), Some(base));
}

#[test]
fn successful_composition_updates_transform() {
    let base = Transform::from_row(2, 0, 0, 3, 0, 0);
    let mut s = Shader::LinearGradient(linear_with(base));
    s.transform(&Transform::from_row(1, 0, 0, 1, 5, 7));
    assert_eq!(shader_transform(&s), Some(Transform::from_row(2, 0, 0, 3, 5, 7)));
}

#[test]
fn transform_on_solid_color_is_a_no_op() {
    let c = Color::from_rgba8(9, 8, 7, 200);
    let mut s = Shader::SolidColor(c);
    s.transform(&Transform::from_row(2, 0, 0, 2, 1, 1));
    match s {
        Shader::SolidColor(c2) => assert_eq!(c2, c),
        _ => panic!("variant changed"),
    }
}

#[test]
fn transform_update_keeps_other_fields() {
    let mut s = Shader::LinearGradient(linear_with(Transform::identity()));
    s.transform(&Transform::from_row(1, 0, 0, 1, 5, 7));
    match s {
        Shader::LinearGradient(g) => {
            assert_eq!(g.start_x, 0);
            assert_eq!(g.end_x, 100);
            assert_eq!(g.base.mode, SpreadMode::Pad);
            assert_eq!(g.base.stops, one_stop());
            assert_eq!(g.base.transform, Transform::from_row(1, 0, 0, 1, 5, 7));
        }
        _ => panic!("variant changed"),
    }
}
