use shaders::Color;
use shaders::Gradient;
use shaders::GradientStop;
use shaders::LinearGradient;
use shaders::Pattern;
use shaders::RadialGradient;
use shaders::Shader;
use shaders::SpreadMode;
use shaders::Transform;
use shaders::FilterQuality;

fn linear(stops: Vec<GradientStop>) -> LinearGradient {
    LinearGradient {
        start_x: 0,
        start_y: 0,
        end_x: 100,
        end_y: 0,
        base: Gradient { transform: Transform::identity(), mode: SpreadMode::Pad, stops },
    }
}

fn radial(stops: Vec<GradientStop>) -> RadialGradient {
    RadialGradient {
        center_x: 50,
        center_y: 50,
        radius: 20,
        base: Gradient { transform: Transform::identity(), mode: SpreadMode::Pad, stops },
    }
}

#[test]
fn solid_color_opaque_alpha_max() {
    let c = Color::from_rgba8(10, 20, 30, 255);
    assert!(Shader::SolidColor(c).is_opaque());
}

#[test]
fn solid_color_not_opaque_below_max() {
    assert!(!Shader::SolidColor(Color::from_rgba8(10, 20, 30, 254)).is_opaque());
    assert!(!Shader::SolidColor(Color::from_rgba8(10, 20, 30, 0)).is_opaque());
    assert!(!Shader::SolidColor(Color::from_rgba8(255, 255, 255, 128)).is_opaque());
}

#[test]
fn color_is_opaque_exact() {
    assert!(Color::from_rgba8(0, 0, 0, 255).is_opaque());
    assert!(!Color::from_rgba8(0, 0, 0, 254).is_opaque());
}

#[test]
fn linear_gradient_all_opaque_stops() {
    let stops = vec![
        GradientStop::new(0, Color::from_rgba8(255, 0, 0, 255)),
        GradientStop::new(30000, Color::from_rgba8(0, 255, 0, 255)),
        GradientStop::new(65535, Color::from_rgba8(0, 0, 255, 255)),
    ];
    assert!(Shader::LinearGradient(linear(stops)).is_opaque());
}

#[test]
fn linear_gradient_one_translucent_stop() {
    let stops = vec![
        GradientStop::new(0, Color::from_rgba8(255, 0, 0, 255)),
        GradientStop::new(30000, Color::from_rgba8(0, 255, 0, 200)),
        GradientStop::new(65535, Color::from_rgba8(0, 0, 255, 255)),
    ];
    assert!(!Shader::LinearGradient(linear(stops)).is_opaque());
}

#[test]
fn linear_gradient_empty_stop_list_reports_false() {
    assert!(!Shader::LinearGradient(linear(Vec::new())).is_opaque());
}

#[test]
fn linear_gradient_single_opaque_stop() {
    let stops = vec![GradientStop::new(0, Color::from_rgba8(1, 2, 3, 255))];
    assert!(Shader::LinearGradient(linear(stops)).is_opaque());
}

#[test]
fn radial_gradient_never_opaque() {
    let stops = vec![
        GradientStop::new(0, Color::from_rgba8(255, 0, 0, 255)),
        GradientStop::new(65535, Color::from_rgba8(0, 0, 255, 255)),
    ];
    assert!(!Shader::RadialGradient(radial(stops)).is_opaque());
}

#[test]
fn radial_gradient_empty_stops_not_opaque() {
    assert!(!Shader::RadialGradient(radial(Vec::new())).is_opaque());
}

#[test]
fn pattern_never_opaque() {
    let p = Pattern {
        width: 16,
        height: 16,
        quality: FilterQuality::Nearest,
        transform: Transform::identity(),
    };
    assert!(!Shader::Pattern(p).is_opaque());
}
