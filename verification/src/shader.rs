//! The shading abstraction: a closed set of paint sources, each able to
//! report opacity, compile itself into pipeline stages, and absorb a
//! transform update.
//!
//! A [`Shader`] is exactly one of: a solid color, a linear gradient, a
//! radial gradient, or an image pattern.  The rasterizer driver consumes
//! three operations from it: [`Shader::is_opaque`] (a conservative,
//! allocation-free opacity guarantee), [`Shader::push_stages`] (compilation
//! into the per-pixel pipeline; a `false` result means the draw must be
//! skipped), and [`Shader::transform`] (composition of a transform delta
//! onto the variant's local transform, dropped silently when the
//! composition fails).

use vstd::prelude::*;

use crate::color::ALPHA_OPAQUE;
use crate::color::Color;
use crate::color::GradientStop;
use crate::geom::lemma_post_concat_identity;
use crate::geom::Transform;
use crate::pipeline::CtxModel;
use crate::pipeline::Stage;
use crate::pipeline::StageCtx;
use crate::pipeline::StageRec;

verus! {

/// A shader spreading mode: the policy for extending a gradient's finite
/// color ramp beyond its defined domain.
#[derive(Copy, Clone, Debug, PartialEq, Eq, Structural)]
pub enum SpreadMode {
    /// Replicate the edge color if the shader draws outside of its
    /// original bounds.
    Pad,
    /// Repeat the shader's image horizontally and vertically, alternating
    /// mirror images so that adjacent images always seam.
    Reflect,
    /// Repeat the shader's image horizontally and vertically.
    Repeat,
}

impl SpreadMode {
    /// The pipeline stage that applies this spreading policy.
    pub open spec fn stage_spec(self) -> Stage {
        match self {
            SpreadMode::Pad => Stage::SpreadPad,
            SpreadMode::Reflect => Stage::SpreadReflect,
            SpreadMode::Repeat => Stage::SpreadRepeat,
        }
    }

    pub fn stage(self) -> (s: Stage)
        ensures
            s == self.stage_spec(),
    {
        match self {
            SpreadMode::Pad => Stage::SpreadPad,
            SpreadMode::Reflect => Stage::SpreadReflect,
            SpreadMode::Repeat => Stage::SpreadRepeat,
        }
    }
}

/// Filtering quality used when a pattern's image is sampled between pixels.
#[derive(Copy, Clone, Debug, PartialEq, Eq, Structural)]
pub enum FilterQuality {
    /// Nearest-neighbor sampling.
    Nearest,
    /// Bilinear interpolation.
    Bilinear,
    /// Bicubic interpolation.
    Bicubic,
}

/// Every stop of the ramp carries a fully opaque color.
pub open spec fn all_stops_opaque(stops: Seq<GradientStop>) -> bool {
    forall|i: int| 0 <= i < stops.len() ==> stops[i].color.is_opaque_spec()
}

/// The state shared by both gradient variants: a local transform, a
/// spreading mode, and an ordered color ramp.
#[derive(Clone, Debug)]
pub struct Gradient {
    pub transform: Transform,
    pub mode: SpreadMode,
    pub stops: Vec<GradientStop>,
}

impl Gradient {
    /// A gradient guarantees opaque output only when it has at least one
    /// stop and every stop's color is opaque; an empty ramp guarantees
    /// nothing.
    pub open spec fn is_opaque_spec(self) -> bool {
        self.stops@.len() > 0 && all_stops_opaque(self.stops@)
    }

    pub fn is_opaque(&self) -> (r: bool)
        ensures
            r == self.is_opaque_spec(),
    {
        if self.stops.len() == 0 {
            return false;
        }
        let n = self.stops.len();
        let mut i: usize = 0;
        while i < n
            invariant
                n == self.stops@.len(),
                i <= n,
                forall|j: int| 0 <= j < i ==> self.stops@[j].color.is_opaque_spec(),
            decreases n - i,
        {
            if !self.stops[i].color.is_opaque() {
                return false;
            }
            i += 1;
        }
        true
    }
}

/// Copies a color ramp into arena-owned storage.
fn clone_stops(stops: &Vec<GradientStop>) -> (r: Vec<GradientStop>)
    ensures
        r@ == stops@,
{
    let n = stops.len();
    let mut r: Vec<GradientStop> = Vec::new();
    let mut i: usize = 0;
    while i < n
        invariant
            n == stops@.len(),
            i <= n,
            r@.len() == i,
            forall|j: int| 0 <= j < i ==> r@[j] == stops@[j],
        decreases n - i,
    {
        r.push(stops[i]);
        i += 1;
    }
    proof {
        assert(r@ =~= stops@);
    }
    r
}

/// A linear gradient: a color ramp swept along the segment from its start
/// point to its end point.
#[derive(Clone, Debug)]
pub struct LinearGradient {
    pub start_x: i32,
    pub start_y: i32,
    pub end_x: i32,
    pub end_y: i32,
    pub base: Gradient,
}

impl LinearGradient {
    /// The gradient compiles to stages only when its geometry is usable:
    /// at least one stop, distinct start and end points, and an invertible
    /// local transform.
    pub open spec fn can_push_spec(self) -> bool {
        &&& self.base.stops@.len() > 0
        &&& (self.start_x != self.end_x || self.start_y != self.end_y)
        &&& self.base.transform.is_invertible_spec()
    }

    /// The auxiliary data one compilation stores: the local transform,
    /// then the color ramp.
    pub open spec fn ctx_seq(self) -> Seq<CtxModel> {
        if self.can_push_spec() {
            seq![CtxModel::Matrix(self.base.transform), CtxModel::Ramp(self.base.stops@)]
        } else {
            Seq::empty()
        }
    }

    /// The stages one compilation appends, with `base` the index of the
    /// first stored context: map through the transform, spread the
    /// parameter, evaluate the ramp.
    pub open spec fn stage_seq(self, base: int) -> Seq<Stage> {
        if self.can_push_spec() {
            seq![
                Stage::ApplyMatrix { ctx: base as usize },
                self.base.mode.stage_spec(),
                Stage::LinearGradientRamp { ctx: (base + 1) as usize },
            ]
        } else {
            Seq::empty()
        }
    }

    pub fn is_opaque(&self) -> (r: bool)
        ensures
            r == self.base.is_opaque_spec(),
    {
        self.base.is_opaque()
    }

    pub fn push_stages(&self, rec: &mut StageRec) -> (r: bool)
        ensures
            r == self.can_push_spec(),
            final(rec).pipeline@ == old(rec).pipeline@ + self.stage_seq(
                old(rec).ctx_storage@.len() as int,
            ),
            final(rec).ctx_storage@ == old(rec).ctx_storage@ + self.ctx_seq(),
    {
        let degenerate = self.base.stops.len() == 0 || (self.start_x == self.end_x && self.start_y
            == self.end_y) || !self.base.transform.is_invertible();
        if degenerate {
            proof {
                assert(rec.pipeline@ =~= old(rec).pipeline@ + self.stage_seq(
                    old(rec).ctx_storage@.len() as int,
                ));
                assert(rec.ctx_storage@ =~= old(rec).ctx_storage@ + self.ctx_seq());
            }
            return false;
        }
        let m_ix = rec.ctx_storage.push_context(StageCtx::Matrix(self.base.transform));
        let r_ix = rec.ctx_storage.push_context(StageCtx::Ramp(clone_stops(&self.base.stops)));
        rec.pipeline.push(Stage::ApplyMatrix { ctx: m_ix });
        rec.pipeline.push(self.base.mode.stage());
        rec.pipeline.push(Stage::LinearGradientRamp { ctx: r_ix });
        proof {
            assert(rec.pipeline@ =~= old(rec).pipeline@ + self.stage_seq(
                old(rec).ctx_storage@.len() as int,
            ));
            assert(rec.ctx_storage@ =~= old(rec).ctx_storage@ + self.ctx_seq());
        }
        true
    }
}

/// A radial gradient: a color ramp swept outward from a center over a
/// radius.
#[derive(Clone, Debug)]
pub struct RadialGradient {
    pub center_x: i32,
    pub center_y: i32,
    pub radius: u32,
    pub base: Gradient,
}

impl RadialGradient {
    /// The gradient compiles to stages only when its geometry is usable:
    /// at least one stop, a positive radius, and an invertible local
    /// transform.
    pub open spec fn can_push_spec(self) -> bool {
        &&& self.base.stops@.len() > 0
        &&& self.radius > 0
        &&& self.base.transform.is_invertible_spec()
    }

    /// The auxiliary data one compilation stores: the local transform,
    /// then the color ramp.
    pub open spec fn ctx_seq(self) -> Seq<CtxModel> {
        if self.can_push_spec() {
            seq![CtxModel::Matrix(self.base.transform), CtxModel::Ramp(self.base.stops@)]
        } else {
            Seq::empty()
        }
    }

    /// The stages one compilation appends, with `base` the index of the
    /// first stored context.
    pub open spec fn stage_seq(self, base: int) -> Seq<Stage> {
        if self.can_push_spec() {
            seq![
                Stage::ApplyMatrix { ctx: base as usize },
                self.base.mode.stage_spec(),
                Stage::RadialGradientRamp { ctx: (base + 1) as usize },
            ]
        } else {
            Seq::empty()
        }
    }

    pub fn push_stages(&self, rec: &mut StageRec) -> (r: bool)
        ensures
            r == self.can_push_spec(),
            final(rec).pipeline@ == old(rec).pipeline@ + self.stage_seq(
                old(rec).ctx_storage@.len() as int,
            ),
            final(rec).ctx_storage@ == old(rec).ctx_storage@ + self.ctx_seq(),
    {
        let degenerate = self.base.stops.len() == 0 || self.radius == 0
            || !self.base.transform.is_invertible();
        if degenerate {
            proof {
                assert(rec.pipeline@ =~= old(rec).pipeline@ + self.stage_seq(
                    old(rec).ctx_storage@.len() as int,
                ));
                assert(rec.ctx_storage@ =~= old(rec).ctx_storage@ + self.ctx_seq());
            }
            return false;
        }
        let m_ix = rec.ctx_storage.push_context(StageCtx::Matrix(self.base.transform));
        let r_ix = rec.ctx_storage.push_context(StageCtx::Ramp(clone_stops(&self.base.stops)));
        rec.pipeline.push(Stage::ApplyMatrix { ctx: m_ix });
        rec.pipeline.push(self.base.mode.stage());
        rec.pipeline.push(Stage::RadialGradientRamp { ctx: r_ix });
        proof {
            assert(rec.pipeline@ =~= old(rec).pipeline@ + self.stage_seq(
                old(rec).ctx_storage@.len() as int,
            ));
            assert(rec.ctx_storage@ =~= old(rec).ctx_storage@ + self.ctx_seq());
        }
        true
    }
}

/// An image pattern: a source of the given size, tiled or filtered
/// according to its quality setting, under a local transform.
#[derive(Clone, Debug)]
pub struct Pattern {
    pub width: u32,
    pub height: u32,
    pub quality: FilterQuality,
    pub transform: Transform,
}

impl Pattern {
    /// The pattern compiles to stages only when its source has a positive
    /// area and its local transform is invertible.
    pub open spec fn can_push_spec(self) -> bool {
        &&& self.width > 0
        &&& self.height > 0
        &&& self.transform.is_invertible_spec()
    }

    /// The auxiliary data one compilation stores: the local transform,
    /// then the image source.
    pub open spec fn ctx_seq(self) -> Seq<CtxModel> {
        if self.can_push_spec() {
            seq![
                CtxModel::Matrix(self.transform),
                CtxModel::Image { width: self.width, height: self.height, quality: self.quality },
            ]
        } else {
            Seq::empty()
        }
    }

    /// The stages one compilation appends, with `base` the index of the
    /// first stored context.
    pub open spec fn stage_seq(self, base: int) -> Seq<Stage> {
        if self.can_push_spec() {
            seq![
                Stage::ApplyMatrix { ctx: base as usize },
                Stage::PatternSample { ctx: (base + 1) as usize },
            ]
        } else {
            Seq::empty()
        }
    }

    pub fn push_stages(&self, rec: &mut StageRec) -> (r: bool)
        ensures
            r == self.can_push_spec(),
            final(rec).pipeline@ == old(rec).pipeline@ + self.stage_seq(
                old(rec).ctx_storage@.len() as int,
            ),
            final(rec).ctx_storage@ == old(rec).ctx_storage@ + self.ctx_seq(),
    {
        let degenerate = self.width == 0 || self.height == 0 || !self.transform.is_invertible();
        if degenerate {
            proof {
                assert(rec.pipeline@ =~= old(rec).pipeline@ + self.stage_seq(
                    old(rec).ctx_storage@.len() as int,
                ));
                assert(rec.ctx_storage@ =~= old(rec).ctx_storage@ + self.ctx_seq());
            }
            return false;
        }
        let m_ix = rec.ctx_storage.push_context(StageCtx::Matrix(self.transform));
        let i_ix = rec.ctx_storage.push_context(
            StageCtx::Image { width: self.width, height: self.height, quality: self.quality },
        );
        rec.pipeline.push(Stage::ApplyMatrix { ctx: m_ix });
        rec.pipeline.push(Stage::PatternSample { ctx: i_ix });
        proof {
            assert(rec.pipeline@ =~= old(rec).pipeline@ + self.stage_seq(
                old(rec).ctx_storage@.len() as int,
            ));
            assert(rec.ctx_storage@ =~= old(rec).ctx_storage@ + self.ctx_seq());
        }
        true
    }
}

/// A shader specifies the source color(s) for what is being drawn.
///
/// Exactly one variant is live at a time; the variants share no mutable
/// state, so duplicating a shader duplicates its payload.
#[derive(Clone, Debug)]
pub enum Shader {
    /// A solid color shader.
    SolidColor(Color),
    /// A linear gradient shader.
    LinearGradient(LinearGradient),
    /// A radial gradient shader.
    RadialGradient(RadialGradient),
    /// A pattern shader.
    Pattern(Pattern),
}

impl Shader {
    /// Opacity policy: a solid color by its alpha channel; a linear
    /// gradient by its stops (gradients cover their whole domain under
    /// every spread mode, so stop opacity suffices); a radial gradient and
    /// a pattern never, as a deliberate conservative simplification.
    pub open spec fn is_opaque_spec(self) -> bool {
        match self {
            Shader::SolidColor(c) => c.is_opaque_spec(),
            Shader::LinearGradient(g) => g.base.is_opaque_spec(),
            Shader::RadialGradient(_) => false,
            Shader::Pattern(_) => false,
        }
    }

    /// Whether compilation reports success: always for a solid color,
    /// otherwise exactly when the variant's geometry is usable.
    pub open spec fn can_push_spec(self) -> bool {
        match self {
            Shader::SolidColor(_) => true,
            Shader::LinearGradient(g) => g.can_push_spec(),
            Shader::RadialGradient(g) => g.can_push_spec(),
            Shader::Pattern(p) => p.can_push_spec(),
        }
    }

    /// The stages one compilation appends, with `base` the index of the
    /// first context it stores; empty for a solid color and for every
    /// degenerate configuration.
    pub open spec fn stage_seq(self, base: int) -> Seq<Stage> {
        match self {
            Shader::SolidColor(_) => Seq::empty(),
            Shader::LinearGradient(g) => g.stage_seq(base),
            Shader::RadialGradient(g) => g.stage_seq(base),
            Shader::Pattern(p) => p.stage_seq(base),
        }
    }

    /// The auxiliary data one compilation stores; empty for a solid color
    /// and for every degenerate configuration.
    pub open spec fn ctx_seq(self) -> Seq<CtxModel> {
        match self {
            Shader::SolidColor(_) => Seq::empty(),
            Shader::LinearGradient(g) => g.ctx_seq(),
            Shader::RadialGradient(g) => g.ctx_seq(),
            Shader::Pattern(p) => p.ctx_seq(),
        }
    }

    /// The local transform of the active variant; a solid color has none.
    pub open spec fn local_transform(self) -> Option<Transform> {
        match self {
            Shader::SolidColor(_) => None,
            Shader::LinearGradient(g) => Some(g.base.transform),
            Shader::RadialGradient(g) => Some(g.base.transform),
            Shader::Pattern(p) => Some(p.transform),
        }
    }

    /// The shader after a transform update with delta `ts`: the delta is
    /// composed after the variant's local transform; when the composition
    /// fails the shader is left completely unchanged, and a solid color is
    /// never changed.
    pub open spec fn transformed(self, ts: Transform) -> Shader {
        match self {
            Shader::SolidColor(_) => self,
            Shader::LinearGradient(g) => match g.base.transform.post_concat_spec(ts) {
                Some(t) => Shader::LinearGradient(
                    LinearGradient {
                        base: Gradient { transform: t, mode: g.base.mode, stops: g.base.stops },
                        ..g
                    },
                ),
                None => self,
            },
            Shader::RadialGradient(g) => match g.base.transform.post_concat_spec(ts) {
                Some(t) => Shader::RadialGradient(
                    RadialGradient {
                        base: Gradient { transform: t, mode: g.base.mode, stops: g.base.stops },
                        ..g
                    },
                ),
                None => self,
            },
            Shader::Pattern(p) => match p.transform.post_concat_spec(ts) {
                Some(t) => Shader::Pattern(Pattern { transform: t, ..p }),
                None => self,
            },
        }
    }

    /// Checks if the shader is guaranteed to produce only opaque colors.
    ///
    /// `false` is always a safe answer: radial gradients and patterns
    /// report `false` even when a tighter check would succeed.
    pub fn is_opaque(&self) -> (r: bool)
        ensures
            r == self.is_opaque_spec(),
    {
        match self {
            Shader::SolidColor(c) => c.is_opaque(),
            Shader::LinearGradient(g) => g.is_opaque(),
            Shader::RadialGradient(_) => false,
            Shader::Pattern(_) => false,
        }
    }

    /// Compiles the active variant into the pipeline inside `rec`.
    ///
    /// Returns `false` exactly when the shader produces no visible output
    /// for any pixel; the caller must then skip the draw entirely.  A
    /// solid color needs no stage (the constant color is applied by an
    /// always-present compositing stage outside this core) but still
    /// reports success.
    pub fn push_stages(&self, rec: &mut StageRec) -> (r: bool)
        ensures
            r == self.can_push_spec(),
            final(rec).pipeline@ == old(rec).pipeline@ + self.stage_seq(
                old(rec).ctx_storage@.len() as int,
            ),
            final(rec).ctx_storage@ == old(rec).ctx_storage@ + self.ctx_seq(),
            !r ==> final(rec).pipeline@ == old(rec).pipeline@,
    {
        match self {
            Shader::SolidColor(_) => {
                proof {
                    assert(rec.pipeline@ =~= old(rec).pipeline@ + self.stage_seq(
                        old(rec).ctx_storage@.len() as int,
                    ));
                    assert(rec.ctx_storage@ =~= old(rec).ctx_storage@ + self.ctx_seq());
                }
                true
            },
            Shader::LinearGradient(g) => g.push_stages(rec),
            Shader::RadialGradient(g) => g.push_stages(rec),
            Shader::Pattern(p) => p.push_stages(rec),
        }
    }

    /// Applies a transform delta on top of the shader's local transform.
    ///
    /// For a solid color this is a no-op.  For the geometric variants the
    /// delta is composed after the existing transform; when the
    /// composition fails the existing transform is kept, never partially
    /// updated, and no error is surfaced: the shader stays usable with its
    /// last-known-good transform.
    pub fn transform(&mut self, ts: &Transform)
        ensures
            *final(self) == old(self).transformed(*ts),
    {
        match self {
            Shader::SolidColor(_) => {},
            Shader::LinearGradient(g) => {
                if let Some(t) = g.base.transform.post_concat(ts) {
                    g.base.transform = t;
                }
            },
            Shader::RadialGradient(g) => {
                if let Some(t) = g.base.transform.post_concat(ts) {
                    g.base.transform = t;
                }
            },
            Shader::Pattern(p) => {
                if let Some(t) = p.transform.post_concat(ts) {
                    p.transform = t;
                }
            },
        }
    }
}

/// A solid-color shader is opaque exactly when its color's alpha channel is
/// at the maximum; with any smaller alpha it is not opaque.
pub proof fn lemma_solid_color_opacity(c: Color)
    ensures
        Shader::SolidColor(c).is_opaque_spec() == (c.a == ALPHA_OPAQUE),
        c.a < ALPHA_OPAQUE ==> !Shader::SolidColor(c).is_opaque_spec(),
{
}

/// A linear-gradient shader is opaque exactly when its stop list is
/// non-empty and every stop's color is opaque; in particular an empty stop
/// list reports not opaque, and one stop with alpha below the maximum
/// defeats opacity.
pub proof fn lemma_linear_gradient_opacity(g: LinearGradient)
    ensures
        Shader::LinearGradient(g).is_opaque_spec() == (g.base.stops@.len() > 0
            && all_stops_opaque(g.base.stops@)),
        g.base.stops@.len() == 0 ==> !Shader::LinearGradient(g).is_opaque_spec(),
        (exists|i: int|
            0 <= i < g.base.stops@.len() && g.base.stops@[i].color.a < ALPHA_OPAQUE)
            ==> !Shader::LinearGradient(g).is_opaque_spec(),
{
}

/// A radial-gradient shader never reports opacity, even when every one of
/// its stops is opaque: the conservative policy is part of the contract.
pub proof fn lemma_radial_gradient_never_opaque(g: RadialGradient)
    ensures
        !Shader::RadialGradient(g).is_opaque_spec(),
        all_stops_opaque(g.base.stops@) ==> !Shader::RadialGradient(g).is_opaque_spec(),
{
}

/// A pattern shader never reports opacity, whatever its image holds.
pub proof fn lemma_pattern_never_opaque(p: Pattern)
    ensures
        !Shader::Pattern(p).is_opaque_spec(),
{
}

/// A transform update with the identity delta leaves every shader
/// unchanged: when the local transform is invertible the composition gives
/// it back, and when it is not the failed update is dropped.
pub proof fn lemma_transform_identity(s: Shader)
    ensures
        s.transformed(Transform::identity_spec()) == s,
{
    match s {
        Shader::SolidColor(_) => {},
        Shader::LinearGradient(g) => {
            lemma_post_concat_identity(g.base.transform);
        },
        Shader::RadialGradient(g) => {
            lemma_post_concat_identity(g.base.transform);
        },
        Shader::Pattern(p) => {
            lemma_post_concat_identity(p.transform);
        },
    }
}

/// A transform update whose composition fails leaves the shader, and so
/// its local transform, exactly as it was: the update is dropped whole,
/// never partially applied.
pub proof fn lemma_failed_composition_keeps_shader(s: Shader, ts: Transform)
    ensures
        (s.local_transform() matches Some(t) && t.post_concat_spec(ts) is None)
            ==> s.transformed(ts) == s,
{
}

/// Compiling a solid-color shader reports success and appends no stage and
/// no context: the constant color needs no per-pixel stage.
pub proof fn lemma_solid_color_push(c: Color, base: int)
    ensures
        Shader::SolidColor(c).can_push_spec(),
        Shader::SolidColor(c).stage_seq(base) == Seq::<Stage>::empty(),
        Shader::SolidColor(c).ctx_seq() == Seq::<CtxModel>::empty(),
{
}

/// Compiling a degenerate shader reports failure and appends nothing; in
/// particular a radial gradient with zero radius and a pattern with a
/// zero-area source are degenerate.
pub proof fn lemma_degenerate_push(s: Shader, base: int)
    ensures
        !s.can_push_spec() ==> s.stage_seq(base) == Seq::<Stage>::empty(),
        !s.can_push_spec() ==> s.ctx_seq() == Seq::<CtxModel>::empty(),
        (s matches Shader::RadialGradient(g) && g.radius == 0) ==> !s.can_push_spec(),
        (s matches Shader::Pattern(p) && (p.width == 0 || p.height == 0))
            ==> !s.can_push_spec(),
        (s matches Shader::LinearGradient(g) && g.base.stops@.len() == 0)
            ==> !s.can_push_spec(),
{
}

/// Compiling a well-formed linear gradient with at least one stop reports
/// success and appends at least one stage.
pub proof fn lemma_linear_gradient_push(g: LinearGradient, base: int)
    requires
        g.base.stops@.len() >= 1,
        g.start_x != g.end_x || g.start_y != g.end_y,
        g.base.transform.is_invertible_spec(),
    ensures
        Shader::LinearGradient(g).can_push_spec(),
        Shader::LinearGradient(g).stage_seq(base).len() >= 1,
{
}

/// A transform update never changes a solid-color shader, whatever the
/// delta: the operation is a total no-op on it.
pub proof fn lemma_solid_color_transform(c: Color, ts: Transform)
    ensures
        Shader::SolidColor(c).transformed(ts) == Shader::SolidColor(c),
{
}

} // verus!
