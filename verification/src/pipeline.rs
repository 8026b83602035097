//! The pipeline-building primitives consumed by the shading core.
//!
//! One rasterization pass owns a [`RasterPipelineBuilder`], the append-only
//! sequence of executable per-pixel stages, and a [`ContextStorage`], an
//! arena owning the auxiliary data those stages read.  A [`StageRec`]
//! bundles the two for the duration of one stage-compilation call.

use vstd::prelude::*;

use crate::color::GradientStop;
use crate::geom::Transform;
use crate::shader::FilterQuality;

verus! {

/// One executable step of the per-pixel color-computation pipeline.
/// A `ctx` field is the index, in the [`ContextStorage`] of the same pass,
/// of the auxiliary data the stage reads.
#[derive(Copy, Clone, Debug, PartialEq, Eq, Structural)]
pub enum Stage {
    /// Maps device coordinates through a stored transform.
    ApplyMatrix { ctx: usize },
    /// Clamps the gradient parameter to the nearest edge.
    SpreadPad,
    /// Mirror-repeats the gradient parameter.
    SpreadReflect,
    /// Tiles the gradient parameter.
    SpreadRepeat,
    /// Evaluates a linear gradient's color ramp.
    LinearGradientRamp { ctx: usize },
    /// Evaluates a radial gradient's color ramp.
    RadialGradientRamp { ctx: usize },
    /// Samples an image pattern.
    PatternSample { ctx: usize },
}

/// Per-stage auxiliary data, arena-owned for the lifetime of one pipeline
/// build.
#[derive(Clone, Debug, PartialEq)]
pub enum StageCtx {
    /// The transform an [`Stage::ApplyMatrix`] stage applies.
    Matrix(Transform),
    /// The color ramp a gradient-evaluation stage interpolates.
    Ramp(Vec<GradientStop>),
    /// The source a [`Stage::PatternSample`] stage reads.
    Image { width: u32, height: u32, quality: FilterQuality },
}

/// The mathematical value of one stored [`StageCtx`]: the same data with the
/// ramp taken as a sequence, so that two contexts holding equal ramps are
/// equal values.
pub enum CtxModel {
    Matrix(Transform),
    Ramp(Seq<GradientStop>),
    Image { width: u32, height: u32, quality: FilterQuality },
}

impl View for StageCtx {
    type V = CtxModel;

    open spec fn view(&self) -> CtxModel {
        match self {
            StageCtx::Matrix(t) => CtxModel::Matrix(*t),
            StageCtx::Ramp(stops) => CtxModel::Ramp(stops@),
            StageCtx::Image { width, height, quality } => CtxModel::Image {
                width: *width,
                height: *height,
                quality: *quality,
            },
        }
    }
}

/// Arena owning the auxiliary data of the stages of one pipeline build.
pub struct ContextStorage {
    ctxs: Vec<StageCtx>,
}

impl View for ContextStorage {
    type V = Seq<CtxModel>;

    closed spec fn view(&self) -> Seq<CtxModel> {
        self.ctxs@.map_values(|c: StageCtx| c@)
    }
}

impl ContextStorage {
    pub fn new() -> (s: ContextStorage)
        ensures
            s@ == Seq::<CtxModel>::empty(),
    {
        let s = ContextStorage { ctxs: Vec::new() };
        proof {
            assert(s@ =~= Seq::<CtxModel>::empty());
        }
        s
    }

    /// Stores one piece of auxiliary data and returns its index.
    pub fn push_context(&mut self, ctx: StageCtx) -> (ix: usize)
        ensures
            final(self)@ == old(self)@.push(ctx@),
            ix == old(self)@.len(),
    {
        let ix = self.ctxs.len();
        self.ctxs.push(ctx);
        proof {
            assert(self@ =~= old(self)@.push(ctx@));
        }
        ix
    }

    pub fn len(&self) -> (n: usize)
        ensures
            n == self@.len(),
    {
        self.ctxs.len()
    }

    pub fn context(&self, ix: usize) -> (r: Option<&StageCtx>)
        ensures
            ix < self@.len() ==> (r matches Some(c) && c@ == self@[ix as int]),
            ix >= self@.len() ==> r is None,
    {
        if ix < self.ctxs.len() {
            Some(&self.ctxs[ix])
        } else {
            None
        }
    }
}

/// The append-only accumulator of the stages of one rasterization pass.
pub struct RasterPipelineBuilder {
    stages: Vec<Stage>,
}

impl View for RasterPipelineBuilder {
    type V = Seq<Stage>;

    closed spec fn view(&self) -> Seq<Stage> {
        self.stages@
    }
}

impl RasterPipelineBuilder {
    pub fn new() -> (p: RasterPipelineBuilder)
        ensures
            p@ == Seq::<Stage>::empty(),
    {
        RasterPipelineBuilder { stages: Vec::new() }
    }

    /// Appends one stage; stages are never reordered or removed.
    pub fn push(&mut self, stage: Stage)
        ensures
            final(self)@ == old(self)@.push(stage),
    {
        self.stages.push(stage);
    }

    pub fn len(&self) -> (n: usize)
        ensures
            n == self@.len(),
    {
        self.stages.len()
    }

    pub fn stage(&self, ix: usize) -> (r: Option<Stage>)
        ensures
            ix < self@.len() ==> r == Some(self@[ix as int]),
            ix >= self@.len() ==> r is None,
    {
        if ix < self.stages.len() {
            Some(self.stages[ix])
        } else {
            None
        }
    }
}

/// The borrow-bundle handed to one stage-compilation call: the arena for
/// per-stage auxiliary data and the pipeline under construction.  It is
/// made fresh for each compilation and never shared across concurrent
/// compilations.
pub struct StageRec {
    pub ctx_storage: ContextStorage,
    pub pipeline: RasterPipelineBuilder,
}

impl StageRec {
    pub fn new(ctx_storage: ContextStorage, pipeline: RasterPipelineBuilder) -> (r: StageRec)
        ensures
            r.ctx_storage@ == ctx_storage@,
            r.pipeline@ == pipeline@,
    {
        StageRec { ctx_storage, pipeline }
    }
}

} // verus!
