//! One path of light, followed back from the eye, as a sequence of steps.
//!
//! A path goes from surface to surface until it ends on a light, on the
//! background, or in darkness. At each surface the caller works out numbers
//! and the path decides what follows. The light that a path brings is what
//! it ends with, multiplied by the tints that it picked up, the last tint
//! first.
use vstd::prelude::*;
use crate::geom::{Vec3, Hit};
use crate::scalar::Scalar;
use crate::context::{TraceContext, gate_admits};
use crate::materials::{Material, Checkerboard, Emitter, Scatter};
use crate::scene::{Scene, nearest_hit, is_nearest, none_counts};

verus! {

/// Where a path stands.
#[derive(Clone, Copy, Debug)]
pub enum Phase {
    /// A ray is under way: the path waits for the outcomes of testing it
    /// against the shapes.
    Flying,
    /// The ray has hit the checkerboard with the number `board`: the path
    /// waits for the cell of the hit.
    OnBoard { board: usize, hit: Hit },
    /// The ray has hit a material that scatters, and a recursion level is
    /// reserved: the path waits for the numbers of the scattering.
    Scattering { material: Material },
    /// The path has ended and every recursion level is given back.
    Ended,
}

/// What follows from a step of a path.
#[derive(Clone, Copy, Debug)]
pub enum Step {
    /// The path has ended on the background.
    Background,
    /// The path has ended on a light.
    Emit { emitter: Emitter, hit: Hit },
    /// The path has ended without light: no recursion level was left, or
    /// the surface sent nothing on.
    Dark,
    /// The caller is to work out the cell of the hit on this checkerboard.
    Board { board: Checkerboard, hit: Hit },
    /// The caller is to work out the numbers of the scattering at this hit.
    Surface { material: Material, hit: Hit },
    /// The caller is to send the next ray, in the direction that the
    /// scattering names.
    Onward { scatter: Scatter },
}

/// The numbers of a scattering, for each kind of material that scatters.
#[derive(Clone, Copy, Debug)]
pub enum Numbers {
    Lambertian,
    /// A one-dimensional draw, the Fresnel value of the hit, and the cosine
    /// between the mirrored direction and the normal of the surface.
    GlossWrap { sample: Scalar, fresnel: Scalar, gloss_cosine: Scalar },
    /// The cosine between the mirrored direction and the normal of the surface.
    BrushedMetal { reflected_cosine: Scalar },
}

/// Whether the numbers are those of the material's kind.
pub open spec fn numbers_match(material: Material, numbers: Numbers) -> bool {
    match material {
        Material::Lambertian(_) => numbers is Lambertian,
        Material::GlossWrap(_) => numbers is GlossWrap,
        Material::BrushedMetal(_) => numbers is BrushedMetal,
        _ => false,
    }
}

/// How a material scatters, given the numbers of its kind.
pub open spec fn spec_scatter(material: Material, numbers: Numbers) -> Scatter {
    match (material, numbers) {
        (Material::Lambertian(m), Numbers::Lambertian) => m.spec_scatter(),
        (Material::GlossWrap(m), Numbers::GlossWrap { sample, fresnel, gloss_cosine }) =>
            m.spec_scatter(sample, fresnel, gloss_cosine),
        (Material::BrushedMetal(m), Numbers::BrushedMetal { reflected_cosine }) =>
            m.spec_scatter(reflected_cosine),
        _ => Scatter::Absorbed,
    }
}

/// What follows when a path at `depth` meets the material with the number
/// `id` at `hit`: the step, the phase after it, and the depth after it. A
/// light ends the path. A checkerboard asks for the cell. A material that
/// scatters takes a recursion level; where none is left the path ends dark.
pub open spec fn spec_meet(materials: Seq<Material>, id: usize, hit: Hit, depth: int, limit: int)
    -> (Step, Phase, int) {
    match materials[id as int] {
        Material::Emitter(emitter) => (Step::Emit { emitter, hit }, Phase::Ended, 0),
        Material::Checkerboard(board) => (
            Step::Board { board, hit },
            Phase::OnBoard { board: id, hit },
            depth,
        ),
        material => if gate_admits(depth, limit) {
            (Step::Surface { material, hit }, Phase::Scattering { material }, depth + 1)
        } else {
            (Step::Dark, Phase::Ended, 0)
        },
    }
}

/// Whether every outcome that is a hit names a material among the first `count`.
pub open spec fn materials_known(outcomes: Seq<Option<Hit>>, count: nat) -> bool {
    forall|j: int|
        0 <= j < outcomes.len() && (#[trigger] outcomes[j]) is Some ==> outcomes[j].unwrap().material
            < count
}

/// A path of light: the tints that it has picked up, and where it stands.
pub struct Path {
    tints: Vec<Vec3>,
    phase: Phase,
}

impl Path {
    /// The tints that the path has picked up, the first surface's first.
    pub closed spec fn tints(&self) -> Seq<Vec3> {
        self.tints@
    }

    /// Where the path stands.
    pub closed spec fn phase(&self) -> Phase {
        self.phase
    }

    /// The path and the context belong together: there is a recursion
    /// level in use for each tint, one more while a scattering is being
    /// worked out, and none after the end; and the path holds no more tints
    /// than the context has levels.
    pub open spec fn fits<A, B, C>(&self, ctx: &TraceContext<A, B, C>) -> bool {
        &&& ctx.wf()
        &&& self.tints().len() <= ctx.limit()
        &&& match self.phase() {
            Phase::Ended => ctx.depth() == 0,
            Phase::Scattering { .. } => ctx.depth() == self.tints().len() + 1,
            _ => ctx.depth() == self.tints().len(),
        }
    }

    /// Whether `ctx` is `before` but for its depth.
    pub open spec fn same_draws<A, B, C>(
        ctx: &TraceContext<A, B, C>,
        before: &TraceContext<A, B, C>,
    ) -> bool {
        &&& ctx.limit() == before.limit()
        &&& ctx.reseed_count() == before.reseed_count()
        &&& ctx.scalars() == before.scalars()
        &&& ctx.pairs() == before.pairs()
        &&& ctx.triples() == before.triples()
    }

    /// A path whose first ray is under way.
    pub fn new() -> (r: Path)
        ensures
            r.phase() is Flying,
            r.tints() == Seq::<Vec3>::empty(),
    {
        Path { tints: Vec::new(), phase: Phase::Flying }
    }

    /// Where the path stands.
    pub fn current_phase(&self) -> (r: Phase)
        ensures
            r == self.phase(),
    {
        self.phase
    }

    /// The tints that the path has picked up, the first surface's first.
    pub fn collected_tints(&self) -> (r: &Vec<Vec3>)
        ensures
            r@ == self.tints(),
    {
        &self.tints
    }

    fn end<A, B, C>(&mut self, ctx: &mut TraceContext<A, B, C>)
        requires
            old(ctx).wf(),
            old(self).tints().len() <= old(ctx).limit(),
        ensures
            final(self).phase() is Ended,
            final(self).tints() == old(self).tints(),
            final(self).fits(final(ctx)),
            Path::same_draws(final(ctx), old(ctx)),
    {
        while ctx.current_depth() > 0
            invariant
                ctx.wf(),
                Path::same_draws(ctx, old(ctx)),
            decreases ctx.depth(),
        {
            ctx.pop();
        }
        self.phase = Phase::Ended;
    }

    fn meet<A, B, C>(
        &mut self,
        scene: &Scene,
        id: usize,
        hit: Hit,
        ctx: &mut TraceContext<A, B, C>,
    ) -> (step: Step)
        requires
            old(ctx).wf(),
            old(ctx).depth() == old(self).tints().len(),
            id < scene.materials().len(),
        ensures
            final(self).fits(final(ctx)),
            final(self).tints() == old(self).tints(),
            Path::same_draws(final(ctx), old(ctx)),
            (step, final(self).phase(), final(ctx).depth()) == spec_meet(
                scene.materials(),
                id,
                hit,
                old(ctx).depth(),
                old(ctx).limit(),
            ),
    {
        match scene.material(id) {
            Material::Emitter(emitter) => {
                self.end(ctx);
                Step::Emit { emitter, hit }
            },
            Material::Checkerboard(board) => {
                self.phase = Phase::OnBoard { board: id, hit };
                Step::Board { board, hit }
            },
            material => {
                if ctx.try_push() {
                    self.phase = Phase::Scattering { material };
                    Step::Surface { material, hit }
                } else {
                    self.end(ctx);
                    Step::Dark
                }
            },
        }
    }

    /// The ray that was under way has been tested against every shape of
    /// the scene, with these outcomes. Where the ray sees no hit the path
    /// ends on the background; else it meets the material of the hit that
    /// the ray sees.
    pub fn land<A, B, C>(
        &mut self,
        scene: &Scene,
        outcomes: &Vec<Option<Hit>>,
        ctx: &mut TraceContext<A, B, C>,
    ) -> (step: Step)
        requires
            old(self).phase() is Flying,
            old(self).fits(old(ctx)),
            materials_known(outcomes@, scene.materials().len()),
        ensures
            final(self).fits(final(ctx)),
            final(self).tints() == old(self).tints(),
            Path::same_draws(final(ctx), old(ctx)),
            none_counts(outcomes@, outcomes.len() as int) ==> step is Background,
            none_counts(outcomes@, outcomes.len() as int) ==> final(self).phase() is Ended,
            forall|i: int| #[trigger]
                is_nearest(outcomes@, outcomes.len() as int, i) ==> (
                    step,
                    final(self).phase(),
                    final(ctx).depth(),
                ) == spec_meet(
                    scene.materials(),
                    outcomes@[i].unwrap().material,
                    outcomes@[i].unwrap(),
                    old(ctx).depth(),
                    old(ctx).limit(),
                ),
    {
        match nearest_hit(outcomes) {
            Some(seen) => {
                proof {
                    lemma_nearest_is_unique(outcomes@, outcomes.len() as int, seen as int);
                }
                let hit = outcomes[seen].unwrap();
                self.meet(scene, hit.material, hit, ctx)
            },
            None => {
                self.end(ctx);
                Step::Background
            },
        }
    }

    /// The cell of the hit on the checkerboard has been worked out: the
    /// path meets the material of that cell, at the same hit.
    pub fn pick<A, B, C>(
        &mut self,
        scene: &Scene,
        cx: i32,
        cy: i32,
        cz: i32,
        ctx: &mut TraceContext<A, B, C>,
    ) -> (step: Step)
        requires
            scene.wf(),
            old(self).fits(old(ctx)),
            old(self).phase() matches Phase::OnBoard { board, .. } && board
                < scene.materials().len() && scene.materials()[board as int] is Checkerboard,
        ensures
            final(self).fits(final(ctx)),
            final(self).tints() == old(self).tints(),
            Path::same_draws(final(ctx), old(ctx)),
            ({
                let board = old(self).phase()->OnBoard_board;
                let hit = old(self).phase()->OnBoard_hit;
                let next = scene.materials()[board as int]->Checkerboard_0.spec_select(
                    cx as int,
                    cy as int,
                    cz as int,
                );
                &&& next < board
                &&& (step, final(self).phase(), final(ctx).depth()) == spec_meet(
                    scene.materials(),
                    next,
                    hit,
                    old(ctx).depth(),
                    old(ctx).limit(),
                )
            }),
    {
        match self.phase {
            Phase::OnBoard { board, hit } => {
                match scene.material(board) {
                    Material::Checkerboard(pattern) => {
                        let next = pattern.select(cx, cy, cz);
                        self.meet(scene, next, hit, ctx)
                    },
                    _ => Step::Dark,
                }
            },
            _ => Step::Dark,
        }
    }

    /// The numbers of the scattering have been worked out. Where the
    /// surface sends nothing on, the path ends dark; else the path picks up
    /// the tint and the next ray is under way.
    pub fn bounce<A, B, C>(&mut self, numbers: Numbers, ctx: &mut TraceContext<A, B, C>) -> (step:
        Step)
        requires
            old(self).fits(old(ctx)),
            old(self).phase() matches Phase::Scattering { material } && numbers_match(
                material,
                numbers,
            ),
        ensures
            final(self).fits(final(ctx)),
            Path::same_draws(final(ctx), old(ctx)),
            ({
                let scatter = spec_scatter(old(self).phase()->Scattering_material, numbers);
                match scatter {
                    Scatter::Absorbed => {
                        &&& step is Dark
                        &&& final(self).phase() is Ended
                        &&& final(self).tints() == old(self).tints()
                    },
                    Scatter::Diffuse { tint } | Scatter::Gloss { tint } => {
                        &&& step == Step::Onward { scatter }
                        &&& final(self).phase() is Flying
                        &&& final(self).tints() == old(self).tints().push(tint)
                        &&& final(ctx).depth() == old(ctx).depth()
                    },
                }
            }),
    {
        let scatter = match (self.phase, numbers) {
            (Phase::Scattering { material: Material::Lambertian(m) }, Numbers::Lambertian) =>
                m.scatter(),
            (
                Phase::Scattering { material: Material::GlossWrap(m) },
                Numbers::GlossWrap { sample, fresnel, gloss_cosine },
            ) => m.scatter(sample, fresnel, gloss_cosine),
            (
                Phase::Scattering { material: Material::BrushedMetal(m) },
                Numbers::BrushedMetal { reflected_cosine },
            ) => m.scatter(reflected_cosine),
            _ => Scatter::Absorbed,
        };
        match scatter {
            Scatter::Absorbed => {
                self.end(ctx);
                Step::Dark
            },
            Scatter::Diffuse { tint } | Scatter::Gloss { tint } => {
                self.tints.push(tint);
                self.phase = Phase::Flying;
                Step::Onward { scatter }
            },
        }
    }
}

/// Among the outcomes of one ray there is at most one hit that the ray sees.
pub proof fn lemma_nearest_is_unique(outcomes: Seq<Option<Hit>>, n: int, i: int)
    requires
        is_nearest(outcomes, n, i),
    ensures
        forall|j: int| #[trigger] is_nearest(outcomes, n, j) ==> j == i,
{
}

/// A path never holds more tints than the context has recursion levels, so
/// it ends after at most that many scatterings.
pub proof fn lemma_path_is_bounded<A, B, C>(path: &Path, ctx: &TraceContext<A, B, C>)
    requires
        path.fits(ctx),
    ensures
        path.tints().len() <= ctx.limit(),
        path.phase() is Scattering ==> path.tints().len() < ctx.limit(),
{
}

} // verus!
