//! The plan of one simulation step: which stages run, in which order, and how
//! many workgroups each stage is launched with.
//!
//! A step clears the grid, transfers particle mass and momentum to the grid,
//! updates the grid velocities and transfers them back to the particles. When the
//! simulation accumulates the particle-to-grid transfer in scaled integers, the
//! integer accumulators are cleared with the grid and converted back to floating
//! point before the grid update.
use vstd::prelude::*;

verus! {

/// Number of threads in one workgroup of every stage.
pub const NUM_WORKGROUPS: usize = 256;

/// One kernel launch of a simulation step.
#[derive(Debug, Clone, Copy, PartialEq, Eq, Structural)]
pub enum Stage {
    /// Resets grid mass and momentum.
    ClearGrid,
    /// Resets the integer accumulators of grid mass and momentum.
    ClearGridI32,
    /// Scatters particle mass and momentum to the grid with floating-point atomics.
    ParticleToGrid,
    /// Scatters particle mass and momentum to the integer accumulators.
    ParticleToGridI32,
    /// Converts the integer accumulators back to grid mass and momentum.
    I32ToF32,
    /// Turns grid momentum into velocity and applies forces and boundaries.
    UpdateGrid,
    /// Gathers grid velocity back to the particles and moves them.
    GridToParticle,
}

/// The stages of one step, in launch order.
pub open spec fn spec_step_stages(use_i32_atomic: bool) -> Seq<Stage> {
    if use_i32_atomic {
        seq![
            Stage::ClearGrid,
            Stage::ClearGridI32,
            Stage::ParticleToGridI32,
            Stage::I32ToF32,
            Stage::UpdateGrid,
            Stage::GridToParticle,
        ]
    } else {
        seq![Stage::ClearGrid, Stage::ParticleToGrid, Stage::UpdateGrid, Stage::GridToParticle]
    }
}

/// The stages of one step, in launch order. `use_i32_atomic` selects the pipeline
/// that accumulates the particle-to-grid transfer in scaled integers.
pub fn step_stages(use_i32_atomic: bool) -> (stages: Vec<Stage>)
    ensures
        stages@ == spec_step_stages(use_i32_atomic),
{
    let mut stages: Vec<Stage> = Vec::new();
    stages.push(Stage::ClearGrid);
    if use_i32_atomic {
        stages.push(Stage::ClearGridI32);
        stages.push(Stage::ParticleToGridI32);
        stages.push(Stage::I32ToF32);
    } else {
        stages.push(Stage::ParticleToGrid);
    }
    stages.push(Stage::UpdateGrid);
    stages.push(Stage::GridToParticle);
    assert(stages@ =~= spec_step_stages(use_i32_atomic));
    stages
}

impl Stage {
    /// The stage runs one thread per particle (otherwise one per grid node).
    pub open spec fn spec_over_particles(self) -> bool {
        self == Stage::ParticleToGrid || self == Stage::ParticleToGridI32 || self == Stage::GridToParticle
    }

    /// The stage runs one thread per particle (otherwise one per grid node).
    pub fn over_particles(&self) -> (r: bool)
        ensures
            r == self.spec_over_particles(),
    {
        match self {
            Stage::ParticleToGrid | Stage::ParticleToGridI32 | Stage::GridToParticle => true,
            _ => false,
        }
    }
}

/// The number of workgroups needed to give each of `len` items a thread.
pub open spec fn spec_cube_count(len: int) -> int {
    (len + NUM_WORKGROUPS - 1) / (NUM_WORKGROUPS as int)
}

/// Law: the workgroups of a launch give every item a thread, and no workgroup is
/// launched for nothing: `count * 256` covers `len`, and `(count - 1) * 256` does not.
pub proof fn lemma_cube_count_covers(len: nat)
    ensures
        spec_cube_count(len as int) * NUM_WORKGROUPS >= len,
        len > 0 ==> (spec_cube_count(len as int) - 1) * NUM_WORKGROUPS < len,
        len == 0 ==> spec_cube_count(len as int) == 0,
{
    vstd::arithmetic::div_mod::lemma_fundamental_div_mod(len as int + 255, 256);
    vstd::arithmetic::div_mod::lemma_mod_pos_bound(len as int + 255, 256);
}

/// A launch size does not fit the launcher's 32-bit workgroup count.
#[derive(Debug, Clone, Copy, PartialEq, Eq, Structural)]
pub struct LaunchTooLarge;

/// The number of workgroups needed to give each of `len` items a thread, as the
/// 32-bit count the launcher takes. Fails when that count does not fit in a `u32`.
pub fn cube_count(len: usize) -> (r: Result<u32, LaunchTooLarge>)
    ensures
        match r {
            Ok(c) => c == spec_cube_count(len as int),
            Err(_) => spec_cube_count(len as int) > u32::MAX,
        },
{
    let count = len / NUM_WORKGROUPS + if len % NUM_WORKGROUPS == 0 { 0 } else { 1 };
    assert(count == spec_cube_count(len as int)) by {
        vstd::arithmetic::div_mod::lemma_fundamental_div_mod(len as int, 256);
        vstd::arithmetic::div_mod::lemma_fundamental_div_mod(len as int + 255, 256);
        vstd::arithmetic::div_mod::lemma_mod_pos_bound(len as int, 256);
        vstd::arithmetic::div_mod::lemma_mod_pos_bound(len as int + 255, 256);
    }
    if count > 0xffff_ffffusize {
        Err(LaunchTooLarge)
    } else {
        Ok(count as u32)
    }
}

/// The number of workgroups a stage is launched with, given the number of grid
/// nodes and of particles.
pub fn stage_cube_count(stage: Stage, num_grids: usize, num_particles: usize) -> (r: Result<
    u32,
    LaunchTooLarge,
>)
    ensures
        ({
            let len = if stage.spec_over_particles() { num_particles } else { num_grids };
            match r {
                Ok(c) => c == spec_cube_count(len as int),
                Err(_) => spec_cube_count(len as int) > u32::MAX,
            }
        }),
        (stage == Stage::ClearGrid || stage == Stage::ClearGridI32 || stage == Stage::I32ToF32 || stage
            == Stage::UpdateGrid) ==> match r {
            Ok(c) => c == spec_cube_count(num_grids as int),
            Err(_) => spec_cube_count(num_grids as int) > u32::MAX,
        },
        (stage == Stage::ParticleToGrid || stage == Stage::ParticleToGridI32 || stage
            == Stage::GridToParticle) ==> match r {
            Ok(c) => c == spec_cube_count(num_particles as int),
            Err(_) => spec_cube_count(num_particles as int) > u32::MAX,
        },
{
    if stage.over_particles() {
        cube_count(num_particles)
    } else {
        cube_count(num_grids)
    }
}

/// Position of the particle-to-grid scatter in the stages of one step.
pub open spec fn scatter_position(use_i32_atomic: bool) -> int {
    if use_i32_atomic {
        2
    } else {
        1
    }
}

/// Law: in either pipeline exactly two stages of a step run one thread per particle:
/// the particle-to-grid scatter and the final grid-to-particle gather. Every other
/// stage, including the clears before the scatter (both the floating-point grid and
/// the integer accumulators), the conversion and the grid update, runs one thread
/// per grid node and is launched with `spec_cube_count(num_grids)` workgroups.
pub proof fn lemma_step_stage_domains(use_i32_atomic: bool, i: int)
    requires
        0 <= i < spec_step_stages(use_i32_atomic).len(),
    ensures
        spec_step_stages(use_i32_atomic)[i].spec_over_particles() <==> (i == scatter_position(
            use_i32_atomic,
        ) || i == spec_step_stages(use_i32_atomic).len() - 1),
        i < scatter_position(use_i32_atomic) ==> !spec_step_stages(use_i32_atomic)[i].spec_over_particles(),
{
}

/// Law: every stage that clears, converts or updates grid node buffers runs one
/// thread per grid node; only the two transfer stages run one per particle.
pub proof fn lemma_grid_stages_over_grid(stage: Stage)
    ensures
        (stage == Stage::ClearGrid || stage == Stage::ClearGridI32 || stage == Stage::I32ToF32 || stage
            == Stage::UpdateGrid) <==> !stage.spec_over_particles(),
{
}

/// Stage `a` runs before stage `b` whenever both are in `stages`.
pub open spec fn runs_before(stages: Seq<Stage>, a: Stage, b: Stage) -> bool {
    forall|i: int, j: int| 0 <= i < stages.len() && 0 <= j < stages.len() && stages[i] == a && stages[j]
        == b ==> i < j
}

/// Law: the order of a step. Both pipelines start by clearing the grid and end by
/// updating the grid and then gathering back to the particles; no stage runs twice.
/// The integer pipeline clears its accumulators, scatters into them, converts them
/// back and only then updates the grid, and never uses the floating-point scatter;
/// the floating-point pipeline uses only the floating-point scatter and none of the
/// integer stages.
pub proof fn lemma_step_order(use_i32_atomic: bool)
    ensures
        ({
            let s = spec_step_stages(use_i32_atomic);
            &&& s[0] == Stage::ClearGrid
            &&& s[s.len() - 2] == Stage::UpdateGrid
            &&& s[s.len() - 1] == Stage::GridToParticle
            &&& forall|i: int, j: int| 0 <= i < j < s.len() ==> s[i] != s[j]
            &&& runs_before(s, Stage::ClearGrid, Stage::UpdateGrid)
            &&& use_i32_atomic ==> {
                &&& s.contains(Stage::ClearGridI32)
                &&& s.contains(Stage::ParticleToGridI32)
                &&& s.contains(Stage::I32ToF32)
                &&& !s.contains(Stage::ParticleToGrid)
                &&& runs_before(s, Stage::ClearGridI32, Stage::ParticleToGridI32)
                &&& runs_before(s, Stage::ParticleToGridI32, Stage::I32ToF32)
                &&& runs_before(s, Stage::I32ToF32, Stage::UpdateGrid)
            }
            &&& !use_i32_atomic ==> {
                &&& s.contains(Stage::ParticleToGrid)
                &&& !s.contains(Stage::ClearGridI32)
                &&& !s.contains(Stage::ParticleToGridI32)
                &&& !s.contains(Stage::I32ToF32)
                &&& runs_before(s, Stage::ParticleToGrid, Stage::UpdateGrid)
            }
        }),
{
    let s = spec_step_stages(use_i32_atomic);
    if use_i32_atomic {
        assert(s[1] == Stage::ClearGridI32);
        assert(s[2] == Stage::ParticleToGridI32);
        assert(s[3] == Stage::I32ToF32);
    } else {
        assert(s[1] == Stage::ParticleToGrid);
    }
}

} // verus!
