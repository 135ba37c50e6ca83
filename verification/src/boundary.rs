//! Boundary conditions of grid nodes.
//!
//! Each grid node carries a boundary id. After the grid velocities are computed,
//! the boundary rule sets velocity components of boundary nodes to zero: both of
//! them at sticky nodes, the X component at left and right slip walls and the Y
//! component at bottom and top slip walls.
use vstd::prelude::*;

verus! {

/// Types of boundary conditions that can be applied to grid nodes.
#[derive(Debug, Clone, Copy, PartialEq, Eq, Structural)]
pub enum BoundaryType {
    /// No boundary condition applied. Standard interior node.
    Interior,
    /// Velocity is set to zero (no-slip/sticky boundary).
    Sticky,
    /// Velocity in X is set to zero (slip in Y) on the left boundary.
    SlipLeft,
    /// Velocity in X is set to zero (slip in Y) on the right boundary.
    SlipRight,
    /// Velocity in Y is set to zero (slip in X) on the bottom boundary.
    SlipBottom,
    /// Velocity in Y is set to zero (slip in X) on the top boundary.
    SlipTop,
}

impl BoundaryType {
    /// The numeric id under which grid buffers store this boundary type.
    pub open spec fn spec_id(self) -> u32 {
        match self {
            BoundaryType::Interior => 0,
            BoundaryType::Sticky => 1,
            BoundaryType::SlipLeft => 20,
            BoundaryType::SlipRight => 21,
            BoundaryType::SlipBottom => 22,
            BoundaryType::SlipTop => 23,
        }
    }

    /// The numeric id under which grid buffers store this boundary type.
    pub fn id(&self) -> (id: u32)
        ensures
            id == self.spec_id(),
    {
        match self {
            BoundaryType::Interior => 0,
            BoundaryType::Sticky => 1,
            BoundaryType::SlipLeft => 20,
            BoundaryType::SlipRight => 21,
            BoundaryType::SlipBottom => 22,
            BoundaryType::SlipTop => 23,
        }
    }
}

/// The boundary rule sets the X velocity of a node with this id to zero.
pub open spec fn zeroes_x(boundary_id: u32) -> bool {
    boundary_id == 1 || boundary_id == 20 || boundary_id == 21
}

/// The boundary rule sets the Y velocity of a node with this id to zero.
pub open spec fn zeroes_y(boundary_id: u32) -> bool {
    boundary_id == 1 || boundary_id == 22 || boundary_id == 23
}

/// Applies the boundary rule of a node with id `boundary_id` to its velocity
/// `(vx, vy)`; `zero` is the zero of the velocity components. Ids that name no
/// boundary type leave the velocity as it is.
pub fn apply_boundary<T: Copy>(boundary_id: u32, velocity: (T, T), zero: T) -> (v: (T, T))
    ensures
        v.0 == (if zeroes_x(boundary_id) { zero } else { velocity.0 }),
        v.1 == (if zeroes_y(boundary_id) { zero } else { velocity.1 }),
{
    let mut v = velocity;
    match boundary_id {
        0 => {},
        1 => {
            v.0 = zero;
            v.1 = zero;
        },
        20 | 21 => {
            v.0 = zero;
        },
        22 | 23 => {
            v.1 = zero;
        },
        _ => {},
    }
    v
}

/// Law: each boundary type acts as its documentation says. Sticky nodes lose both
/// velocity components, left and right slip walls the X component, bottom and top
/// slip walls the Y component, and other nodes neither.
pub proof fn lemma_boundary_type_rule(b: BoundaryType)
    ensures
        zeroes_x(b.spec_id()) <==> (b == BoundaryType::Sticky || b == BoundaryType::SlipLeft || b
            == BoundaryType::SlipRight),
        zeroes_y(b.spec_id()) <==> (b == BoundaryType::Sticky || b == BoundaryType::SlipBottom || b
            == BoundaryType::SlipTop),
{
}

/// Law: distinct boundary types are stored under distinct ids.
pub proof fn lemma_boundary_ids_distinct(a: BoundaryType, b: BoundaryType)
    ensures
        a.spec_id() == b.spec_id() <==> a == b,
{
}

} // verus!
