use vstd::prelude::*;

verus! {

/// Default compile-time flock size used by the game.
pub const FREE_NBODY_N: usize = 15;

/// Optional domain constraint applied after each Euler step.
#[derive(Clone, Copy, Debug, PartialEq, Eq, Structural)]
pub enum DomainConstraint {
    /// No constraint: the state moves freely.
    Unconstrained,
    /// Keep `q` inside the unit box `[0, 1]^n` (component-wise bounce).
    UnitBox,
}

impl Default for DomainConstraint {
    /// The default is no constraint at all.
    fn default() -> (c: Self)
        ensures
            c == DomainConstraint::Unconstrained,
    {
        DomainConstraint::Unconstrained
    }
}

/// Configuration and velocity of a Lagrangian system.
pub struct LagrangianState<C> {
    pub q: C,
    pub qdot: C,
}

/// Configuration and momentum of a Hamiltonian system.
pub struct HamiltonianState<C> {
    pub q: C,
    pub p: C,
}

/// Free particle in 2D: L = T = ½|q̇|² (m = 1), so q̈ = 0 and p = q̇.
pub struct FreeParticle;

/// N non-interacting free particles (m = 1): L = Σ ½|q̇ᵢ|², so q̈ = 0 and p = q̇.
pub struct FreeNBody<const N: usize>;

/// The flock used by the game.
pub type FreeNBody15 = FreeNBody<FREE_NBODY_N>;

} // verus!
