use vstd::prelude::*;

verus! {

/// The fewest segments a ring of an arrow may have.
pub const MIN_SUBDIVISIONS: usize = 3;

/// The number of ring segments of an arrow made without a stated count.
pub const DEFAULT_SUBDIVISIONS: usize = 8;

/// The head of an arrow: how finely its rings are divided.
///
/// The radius and height of the head are real numbers and stay with the
/// renderer; the subdivision count alone decides how many vertices and
/// triangles an arrow has.
#[derive(Debug, Clone, Copy)]
pub struct BevyTridentCone {
    pub subdivisions: usize,
}

impl BevyTridentCone {
    /// A cone is well formed when each of its rings has at least three segments.
    pub open spec fn wf(&self) -> bool {
        self.subdivisions >= MIN_SUBDIVISIONS
    }
}

impl Default for BevyTridentCone {
    fn default() -> (cone: Self)
        ensures
            cone.subdivisions == DEFAULT_SUBDIVISIONS,
            cone.wf(),
    {
        BevyTridentCone { subdivisions: DEFAULT_SUBDIVISIONS }
    }
}

/// The subdivision count that a request for `subdivisions` segments yields:
/// the request itself, raised to the minimum where it is below it.
pub open spec fn clamped_subdivisions(subdivisions: nat) -> nat {
    if subdivisions < MIN_SUBDIVISIONS {
        MIN_SUBDIVISIONS as nat
    } else {
        subdivisions
    }
}

/// One arrow of the trident: a shaft capped by a cone.
#[derive(Debug, Clone, Copy)]
pub struct BevyTridentArrow {
    pub cone: BevyTridentCone,
}

impl BevyTridentArrow {
    /// An arrow is well formed when its cone is.
    pub open spec fn wf(&self) -> bool {
        self.cone.wf()
    }

    /// An arrow with the requested number of ring segments. A request below
    /// the minimum is raised to it without complaint: the count only sets how
    /// round the arrow looks.
    pub fn new(subdivisions: usize) -> (arrow: Self)
        ensures
            arrow.cone.subdivisions == clamped_subdivisions(subdivisions as nat),
            arrow.wf(),
    {
        let subdivisions: usize = if subdivisions < MIN_SUBDIVISIONS {
            MIN_SUBDIVISIONS
        } else {
            subdivisions
        };
        BevyTridentArrow { cone: BevyTridentCone { subdivisions } }
    }
}

impl Default for BevyTridentArrow {
    fn default() -> (arrow: Self)
        ensures
            arrow.cone.subdivisions == DEFAULT_SUBDIVISIONS,
            arrow.wf(),
    {
        BevyTridentArrow::new(DEFAULT_SUBDIVISIONS)
    }
}

} // verus!
