//! The full view cube: six faces, twelve edges and eight corners.

use vstd::prelude::*;

use crate::viewcube::simple_viewcube::generate_viewcube_simple_face;
use crate::viewcube::{
    patch_rotation, spawn_of, spawns, CubePart, IVec3, PartKind, Patch, PatchColor, PatchSpawn,
    Rotation,
};
use crate::{PI_2, PI_4, PI_4_3};

verus! {

/// The side of a face of the full cube, in tenths of a unit: smaller than
/// the simple cube's, to leave room for the edges and corners.
pub const FACE_SIZE: u8 = 6;

/// The strip that stands for an edge of the cube.
#[derive(Debug, Clone, Copy)]
pub struct ViewcubeEdge(pub CubePart);

/// The triangle that stands for a corner of the cube.
#[derive(Debug, Clone, Copy)]
pub struct ViewcubeCorner(pub CubePart);

impl ViewcubeEdge {
    /// The strip of this edge: how it is turned, and whether its long side
    /// is swapped from the patch's X axis to its Z axis. The long side is
    /// swapped for the edges that run along Z, those between a side face and
    /// the top or bottom.
    pub fn patch(self) -> (patch: Patch)
        requires
            self.0.spec_kind() == PartKind::Edge,
        ensures
            patch == (Patch::Edge { rotation: patch_rotation(self.0), swap: self.0.z() == 0 }),
    {
        let (rotation, swap) = match self.0 {
            CubePart::FrontTop => (Rotation::X(PI_4), false),
            CubePart::FrontBottom => (Rotation::X(PI_4_3), false),
            CubePart::BackTop => (Rotation::X(-PI_4), false),
            CubePart::BackBottom => (Rotation::X(-PI_4_3), false),
            CubePart::LeftTop => (Rotation::Z(PI_4), true),
            CubePart::LeftBottom => (Rotation::Z(PI_4_3), true),
            CubePart::RightTop => (Rotation::Z(-PI_4), true),
            CubePart::RightBottom => (Rotation::Z(-PI_4_3), true),
            CubePart::FrontLeft => (Rotation::EulerZyx(PI_2, 0, PI_4), false),
            CubePart::FrontRight => (Rotation::EulerZyx(PI_2, 0, PI_4_3), false),
            CubePart::BackLeft => (Rotation::EulerZyx(PI_2, 0, -PI_4), false),
            _ => (Rotation::EulerZyx(PI_2, 0, -PI_4_3), false),
        };
        Patch::Edge { rotation, swap }
    }

    /// The triangles of a strip: two, over its four corners.
    pub fn indices() -> (indices: Vec<u32>)
        ensures
            indices@ == seq![0u32, 1u32, 2u32, 2u32, 3u32, 0u32],
    {
        vec![0, 1, 2, 2, 3, 0]
    }
}

impl ViewcubeCorner {
    /// The triangle of this corner: how it is turned, and the corner of the
    /// cube towards which it is moved, which is the corner it stands for.
    pub fn patch(self) -> (patch: Patch)
        requires
            self.0.spec_kind() == PartKind::Corner,
        ensures
            patch == (Patch::Corner {
                rotation: patch_rotation(self.0),
                center: self.0.spec_direction(),
            }),
    {
        let d: i32 = 1;
        let (rotation, center) = match self.0 {
            CubePart::FrontLeftTop => (
                Rotation::EulerYxz(-PI_4, PI_4, 0),
                IVec3 { x: -d, y: d, z: d },
            ),
            CubePart::FrontLeftBottom => (
                Rotation::EulerYxz(PI_4_3, -PI_4_3, 0),
                IVec3 { x: -d, y: -d, z: d },
            ),
            CubePart::FrontRightTop => (
                Rotation::EulerYxz(PI_4, PI_4, 0),
                IVec3 { x: d, y: d, z: d },
            ),
            CubePart::FrontRightBottom => (
                Rotation::EulerYxz(-PI_4_3, -PI_4_3, 0),
                IVec3 { x: d, y: -d, z: d },
            ),
            CubePart::BackLeftTop => (
                Rotation::EulerYxz(-PI_4_3, PI_4, 0),
                IVec3 { x: -d, y: d, z: -d },
            ),
            CubePart::BackLeftBottom => (
                Rotation::EulerYxz(PI_4, -PI_4_3, 0),
                IVec3 { x: -d, y: -d, z: -d },
            ),
            CubePart::BackRightTop => (
                Rotation::EulerYxz(PI_4_3, PI_4, 0),
                IVec3 { x: d, y: d, z: -d },
            ),
            _ => (Rotation::EulerYxz(-PI_4, -PI_4_3, 0), IVec3 { x: d, y: -d, z: -d }),
        };
        Patch::Corner { rotation, center }
    }

    /// The one triangle of a corner, over its three corners.
    pub fn indices() -> (indices: Vec<u32>)
        ensures
            indices@ == seq![0u32, 1u32, 2u32],
    {
        vec![0, 1, 2]
    }
}

/// What is spawned for an edge of the cube.
fn edge(part: CubePart) -> (spawn: PatchSpawn)
    requires
        part.spec_kind() == PartKind::Edge,
    ensures
        spawn == spawn_of(part, FACE_SIZE),
{
    PatchSpawn { part, color: PatchColor::Pink, patch: ViewcubeEdge(part).patch() }
}

/// What is spawned for a corner of the cube.
fn corner(part: CubePart) -> (spawn: PatchSpawn)
    requires
        part.spec_kind() == PartKind::Corner,
    ensures
        spawn == spawn_of(part, FACE_SIZE),
{
    PatchSpawn { part, color: PatchColor::Violet, patch: ViewcubeCorner(part).patch() }
}

/// The patches of the full cube: the six faces, then the twelve edges, then
/// the eight corners, each part of the cube once.
pub fn setup() -> (patches: Vec<PatchSpawn>)
    ensures
        patches@ == spawns(26, FACE_SIZE),
{
    let mut patches: Vec<PatchSpawn> = Vec::new();
    generate_viewcube_simple_face(FACE_SIZE, &mut patches);
    assert(patches@ =~= spawns(6, FACE_SIZE));
    patches.push(edge(CubePart::FrontTop));
    patches.push(edge(CubePart::FrontBottom));
    patches.push(edge(CubePart::BackTop));
    patches.push(edge(CubePart::BackBottom));
    patches.push(edge(CubePart::LeftTop));
    patches.push(edge(CubePart::LeftBottom));
    patches.push(edge(CubePart::RightTop));
    patches.push(edge(CubePart::RightBottom));
    patches.push(edge(CubePart::FrontLeft));
    patches.push(edge(CubePart::FrontRight));
    patches.push(edge(CubePart::BackLeft));
    patches.push(edge(CubePart::BackRight));
    assert(patches@ =~= spawns(18, FACE_SIZE));
    patches.push(corner(CubePart::FrontLeftTop));
    patches.push(corner(CubePart::FrontLeftBottom));
    patches.push(corner(CubePart::FrontRightTop));
    patches.push(corner(CubePart::FrontRightBottom));
    patches.push(corner(CubePart::BackLeftTop));
    patches.push(corner(CubePart::BackLeftBottom));
    patches.push(corner(CubePart::BackRightTop));
    patches.push(corner(CubePart::BackRightBottom));
    assert(patches@ =~= spawns(26, FACE_SIZE));
    patches
}

} // verus!
