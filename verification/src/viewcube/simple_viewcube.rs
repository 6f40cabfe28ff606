//! The simple view cube: six faces and nothing else.

use vstd::prelude::*;

use crate::viewcube::{spawns, CubePart, IVec3, Patch, PatchColor, PatchSpawn, Rotation};
use crate::{PI, PI_2};

verus! {

/// The side of a face of the simple cube, in tenths of a unit.
pub const FACE_SIZE: u8 = 8;

/// The patches of the simple cube: its six faces.
pub fn setup() -> (patches: Vec<PatchSpawn>)
    ensures
        patches@ == spawns(6, FACE_SIZE),
{
    let mut patches: Vec<PatchSpawn> = Vec::new();
    generate_viewcube_simple_face(FACE_SIZE, &mut patches);
    assert(patches@ =~= spawns(6, FACE_SIZE));
    patches
}

/// Adds the six faces of a cube to `builder`, each a plane `size` tenths of a
/// unit on a side, in the order right, left, top, bottom, front, back.
pub fn generate_viewcube_simple_face(size: u8, builder: &mut Vec<PatchSpawn>)
    ensures
        final(builder)@ == old(builder)@ + spawns(6, size),
{
    // Right (+X)
    builder.push(
        PatchSpawn {
            part: CubePart::Right,
            color: PatchColor::Red,
            patch: Patch::Face {
                size_tenths: size,
                rotation: Rotation::Z(-PI_2),
                offset: IVec3 { x: 1, y: 0, z: 0 },
            },
        },
    );
    // Left (-X)
    builder.push(
        PatchSpawn {
            part: CubePart::Left,
            color: PatchColor::Red,
            patch: Patch::Face {
                size_tenths: size,
                rotation: Rotation::Z(PI_2),
                offset: IVec3 { x: -1, y: 0, z: 0 },
            },
        },
    );
    // Top (+Y)
    builder.push(
        PatchSpawn {
            part: CubePart::Top,
            color: PatchColor::Green,
            patch: Patch::Face {
                size_tenths: size,
                rotation: Rotation::X(0),
                offset: IVec3 { x: 0, y: 1, z: 0 },
            },
        },
    );
    // Bottom (-Y)
    builder.push(
        PatchSpawn {
            part: CubePart::Bottom,
            color: PatchColor::Green,
            patch: Patch::Face {
                size_tenths: size,
                rotation: Rotation::X(PI),
                offset: IVec3 { x: 0, y: -1, z: 0 },
            },
        },
    );
    // Front (+Z)
    builder.push(
        PatchSpawn {
            part: CubePart::Front,
            color: PatchColor::Blue,
            patch: Patch::Face {
                size_tenths: size,
                rotation: Rotation::X(PI_2),
                offset: IVec3 { x: 0, y: 0, z: 1 },
            },
        },
    );
    // Back (-Z)
    builder.push(
        PatchSpawn {
            part: CubePart::Back,
            color: PatchColor::Blue,
            patch: Patch::Face {
                size_tenths: size,
                rotation: Rotation::X(-PI_2),
                offset: IVec3 { x: 0, y: 0, z: -1 },
            },
        },
    );
    proof {
        let n = old(builder)@.len() as int;
        let added = spawns(6, size);
        assert(builder@[n] == added[0]);
        assert(builder@[n + 1] == added[1]);
        assert(builder@[n + 2] == added[2]);
        assert(builder@[n + 3] == added[3]);
        assert(builder@[n + 4] == added[4]);
        assert(builder@[n + 5] == added[5]);
        assert(builder@ =~= old(builder)@ + added);
    }
}

} // verus!
