use bevy_viewcube::prelude::{BevyTridentAxis, BevyViewCubePlugin};
use bevy_viewcube::viewcube::powerful_viewcube::{ViewcubeCorner, ViewcubeEdge};
use bevy_viewcube::viewcube::{
    powerful_viewcube, simple_viewcube, viewcube_hit, CameraOrientationTarget, CubePart, IVec3,
    PartKind, Patch, PatchColor, PatchSpawn, Rotation,
};
use bevy_viewcube::{PI, PI_2, PI_4, PI_4_3};

const ALL_PARTS: [CubePart; 26] = [
    CubePart::Front,
    CubePart::Back,
    CubePart::Left,
    CubePart::Right,
    CubePart::Top,
    CubePart::Bottom,
    CubePart::FrontTop,
    CubePart::FrontBottom,
    CubePart::BackTop,
    CubePart::BackBottom,
    CubePart::LeftTop,
    CubePart::LeftBottom,
    CubePart::RightTop,
    CubePart::RightBottom,
    CubePart::FrontLeft,
    CubePart::FrontRight,
    CubePart::BackLeft,
    CubePart::BackRight,
    CubePart::FrontLeftTop,
    CubePart::FrontLeftBottom,
    CubePart::FrontRightTop,
    CubePart::FrontRightBottom,
    CubePart::BackLeftTop,
    CubePart::BackLeftBottom,
    CubePart::BackRightTop,
    CubePart::BackRightBottom,
];

#[test]
fn prelude_names_the_main_types() {
    let plugin = BevyViewCubePlugin::default();
    assert!(!plugin.use_powerful_viewcube);
    let trident = BevyTridentAxis::default();
    assert_eq!(trident.axises.len(), 3);
}

#[test]
fn angle_steps_are_quarters_of_pi() {
    assert_eq!((PI_4, PI_2, PI_4_3, PI), (1, 2, 3, 4));
    let step = std::f32::consts::PI / 4.0;
    assert_eq!(PI_4 as f32 * step, std::f32::consts::PI / 4.0);
    assert_eq!(PI_2 as f32 * step, std::f32::consts::PI / 2.0);
    assert_eq!(PI_4_3 as f32 * step, std::f32::consts::PI / 4.0 * 3.0);
    assert_eq!(PI as f32 * step, std::f32::consts::PI);
    assert_eq!(-PI_4_3 as f32 * step, -(std::f32::consts::PI / 4.0 * 3.0));
}

#[test]
fn orientation_spot_checks() {
    assert_eq!(CubePart::Front.orientation(), (0, 0));
    assert_eq!(CubePart::Back.orientation(), (PI, 0));
    assert_eq!(CubePart::Right.orientation(), (PI_2, 0));
    assert_eq!(CubePart::FrontLeftTop.orientation(), (-PI_4, PI_4));
    assert_eq!(CubePart::BackRightBottom.orientation(), (PI_4_3, -PI_4));
}

#[test]
fn orientation_of_every_part() {
    let expected: [(i8, i8); 26] = [
        (0, 0),
        (4, 0),
        (-2, 0),
        (2, 0),
        (0, 2),
        (0, -2),
        (0, 1),
        (0, -1),
        (4, 1),
        (4, -1),
        (-2, 1),
        (-2, -1),
        (2, 1),
        (2, -1),
        (-1, 0),
        (1, 0),
        (-3, 0),
        (3, 0),
        (-1, 1),
        (-1, -1),
        (1, 1),
        (1, -1),
        (-3, 1),
        (-3, -1),
        (3, 1),
        (3, -1),
    ];
    for (part, angles) in ALL_PARTS.iter().zip(expected.iter()) {
        assert_eq!(part.orientation(), *angles);
    }
}

#[test]
fn orientation_is_the_same_each_time_and_differs_between_parts() {
    for (i, a) in ALL_PARTS.iter().enumerate() {
        assert_eq!(a.orientation(), a.orientation());
        for (j, b) in ALL_PARTS.iter().enumerate() {
            assert_eq!(i == j, a.orientation() == b.orientation());
        }
    }
}

#[test]
fn direction_and_kind_of_parts() {
    assert_eq!(CubePart::Right.direction(), IVec3 { x: 1, y: 0, z: 0 });
    assert_eq!(CubePart::Bottom.direction(), IVec3 { x: 0, y: -1, z: 0 });
    assert_eq!(CubePart::BackLeft.direction(), IVec3 { x: -1, y: 0, z: -1 });
    assert_eq!(CubePart::FrontRightTop.direction(), IVec3 { x: 1, y: 1, z: 1 });
    for part in ALL_PARTS.iter() {
        let d = part.direction();
        let touched = d.x.abs() + d.y.abs() + d.z.abs();
        let kind = match touched {
            1 => PartKind::Face,
            2 => PartKind::Edge,
            _ => PartKind::Corner,
        };
        assert_eq!(part.kind(), kind);
    }
    let faces = ALL_PARTS.iter().filter(|p| p.kind() == PartKind::Face).count();
    let edges = ALL_PARTS.iter().filter(|p| p.kind() == PartKind::Edge).count();
    let corners = ALL_PARTS.iter().filter(|p| p.kind() == PartKind::Corner).count();
    assert_eq!((faces, edges, corners), (6, 12, 8));
}

#[test]
fn click_on_top_sets_the_camera_target() {
    let mut pending = vec![CubePart::Top];
    let target = viewcube_hit(&mut pending);
    assert_eq!(
        target,
        Some(CameraOrientationTarget {
            target_alpha: 0,
            target_beta: PI_2,
            target_focus: IVec3 { x: 0, y: 0, z: 0 },
        })
    );
    assert!(pending.is_empty());
}

#[test]
fn no_click_sets_nothing() {
    let mut pending: Vec<CubePart> = Vec::new();
    assert_eq!(viewcube_hit(&mut pending), None);
    assert!(pending.is_empty());
}

#[test]
fn only_the_first_click_of_a_tick_counts() {
    let mut pending = vec![CubePart::BackLeft, CubePart::Top, CubePart::Front];
    let target = viewcube_hit(&mut pending).unwrap();
    assert_eq!((target.target_alpha, target.target_beta), (-PI_4_3, 0));
    assert!(pending.is_empty());
    assert_eq!(viewcube_hit(&mut pending), None);
}

#[test]
fn simple_cube_is_six_large_faces() {
    let patches = BevyViewCubePlugin { use_powerful_viewcube: false }.build();
    assert_eq!(patches, simple_viewcube::setup());
    let face = |part, color, rotation, x, y, z| PatchSpawn {
        part,
        color,
        patch: Patch::Face { size_tenths: 8, rotation, offset: IVec3 { x, y, z } },
    };
    let expected = vec![
        face(CubePart::Right, PatchColor::Red, Rotation::Z(-2), 1, 0, 0),
        face(CubePart::Left, PatchColor::Red, Rotation::Z(2), -1, 0, 0),
        face(CubePart::Top, PatchColor::Green, Rotation::X(0), 0, 1, 0),
        face(CubePart::Bottom, PatchColor::Green, Rotation::X(4), 0, -1, 0),
        face(CubePart::Front, PatchColor::Blue, Rotation::X(2), 0, 0, 1),
        face(CubePart::Back, PatchColor::Blue, Rotation::X(-2), 0, 0, -1),
    ];
    assert_eq!(patches, expected);
}

#[test]
fn faces_are_added_behind_what_is_there() {
    let mut patches = simple_viewcube::setup();
    simple_viewcube::generate_viewcube_simple_face(3, &mut patches);
    assert_eq!(patches.len(), 12);
    assert_eq!(patches[0].part, CubePart::Right);
    assert_eq!(patches[6].part, CubePart::Right);
    match patches[6].patch {
        Patch::Face { size_tenths, .. } => assert_eq!(size_tenths, 3),
        _ => panic!("a face is expected"),
    }
}

#[test]
fn powerful_cube_has_every_part_once() {
    let patches = BevyViewCubePlugin { use_powerful_viewcube: true }.build();
    assert_eq!(patches, powerful_viewcube::setup());
    assert_eq!(patches.len(), 26);
    for part in ALL_PARTS.iter() {
        assert_eq!(patches.iter().filter(|p| p.part == *part).count(), 1);
    }
    for (i, spawn) in patches.iter().enumerate() {
        let kind = if i < 6 {
            PartKind::Face
        } else if i < 18 {
            PartKind::Edge
        } else {
            PartKind::Corner
        };
        assert_eq!(spawn.part.kind(), kind);
        match spawn.patch {
            Patch::Face { size_tenths, offset, .. } => {
                assert_eq!(kind, PartKind::Face);
                assert_eq!(size_tenths, 6);
                assert_eq!(offset, spawn.part.direction());
            }
            Patch::Edge { swap, .. } => {
                assert_eq!(kind, PartKind::Edge);
                assert_eq!(swap, spawn.part.direction().z == 0);
                assert_eq!(spawn.color, PatchColor::Pink);
            }
            Patch::Corner { center, .. } => {
                assert_eq!(kind, PartKind::Corner);
                assert_eq!(center, spawn.part.direction());
                assert_eq!(spawn.color, PatchColor::Violet);
            }
        }
    }
}

#[test]
fn edge_patches() {
    let edge = |part: CubePart| ViewcubeEdge(part).patch();
    assert_eq!(edge(CubePart::FrontTop), Patch::Edge { rotation: Rotation::X(1), swap: false });
    assert_eq!(edge(CubePart::FrontBottom), Patch::Edge { rotation: Rotation::X(3), swap: false });
    assert_eq!(edge(CubePart::BackTop), Patch::Edge { rotation: Rotation::X(-1), swap: false });
    assert_eq!(edge(CubePart::BackBottom), Patch::Edge { rotation: Rotation::X(-3), swap: false });
    assert_eq!(edge(CubePart::LeftTop), Patch::Edge { rotation: Rotation::Z(1), swap: true });
    assert_eq!(edge(CubePart::LeftBottom), Patch::Edge { rotation: Rotation::Z(3), swap: true });
    assert_eq!(edge(CubePart::RightTop), Patch::Edge { rotation: Rotation::Z(-1), swap: true });
    assert_eq!(edge(CubePart::RightBottom), Patch::Edge { rotation: Rotation::Z(-3), swap: true });
    assert_eq!(
        edge(CubePart::FrontLeft),
        Patch::Edge { rotation: Rotation::EulerZyx(2, 0, 1), swap: false }
    );
    assert_eq!(
        edge(CubePart::FrontRight),
        Patch::Edge { rotation: Rotation::EulerZyx(2, 0, 3), swap: false }
    );
    assert_eq!(
        edge(CubePart::BackLeft),
        Patch::Edge { rotation: Rotation::EulerZyx(2, 0, -1), swap: false }
    );
    assert_eq!(
        edge(CubePart::BackRight),
        Patch::Edge { rotation: Rotation::EulerZyx(2, 0, -3), swap: false }
    );
    assert_eq!(ViewcubeEdge::indices(), vec![0, 1, 2, 2, 3, 0]);
}

#[test]
fn corner_patches() {
    let corner = |part: CubePart| ViewcubeCorner(part).patch();
    let expect = |a: i8, b: i8, x: i32, y: i32, z: i32| Patch::Corner {
        rotation: Rotation::EulerYxz(a, b, 0),
        center: IVec3 { x, y, z },
    };
    assert_eq!(corner(CubePart::FrontLeftTop), expect(-1, 1, -1, 1, 1));
    assert_eq!(corner(CubePart::FrontLeftBottom), expect(3, -3, -1, -1, 1));
    assert_eq!(corner(CubePart::FrontRightTop), expect(1, 1, 1, 1, 1));
    assert_eq!(corner(CubePart::FrontRightBottom), expect(-3, -3, 1, -1, 1));
    assert_eq!(corner(CubePart::BackLeftTop), expect(-3, 1, -1, 1, -1));
    assert_eq!(corner(CubePart::BackLeftBottom), expect(1, -3, -1, -1, -1));
    assert_eq!(corner(CubePart::BackRightTop), expect(3, 1, 1, 1, -1));
    assert_eq!(corner(CubePart::BackRightBottom), expect(-1, -3, 1, -1, -1));
    assert_eq!(ViewcubeCorner::indices(), vec![0, 1, 2]);
}
