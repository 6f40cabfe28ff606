//! The view cube: its 26 parts, the camera orientation that a click on each
//! part asks for, and the small viewport in which the cube is shown.

use vstd::prelude::*;

pub mod powerful_viewcube;
pub mod simple_viewcube;

use crate::{PI, PI_2, PI_4, PI_4_3};

verus! {

/// One part of the view cube: a face, an edge between two faces, or a corner
/// between three.
///
/// Right and Left lie on the X axis, Top and Bottom on Y, Front and Back on Z,
/// the first of each pair on the positive side.
#[derive(Debug, Clone, Copy, PartialEq, Eq, Structural)]
pub enum CubePart {
    // Face
    Front,
    Back,
    Left,
    Right,
    Top,
    Bottom,
    // Edge
    FrontTop,
    FrontBottom,
    BackTop,
    BackBottom,
    LeftTop,
    LeftBottom,
    RightTop,
    RightBottom,
    FrontLeft,
    FrontRight,
    BackLeft,
    BackRight,
    // Corner
    FrontLeftTop,
    FrontLeftBottom,
    FrontRightTop,
    FrontRightBottom,
    BackLeftTop,
    BackLeftBottom,
    BackRightTop,
    BackRightBottom,
}

/// What kind of part of the cube a part is.
#[derive(Debug, Clone, Copy, PartialEq, Eq, Structural)]
pub enum PartKind {
    Face,
    Edge,
    Corner,
}

impl CubePart {
    /// The side of the cube's center on which the part lies, along X: 1 for
    /// a part that touches the right face, -1 for the left, 0 for neither.
    pub open spec fn x(self) -> int {
        match self {
            CubePart::Right | CubePart::RightTop | CubePart::RightBottom | CubePart::FrontRight
            | CubePart::BackRight | CubePart::FrontRightTop | CubePart::FrontRightBottom
            | CubePart::BackRightTop | CubePart::BackRightBottom => 1,
            CubePart::Left | CubePart::LeftTop | CubePart::LeftBottom | CubePart::FrontLeft
            | CubePart::BackLeft | CubePart::FrontLeftTop | CubePart::FrontLeftBottom
            | CubePart::BackLeftTop | CubePart::BackLeftBottom => -1,
            _ => 0,
        }
    }

    /// The side of the cube's center on which the part lies, along Y: 1 for
    /// a part that touches the top face, -1 for the bottom, 0 for neither.
    pub open spec fn y(self) -> int {
        match self {
            CubePart::Top | CubePart::FrontTop | CubePart::BackTop | CubePart::LeftTop
            | CubePart::RightTop | CubePart::FrontLeftTop | CubePart::FrontRightTop
            | CubePart::BackLeftTop | CubePart::BackRightTop => 1,
            CubePart::Bottom | CubePart::FrontBottom | CubePart::BackBottom
            | CubePart::LeftBottom | CubePart::RightBottom | CubePart::FrontLeftBottom
            | CubePart::FrontRightBottom | CubePart::BackLeftBottom
            | CubePart::BackRightBottom => -1,
            _ => 0,
        }
    }

    /// The side of the cube's center on which the part lies, along Z: 1 for
    /// a part that touches the front face, -1 for the back, 0 for neither.
    pub open spec fn z(self) -> int {
        match self {
            CubePart::Front | CubePart::FrontTop | CubePart::FrontBottom | CubePart::FrontLeft
            | CubePart::FrontRight | CubePart::FrontLeftTop | CubePart::FrontLeftBottom
            | CubePart::FrontRightTop | CubePart::FrontRightBottom => 1,
            CubePart::Back | CubePart::BackTop | CubePart::BackBottom | CubePart::BackLeft
            | CubePart::BackRight | CubePart::BackLeftTop | CubePart::BackLeftBottom
            | CubePart::BackRightTop | CubePart::BackRightBottom => -1,
            _ => 0,
        }
    }

    /// The number of faces that the part touches.
    pub open spec fn faces_touched(self) -> int {
        (if self.x() != 0 { 1int } else { 0int })
            + (if self.y() != 0 { 1int } else { 0int })
            + (if self.z() != 0 { 1int } else { 0int })
    }

    /// The kind of the part: a face touches one face of the cube, an edge
    /// lies between two and a corner between three.
    pub open spec fn spec_kind(self) -> PartKind {
        if self.faces_touched() == 1 {
            PartKind::Face
        } else if self.faces_touched() == 2 {
            PartKind::Edge
        } else {
            PartKind::Corner
        }
    }

    /// The direction from the cube's center to the part, one sign for each
    /// of X, Y and Z.
    pub open spec fn spec_direction(self) -> IVec3 {
        IVec3 { x: self.x() as i32, y: self.y() as i32, z: self.z() as i32 }
    }

    /// The direction from the cube's center to the part, one sign for each
    /// of X, Y and Z.
    pub fn direction(self) -> (signs: IVec3)
        ensures
            signs == self.spec_direction(),
            signs.x == self.x(),
            signs.y == self.y(),
            signs.z == self.z(),
    {
        let (x, y, z): (i32, i32, i32) = match self {
            CubePart::Front => (0, 0, 1),
            CubePart::Back => (0, 0, -1),
            CubePart::Left => (-1, 0, 0),
            CubePart::Right => (1, 0, 0),
            CubePart::Top => (0, 1, 0),
            CubePart::Bottom => (0, -1, 0),
            CubePart::FrontTop => (0, 1, 1),
            CubePart::FrontBottom => (0, -1, 1),
            CubePart::BackTop => (0, 1, -1),
            CubePart::BackBottom => (0, -1, -1),
            CubePart::LeftTop => (-1, 1, 0),
            CubePart::LeftBottom => (-1, -1, 0),
            CubePart::RightTop => (1, 1, 0),
            CubePart::RightBottom => (1, -1, 0),
            CubePart::FrontLeft => (-1, 0, 1),
            CubePart::FrontRight => (1, 0, 1),
            CubePart::BackLeft => (-1, 0, -1),
            CubePart::BackRight => (1, 0, -1),
            CubePart::FrontLeftTop => (-1, 1, 1),
            CubePart::FrontLeftBottom => (-1, -1, 1),
            CubePart::FrontRightTop => (1, 1, 1),
            CubePart::FrontRightBottom => (1, -1, 1),
            CubePart::BackLeftTop => (-1, 1, -1),
            CubePart::BackLeftBottom => (-1, -1, -1),
            CubePart::BackRightTop => (1, 1, -1),
            CubePart::BackRightBottom => (1, -1, -1),
        };
        IVec3 { x, y, z }
    }

    /// The kind of the part.
    pub fn kind(self) -> (kind: PartKind)
        ensures
            kind == self.spec_kind(),
    {
        match self {
            CubePart::Front | CubePart::Back | CubePart::Left | CubePart::Right | CubePart::Top
            | CubePart::Bottom => PartKind::Face,
            CubePart::FrontTop | CubePart::FrontBottom | CubePart::BackTop | CubePart::BackBottom
            | CubePart::LeftTop | CubePart::LeftBottom | CubePart::RightTop
            | CubePart::RightBottom | CubePart::FrontLeft | CubePart::FrontRight
            | CubePart::BackLeft | CubePart::BackRight => PartKind::Edge,
            _ => PartKind::Corner,
        }
    }

    /// The azimuth and the elevation, in steps of a quarter of pi, of the
    /// camera that looks straight at the part: the azimuth is the angle of
    /// the part's direction in the ground plane, from the front towards the
    /// right, and the elevation is the angle by which it rises from there.
    pub open spec fn spec_orientation(self) -> (int, int) {
        (angle_of(self.x(), self.z()), elevation_of(self.x(), self.y(), self.z()))
    }

    /// The azimuth and the elevation, in steps of a quarter of pi, of the
    /// camera that looks straight at the part. Every part has its own entry;
    /// none falls back on another's.
    pub fn orientation(self) -> (angles: (i8, i8))
        ensures
            angles.0 == self.spec_orientation().0,
            angles.1 == self.spec_orientation().1,
    {
        match self {
            CubePart::Right => (PI_2, 0),
            CubePart::Left => (-PI_2, 0),
            CubePart::Top => (0, PI_2),
            CubePart::Bottom => (0, -PI_2),
            CubePart::Front => (0, 0),
            CubePart::Back => (PI, 0),
            CubePart::FrontTop => (0, PI_4),
            CubePart::FrontBottom => (0, -PI_4),
            CubePart::BackTop => (PI, PI_4),
            CubePart::BackBottom => (PI, -PI_4),
            CubePart::LeftTop => (-PI_2, PI_4),
            CubePart::LeftBottom => (-PI_2, -PI_4),
            CubePart::RightTop => (PI_2, PI_4),
            CubePart::RightBottom => (PI_2, -PI_4),
            CubePart::FrontLeft => (-PI_4, 0),
            CubePart::FrontRight => (PI_4, 0),
            CubePart::BackLeft => (-PI_4_3, 0),
            CubePart::BackRight => (PI_4_3, 0),
            CubePart::FrontLeftTop => (-PI_4, PI_4),
            CubePart::FrontLeftBottom => (-PI_4, -PI_4),
            CubePart::FrontRightTop => (PI_4, PI_4),
            CubePart::FrontRightBottom => (PI_4, -PI_4),
            CubePart::BackLeftTop => (-PI_4_3, PI_4),
            CubePart::BackLeftBottom => (-PI_4_3, -PI_4),
            CubePart::BackRightTop => (PI_4_3, PI_4),
            CubePart::BackRightBottom => (PI_4_3, -PI_4),
        }
    }
}

/// No part lies at the center of the cube: each touches one face, two or
/// three, and is a corner only where it touches three.
pub proof fn lemma_every_part_touches_a_face(part: CubePart)
    ensures
        1 <= part.faces_touched() <= 3,
        part.spec_kind() == PartKind::Corner <==> part.faces_touched() == 3,
{
}

/// The angle, in steps of a quarter of pi, from the direction `(0, 1)` to the
/// direction `(a, b)`, counted towards `(1, 0)`: what `atan2(a, b)` is for
/// real numbers. Each of `a` and `b` is -1, 0 or 1. The angle lies above
/// minus pi and reaches pi; the direction with both 0 has no angle and
/// counts as `(0, 1)`.
pub open spec fn angle_of(a: int, b: int) -> int {
    if b > 0 {
        a
    } else if b == 0 {
        2 * a
    } else if a < 0 {
        -3
    } else if a == 0 {
        4
    } else {
        3
    }
}

/// The direction that lies at `angle` steps of a quarter of pi from
/// `(0, 1)`, counted towards `(1, 0)`, with each entry cut to -1, 0 or 1:
/// the signs of the sine and the cosine of the angle.
pub open spec fn heading(angle: int) -> (int, int) {
    (
        if 0 < angle < 4 {
            1
        } else if -4 < angle < 0 {
            -1
        } else {
            0
        },
        if -2 < angle < 2 {
            1
        } else if angle < -2 || angle > 2 {
            -1
        } else {
            0
        },
    )
}

/// The angle, in steps of a quarter of pi, by which the direction `(x, y, z)`
/// rises above the ground plane: straight up or down where it leaves the
/// vertical axis nowhere, and half of that where it leans.
pub open spec fn elevation_of(x: int, y: int, z: int) -> int {
    if x == 0 && z == 0 {
        2 * y
    } else {
        y
    }
}

/// The camera looks at a part from where the part lies: the signs of its
/// azimuth are those of the part's place in the ground plane, and its
/// elevation has the sign of the part's height. Both stay in their ranges.
pub proof fn lemma_orientation_follows_direction(part: CubePart)
    ensures
        -PI < part.spec_orientation().0 <= PI,
        -PI_2 <= part.spec_orientation().1 <= PI_2,
        part.x() != 0 || part.z() != 0 ==> heading(part.spec_orientation().0) == (
            part.x(),
            part.z(),
        ),
        part.spec_orientation().1 > 0 <==> part.y() > 0,
        part.spec_orientation().1 < 0 <==> part.y() < 0,
{
}

/// A point of space with whole coordinates.
#[derive(Debug, Clone, Copy, PartialEq, Eq, Structural)]
pub struct IVec3 {
    pub x: i32,
    pub y: i32,
    pub z: i32,
}

/// A place or an extent on the screen, in whole pixels.
#[derive(Debug, Clone, Copy, PartialEq, Eq, Structural)]
pub struct UVec2 {
    pub x: u32,
    pub y: u32,
}

/// Where the orbit camera is asked to go: an azimuth and an elevation, in
/// steps of a quarter of pi, and the point to look at.
#[derive(Debug, Clone, Copy, PartialEq, Eq, Structural)]
pub struct CameraOrientationTarget {
    pub target_alpha: i8,
    pub target_beta: i8,
    pub target_focus: IVec3,
}

/// The target that a click on `part` sets: the part's orientation, looking
/// at the origin.
pub open spec fn target_of(part: CubePart) -> CameraOrientationTarget {
    CameraOrientationTarget {
        target_alpha: part.spec_orientation().0 as i8,
        target_beta: part.spec_orientation().1 as i8,
        target_focus: IVec3 { x: 0, y: 0, z: 0 },
    }
}

/// Handles the clicks of one tick. The earliest pending click, if there is
/// one, sets the camera's target; every other click of the tick is dropped,
/// and none is left for a later tick.
pub fn viewcube_hit(pending: &mut Vec<CubePart>) -> (target: Option<CameraOrientationTarget>)
    ensures
        final(pending)@.len() == 0,
        old(pending)@.len() == 0 ==> target is None,
        old(pending)@.len() > 0 ==> target == Some(target_of(old(pending)@[0])),
{
    if pending.len() == 0 {
        return None;
    }
    let part = pending[0];
    pending.clear();
    let (alpha, beta) = part.orientation();
    Some(
        CameraOrientationTarget {
            target_alpha: alpha,
            target_beta: beta,
            target_focus: IVec3 { x: 0, y: 0, z: 0 },
        },
    )
}

/// The small views that are drawn over a corner of the window.
#[derive(Debug, Clone, Copy, PartialEq, Eq, Structural)]
pub enum SmallView {
    /// The small view of the trident alone.
    Trident,
    /// The small view of the view cube.
    Viewcube,
}

impl SmallView {
    /// How far down the window the view begins, in percent of the height.
    pub open spec fn top_percent(self) -> int {
        match self {
            SmallView::Trident => 90,
            SmallView::Viewcube => 60,
        }
    }

    /// The width of the view, in percent of the window's.
    pub open spec fn width_percent(self) -> int {
        match self {
            SmallView::Trident => 10,
            SmallView::Viewcube => 30,
        }
    }

    /// The height of the view, in percent of the window's.
    pub open spec fn height_percent(self) -> int {
        match self {
            SmallView::Trident => 10,
            SmallView::Viewcube => 40,
        }
    }
}

/// A rectangle of the window, in physical pixels.
#[derive(Debug, Clone, Copy, PartialEq, Eq, Structural)]
pub struct Viewport {
    pub physical_position: UVec2,
    pub physical_size: UVec2,
}

/// So many percent of a length in pixels, rounded down to a whole pixel.
pub open spec fn percent_of(length: int, percent: int) -> int {
    length * percent / 100
}

/// The rectangle of `view` in a window of the given size.
pub open spec fn viewport_of(view: SmallView, width: int, height: int) -> Viewport {
    Viewport {
        physical_position: UVec2 { x: 0, y: percent_of(height, view.top_percent()) as u32 },
        physical_size: UVec2 {
            x: percent_of(width, view.width_percent()) as u32,
            y: percent_of(height, view.height_percent()) as u32,
        },
    }
}

/// `percent` percent of `length`, rounded down.
fn scale(length: u32, percent: u64) -> (scaled: u32)
    requires
        percent <= 100,
    ensures
        scaled == percent_of(length as int, percent as int),
{
    assert(0 <= length * percent <= length * 100) by (nonlinear_arith)
        requires
            0 <= length,
            0 <= percent <= 100,
    ;
    let wide: u64 = length as u64 * percent / 100;
    wide as u32
}

/// The rectangle in which `view` is drawn, for a window of `width` by
/// `height` physical pixels: at the left edge, a fixed share of the height
/// down, and a fixed share of the window wide and high.
pub fn update_view(view: SmallView, width: u32, height: u32) -> (viewport: Viewport)
    ensures
        viewport == viewport_of(view, width as int, height as int),
        viewport.physical_position.x == 0,
        viewport.physical_position.y == percent_of(height as int, view.top_percent()),
        viewport.physical_size.x == percent_of(width as int, view.width_percent()),
        viewport.physical_size.y == percent_of(height as int, view.height_percent()),
        viewport.physical_position.y + viewport.physical_size.y <= height,
        viewport.physical_size.x <= width,
{
    match view {
        SmallView::Trident => Viewport {
            physical_position: UVec2 { x: 0, y: scale(height, 90) },
            physical_size: UVec2 { x: scale(width, 10), y: scale(height, 10) },
        },
        SmallView::Viewcube => Viewport {
            physical_position: UVec2 { x: 0, y: scale(height, 60) },
            physical_size: UVec2 { x: scale(width, 30), y: scale(height, 40) },
        },
    }
}

/// What doubling a length does to a share of it that is cut to whole
/// pixels: the share doubles, and gains the one pixel that two cut-off
/// halves make where the part cut off was half a pixel or more.
pub open spec fn doubled_share(length: int, percent: int) -> int {
    2 * percent_of(length, percent) + if (length * percent) % 100 >= 50 {
        1int
    } else {
        0int
    }
}

/// The viewport grows in proportion to the window: a window twice as wide
/// gets a view twice as wide, to the pixel where less than half a pixel of
/// the narrower view's width was cut off and with one pixel more where half
/// a pixel or more was; the view stays at the left edge and keeps its
/// height and its place down the window.
pub proof fn lemma_viewport_scales_with_width(view: SmallView, width: int, height: int)
    requires
        0 <= width,
        2 * width <= u32::MAX,
        0 <= height <= u32::MAX,
    ensures
        viewport_of(view, 2 * width, height).physical_position.x == 2 * viewport_of(
            view,
            width,
            height,
        ).physical_position.x,
        viewport_of(view, 2 * width, height).physical_size.x == doubled_share(
            width,
            view.width_percent(),
        ),
        (width * view.width_percent()) % 100 < 50 ==> viewport_of(
            view,
            2 * width,
            height,
        ).physical_size.x == 2 * viewport_of(view, width, height).physical_size.x,
        (width * view.width_percent()) % 100 >= 50 ==> viewport_of(
            view,
            2 * width,
            height,
        ).physical_size.x == 2 * viewport_of(view, width, height).physical_size.x + 1,
        viewport_of(view, 2 * width, height).physical_position.y == viewport_of(
            view,
            width,
            height,
        ).physical_position.y,
        viewport_of(view, 2 * width, height).physical_size.y == viewport_of(
            view,
            width,
            height,
        ).physical_size.y,
{
}

/// The viewport grows in proportion to the window downwards too: in a
/// window twice as high the view begins twice as far down and is twice as
/// high, each to the pixel or with the one pixel more that rounding gives,
/// and it is no wider.
pub proof fn lemma_viewport_scales_with_height(view: SmallView, width: int, height: int)
    requires
        0 <= width <= u32::MAX,
        0 <= height,
        2 * height <= u32::MAX,
    ensures
        viewport_of(view, width, 2 * height).physical_position.y == doubled_share(
            height,
            view.top_percent(),
        ),
        viewport_of(view, width, 2 * height).physical_size.y == doubled_share(
            height,
            view.height_percent(),
        ),
        (height * view.top_percent()) % 100 < 50 ==> viewport_of(
            view,
            width,
            2 * height,
        ).physical_position.y == 2 * viewport_of(view, width, height).physical_position.y,
        (height * view.height_percent()) % 100 < 50 ==> viewport_of(
            view,
            width,
            2 * height,
        ).physical_size.y == 2 * viewport_of(view, width, height).physical_size.y,
        viewport_of(view, width, 2 * height).physical_size.x == viewport_of(
            view,
            width,
            height,
        ).physical_size.x,
        viewport_of(view, width, 2 * height).physical_position.x == 0,
{
}

/// A turn of a patch about the cube's center, its angles in steps of a
/// quarter of pi.
#[derive(Debug, Clone, Copy, PartialEq, Eq, Structural)]
pub enum Rotation {
    /// A turn about the X axis.
    X(i8),
    /// A turn about the Z axis.
    Z(i8),
    /// Three turns given as Euler angles in the order Z, Y, X.
    EulerZyx(i8, i8, i8),
    /// Three turns given as Euler angles in the order Y, X, Z.
    EulerYxz(i8, i8, i8),
}

/// The colors in which the patches of the cube are drawn.
#[derive(Debug, Clone, Copy, PartialEq, Eq, Structural)]
pub enum PatchColor {
    Red,
    Green,
    Blue,
    Pink,
    Violet,
}

/// The surface that stands for one part of the cube, and where it is put.
#[derive(Debug, Clone, Copy, PartialEq, Eq, Structural)]
pub enum Patch {
    /// A square plane, `size_tenths` tenths of a unit on a side, turned by
    /// `rotation` and moved from the center along `offset` as far as the
    /// face of the cube.
    Face { size_tenths: u8, rotation: Rotation, offset: IVec3 },
    /// A strip along an edge of the cube, turned by `rotation`. Its long
    /// side runs along the patch's own X axis, or along its Z axis where
    /// `swap` is set.
    Edge { rotation: Rotation, swap: bool },
    /// A triangle that cuts a corner of the cube off, turned by `rotation`
    /// and moved from the center towards the corner `center`.
    Corner { rotation: Rotation, center: IVec3 },
}

/// All that is needed to put one part of the cube into a scene: its surface,
/// its color, and the part that a click on it reports.
#[derive(Debug, Clone, Copy, PartialEq, Eq, Structural)]
pub struct PatchSpawn {
    pub part: CubePart,
    pub color: PatchColor,
    pub patch: Patch,
}

/// The color of a part: a face has the color of its axis (red for X, green
/// for Y, blue for Z), every edge is pink and every corner violet.
pub open spec fn part_color(part: CubePart) -> PatchColor {
    match part.spec_kind() {
        PartKind::Face => if part.x() != 0 {
            PatchColor::Red
        } else if part.y() != 0 {
            PatchColor::Green
        } else {
            PatchColor::Blue
        },
        PartKind::Edge => PatchColor::Pink,
        PartKind::Corner => PatchColor::Violet,
    }
}

/// The turn that carries a patch, made at the center and facing up (along
/// positive Y), to face out of the cube at its part.
///
/// A part on the plane `x = 0` is turned about X, by the angle from up
/// towards the front; one on the plane `z = 0` about Z, by the angle from up
/// towards the left. An upright edge is laid on its side by a quarter turn
/// about Z after a turn about X from the left towards the front. A corner is
/// tipped about X, an eighth of a turn forward at the top and three eighths
/// backward at the bottom, and then turned about Y to its place.
pub open spec fn patch_rotation(part: CubePart) -> Rotation {
    if part.x() == 0 {
        Rotation::X(angle_of(part.z(), part.y()) as i8)
    } else if part.z() == 0 {
        Rotation::Z(angle_of(-part.x(), part.y()) as i8)
    } else if part.y() == 0 {
        Rotation::EulerZyx(PI_2, 0, angle_of(part.z(), -part.x()) as i8)
    } else if part.y() > 0 {
        Rotation::EulerYxz(angle_of(part.x(), part.z()) as i8, PI_4, 0)
    } else {
        Rotation::EulerYxz(angle_of(-part.x(), -part.z()) as i8, (-PI_4_3) as i8, 0)
    }
}

/// The surface of a part, where the faces are `size_tenths` tenths of a unit
/// on a side. A face stands out from the center along its direction and a
/// corner's triangle is moved towards its corner; the long side of an edge's
/// strip is swapped where the edge runs along Z.
pub open spec fn patch_of(part: CubePart, size_tenths: u8) -> Patch {
    match part.spec_kind() {
        PartKind::Face => Patch::Face {
            size_tenths,
            rotation: patch_rotation(part),
            offset: part.spec_direction(),
        },
        PartKind::Edge => Patch::Edge { rotation: patch_rotation(part), swap: part.z() == 0 },
        PartKind::Corner => Patch::Corner {
            rotation: patch_rotation(part),
            center: part.spec_direction(),
        },
    }
}

/// What is spawned for a part, where the faces are `size_tenths` tenths of a
/// unit on a side.
pub open spec fn spawn_of(part: CubePart, size_tenths: u8) -> PatchSpawn {
    PatchSpawn { part, color: part_color(part), patch: patch_of(part, size_tenths) }
}

/// The parts of the cube in the order in which they are spawned: the six
/// faces, the twelve edges, the eight corners.
pub open spec fn spawn_order() -> Seq<CubePart> {
    seq![
        CubePart::Right,
        CubePart::Left,
        CubePart::Top,
        CubePart::Bottom,
        CubePart::Front,
        CubePart::Back,
        CubePart::FrontTop,
        CubePart::FrontBottom,
        CubePart::BackTop,
        CubePart::BackBottom,
        CubePart::LeftTop,
        CubePart::LeftBottom,
        CubePart::RightTop,
        CubePart::RightBottom,
        CubePart::FrontLeft,
        CubePart::FrontRight,
        CubePart::BackLeft,
        CubePart::BackRight,
        CubePart::FrontLeftTop,
        CubePart::FrontLeftBottom,
        CubePart::FrontRightTop,
        CubePart::FrontRightBottom,
        CubePart::BackLeftTop,
        CubePart::BackLeftBottom,
        CubePart::BackRightTop,
        CubePart::BackRightBottom,
    ]
}

/// The first `count` parts of the spawn order, each with what is spawned
/// for it.
pub open spec fn spawns(count: nat, size_tenths: u8) -> Seq<PatchSpawn> {
    Seq::new(count, |i: int| spawn_of(spawn_order()[i], size_tenths))
}

/// The place of a part in the spawn order.
pub open spec fn spawn_position(part: CubePart) -> int {
    match part {
        CubePart::Right => 0,
        CubePart::Left => 1,
        CubePart::Top => 2,
        CubePart::Bottom => 3,
        CubePart::Front => 4,
        CubePart::Back => 5,
        CubePart::FrontTop => 6,
        CubePart::FrontBottom => 7,
        CubePart::BackTop => 8,
        CubePart::BackBottom => 9,
        CubePart::LeftTop => 10,
        CubePart::LeftBottom => 11,
        CubePart::RightTop => 12,
        CubePart::RightBottom => 13,
        CubePart::FrontLeft => 14,
        CubePart::FrontRight => 15,
        CubePart::BackLeft => 16,
        CubePart::BackRight => 17,
        CubePart::FrontLeftTop => 18,
        CubePart::FrontLeftBottom => 19,
        CubePart::FrontRightTop => 20,
        CubePart::FrontRightBottom => 21,
        CubePart::BackLeftTop => 22,
        CubePart::BackLeftBottom => 23,
        CubePart::BackRightTop => 24,
        CubePart::BackRightBottom => 25,
    }
}

/// Every part of the cube is spawned, at its place in the spawn order, and
/// the faces come before the edges, the edges before the corners.
pub proof fn lemma_every_part_is_spawned(part: CubePart)
    ensures
        spawn_order().len() == 26,
        0 <= spawn_position(part) < 26,
        spawn_order()[spawn_position(part)] == part,
        part.spec_kind() == PartKind::Face <==> spawn_position(part) < 6,
        part.spec_kind() == PartKind::Corner <==> spawn_position(part) >= 18,
{
}

/// No part of the cube is spawned twice: each place of the spawn order holds
/// the one part whose place it is.
pub proof fn lemma_no_part_is_spawned_twice(i: int)
    requires
        0 <= i < 26,
    ensures
        spawn_position(spawn_order()[i]) == i,
{
}

/// Chooses which view cube is built: the full one, with faces, edges and
/// corners, or the simple one, with faces alone.
#[derive(Debug, Clone, Copy)]
pub struct BevyViewCubePlugin {
    pub use_powerful_viewcube: bool,
}

impl Default for BevyViewCubePlugin {
    fn default() -> (plugin: Self)
        ensures
            !plugin.use_powerful_viewcube,
    {
        BevyViewCubePlugin { use_powerful_viewcube: false }
    }
}

impl BevyViewCubePlugin {
    /// What the plugin puts into the scene: all 26 parts with smaller faces
    /// for the full cube, or the six faces alone, larger, for the simple one.
    pub fn build(&self) -> (patches: Vec<PatchSpawn>)
        ensures
            self.use_powerful_viewcube ==> patches@ == spawns(26, powerful_viewcube::FACE_SIZE),
            !self.use_powerful_viewcube ==> patches@ == spawns(6, simple_viewcube::FACE_SIZE),
    {
        if self.use_powerful_viewcube {
            powerful_viewcube::setup()
        } else {
            simple_viewcube::setup()
        }
    }
}

} // verus!
