//! What most programs need: the window's metrics and a quad that fills
//! the screen.
use vstd::prelude::*;

verus! {

/// A pair of unsigned coordinates.
#[derive(Debug, Clone, Copy, PartialEq, Eq, Structural)]
pub struct UVec2 {
    pub x: u32,
    pub y: u32,
}

/// What a program knows of its window: the size of its drawable area, in
/// physical pixels, `x` wide and `y` high.
#[derive(Debug, Clone, Copy, PartialEq, Eq, Structural)]
pub struct App {
    pub size: UVec2,
}

/// A corner of the clip space, whose sides run from -1 to 1.
#[derive(Debug, Clone, Copy, PartialEq, Eq, Structural)]
pub struct Corner {
    pub x: i8,
    pub y: i8,
}

/// The corners of the quad as a sequence: the upper left triangle, then the
/// lower right one, both counter-clockwise.
pub open spec fn spec_full_screen_quad() -> Seq<Corner> {
    seq![
        Corner { x: (-1i8), y: 1 },
        Corner { x: (-1i8), y: (-1i8) },
        Corner { x: 1, y: (-1i8) },
        Corner { x: 1, y: (-1i8) },
        Corner { x: 1, y: 1 },
        Corner { x: (-1i8), y: 1 },
    ]
}

/// The vertices of two triangles that together cover the whole clip space.
pub fn full_screen_quad() -> (quad: [Corner; 6])
    ensures
        quad@ == spec_full_screen_quad(),
{
    let quad = [
        Corner { x: -1, y: 1 },
        Corner { x: -1, y: -1 },
        Corner { x: 1, y: -1 },
        Corner { x: 1, y: -1 },
        Corner { x: 1, y: 1 },
        Corner { x: -1, y: 1 },
    ];
    assert(quad@ =~= spec_full_screen_quad());
    quad
}

/// The quad reaches every corner of the clip space and no point outside
/// it, and its two triangles meet along one diagonal.
pub proof fn lemma_full_screen_quad_covers()
    ensures
        forall|i: int|
            0 <= i < 6 ==> {
                let c = #[trigger] spec_full_screen_quad()[i];
                (c.x == -1i8 || c.x == 1) && (c.y == -1i8 || c.y == 1)
            },
        forall|x: i8, y: i8|
            (x == -1i8 || x == 1) && (y == -1i8 || y == 1) ==> spec_full_screen_quad().contains(
                Corner { x, y },
            ),
        spec_full_screen_quad()[2] == spec_full_screen_quad()[3],
        spec_full_screen_quad()[5] == spec_full_screen_quad()[0],
{
    let q = spec_full_screen_quad();
    assert forall|x: i8, y: i8| (x == -1i8 || x == 1) && (y == -1i8 || y == 1) implies q.contains(
        Corner { x, y },
    ) by {
        if x == -1i8 && y == 1 {
            assert(q[0] == Corner { x, y });
        } else if x == -1i8 && y == -1i8 {
            assert(q[1] == Corner { x, y });
        } else if x == 1 && y == -1i8 {
            assert(q[2] == Corner { x, y });
        } else {
            assert(q[4] == Corner { x, y });
        }
    }
}

} // verus!
