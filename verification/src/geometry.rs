use vstd::prelude::*;

verus! {

/// A point in scene coordinates.
#[derive(Clone, Copy, Debug, PartialEq, Eq, Structural)]
pub struct Point {
    pub x: i32,
    pub y: i32,
}

/// Shape descriptor of an interaction region. The only shape in use is a
/// circle, given by its radius.
#[derive(Clone, Copy, Debug)]
pub enum SelectableShape {
    Circle(i32),
}

impl SelectableShape {
    /// Radius of the region described by this shape.
    pub open spec fn spec_radius(self) -> int {
        match self {
            SelectableShape::Circle(radius) => radius as int,
        }
    }
}

/// Circular hit test: whether `p` lies within distance `radius` of `center`,
/// stated on squared distances so that no square root is needed.
pub open spec fn in_circle(center: Point, radius: int, p: Point) -> bool {
    (p.x - center.x) * (p.x - center.x) + (p.y - center.y) * (p.y - center.y) <= radius * radius
}

/// Interaction region attached to a clickable entity: a shape anchored at a
/// center point in scene coordinates, fixed at creation time.
pub struct Selectable {
    shape: SelectableShape,
    position: Point,
}

impl Selectable {
    /// Center of this region.
    pub closed spec fn center(&self) -> Point {
        self.position
    }

    /// Radius of this region.
    pub closed spec fn radius(&self) -> int {
        self.shape.spec_radius()
    }

    /// Whether a pointer at `position` hits this region.
    pub open spec fn contains(&self, position: Point) -> bool {
        in_circle(self.center(), self.radius(), position)
    }

    /// A region with the given center and shape.
    pub fn new(position: Point, shape: SelectableShape) -> (s: Selectable)
        ensures
            s.center() == position,
            s.radius() == shape.spec_radius(),
    {
        Selectable { shape, position }
    }

    /// Executable hit test against this region.
    pub fn is_selected(&self, position: &Point) -> (hit: bool)
        ensures
            hit == self.contains(*position),
    {
        match self.shape {
            SelectableShape::Circle(radius) => {
                let dx: i128 = position.x as i128 - self.position.x as i128;
                let dy: i128 = position.y as i128 - self.position.y as i128;
                let r: i128 = radius as i128;
                proof {
                    assert(dx * dx < 0x1_0000_0000_0000_0000_0000 && dx * dx >= 0) by (nonlinear_arith)
                        requires -0x1_0000_0000 <= dx <= 0x1_0000_0000;
                    assert(dy * dy < 0x1_0000_0000_0000_0000_0000 && dy * dy >= 0) by (nonlinear_arith)
                        requires -0x1_0000_0000 <= dy <= 0x1_0000_0000;
                    assert(r * r < 0x1_0000_0000_0000_0000_0000 && r * r >= 0) by (nonlinear_arith)
                        requires -0x1_0000_0000 <= r <= 0x1_0000_0000;
                }
                dx * dx + dy * dy <= r * r
            }
        }
    }
}

} // verus!
