//! The drawable primitives of an edge, and the values that describe them.
//!
//! A primitive says what is painted, in canvas space. The renderer maps
//! every coordinate and size through the frame's transform before it paints.

use vstd::prelude::*;
use crate::color::EdgeColor;
use crate::scalar::{Point, Scalar};

verus! {

/// The pen of an edge's body.
#[derive(Clone, Copy, Debug, PartialEq, Eq, Structural)]
pub struct Stroke {
    pub width: Scalar,
    pub color: EdgeColor,
}

/// The arrow tip of a directed edge: the length of its sides and the angle
/// between each side and the edge.
#[derive(Clone, Copy, Debug, PartialEq, Eq, Structural)]
pub struct TipProps {
    pub size: Scalar,
    pub angle: Scalar,
}

/// The three ways an edge runs.
#[derive(Clone, Copy, Debug, PartialEq, Eq, Structural)]
pub enum Topology {
    /// Both endpoints are the same node.
    Looped,
    /// Two nodes, no parallel offset.
    Straight,
    /// Two nodes, bent away from the chord.
    Curved,
}

/// The course of an edge's body.
#[derive(Clone, Copy, Debug, PartialEq, Eq, Structural)]
pub enum EdgePath {
    /// The segment between two anchor points.
    Straight { from: Point, to: Point },
    /// A cubic between two anchor points whose control points are offset
    /// perpendicular to the chord, in proportion to `order` and `curve_size`.
    Curved { from: Point, to: Point, curve_size: Scalar, order: usize },
    /// A closed cubic that leaves and re-enters one node, sized relative to
    /// `node_size` and widened by `order`, so that repeated loops fan out.
    Looped { center: Point, node_size: Scalar, loop_size: Scalar, order: usize },
}

impl EdgePath {
    /// The topology that this path belongs to.
    pub open spec fn topology(&self) -> Topology {
        match self {
            EdgePath::Straight { .. } => Topology::Straight,
            EdgePath::Curved { .. } => Topology::Curved,
            EdgePath::Looped { .. } => Topology::Looped,
        }
    }

    /// Whether the path is drawn as a cubic curve.
    pub open spec fn is_cubic(&self) -> bool {
        !(self is Straight)
    }

    /// Whether the path ends where it starts.
    pub open spec fn is_closed(&self) -> bool {
        self is Looped
    }
}

/// Where the font size of a label comes from. A node's size is half of its
/// horizontal extent, boundary to boundary.
#[derive(Clone, Copy, Debug, PartialEq, Eq, Structural)]
pub enum LabelSize {
    /// The size of the one node of a loop.
    Of(Scalar),
    /// The mean of the sizes of the start and the end node.
    Mean(Scalar, Scalar),
}

/// The point that a label is placed at. The label is centred horizontally
/// on it and sits just above it.
#[derive(Clone, Copy, Debug, PartialEq, Eq, Structural)]
pub enum LabelAnchor {
    /// The midpoint between two anchor points.
    Midpoint(Point, Point),
    /// The middle point of the flattening of the curve that was built for
    /// this path.
    CurveMedian(EdgePath),
}

/// The label of an edge.
#[derive(Clone, Debug, PartialEq, Eq)]
pub struct Label {
    pub text: String,
    pub color: EdgeColor,
    pub size: LabelSize,
    pub anchor: LabelAnchor,
}

/// One drawable primitive.
#[derive(Clone, Debug, PartialEq, Eq)]
pub enum Primitive {
    /// A straight body stroke.
    Line { from: Point, to: Point, stroke: Stroke },
    /// A cubic body stroke along `path`.
    Curve { path: EdgePath, stroke: Stroke },
    /// An arrow tip: a filled triangle at the end of `path`, pointing the way
    /// the path runs there.
    Polygon { path: EdgePath, tip: TipProps, fill: EdgeColor },
    /// A label.
    Text(Label),
}

/// The kind of a primitive.
#[derive(Clone, Copy, Debug, PartialEq, Eq, Structural)]
pub enum PrimitiveKind {
    Curve,
    Line,
    Polygon,
    Text,
}

/// A label, with its text as a sequence of characters.
pub struct LabelView {
    pub text: Seq<char>,
    pub color: EdgeColor,
    pub size: LabelSize,
    pub anchor: LabelAnchor,
}

/// A primitive, with the text of a label as a sequence of characters.
pub enum PrimitiveView {
    Line { from: Point, to: Point, stroke: Stroke },
    Curve { path: EdgePath, stroke: Stroke },
    Polygon { path: EdgePath, tip: TipProps, fill: EdgeColor },
    Text(LabelView),
}

impl View for Label {
    type V = LabelView;

    open spec fn view(&self) -> LabelView {
        LabelView { text: self.text@, color: self.color, size: self.size, anchor: self.anchor }
    }
}

impl View for Primitive {
    type V = PrimitiveView;

    open spec fn view(&self) -> PrimitiveView {
        match self {
            Primitive::Line { from, to, stroke } => PrimitiveView::Line {
                from: *from,
                to: *to,
                stroke: *stroke,
            },
            Primitive::Curve { path, stroke } => PrimitiveView::Curve {
                path: *path,
                stroke: *stroke,
            },
            Primitive::Polygon { path, tip, fill } => PrimitiveView::Polygon {
                path: *path,
                tip: *tip,
                fill: *fill,
            },
            Primitive::Text(label) => PrimitiveView::Text(label@),
        }
    }
}

impl PrimitiveView {
    /// The kind of this primitive.
    pub open spec fn kind(&self) -> PrimitiveKind {
        match self {
            PrimitiveView::Line { .. } => PrimitiveKind::Line,
            PrimitiveView::Curve { .. } => PrimitiveKind::Curve,
            PrimitiveView::Polygon { .. } => PrimitiveKind::Polygon,
            PrimitiveView::Text(_) => PrimitiveKind::Text,
        }
    }

    /// A curve runs along a cubic path, a tip ends a path between two nodes,
    /// and a label that hangs on a curve hangs on a cubic path.
    pub open spec fn wf(&self) -> bool {
        match self {
            PrimitiveView::Line { .. } => true,
            PrimitiveView::Curve { path, .. } => path.is_cubic(),
            PrimitiveView::Polygon { path, .. } => !path.is_closed(),
            PrimitiveView::Text(label) => match label.anchor {
                LabelAnchor::Midpoint(_, _) => true,
                LabelAnchor::CurveMedian(path) => path.is_cubic(),
            },
        }
    }
}

/// The views of a sequence of primitives, in the same order.
pub open spec fn views(primitives: Seq<Primitive>) -> Seq<PrimitiveView> {
    primitives.map_values(|p: Primitive| p@)
}

/// The kinds of a sequence of primitives, in the same order.
pub open spec fn kinds(primitives: Seq<PrimitiveView>) -> Seq<PrimitiveKind> {
    primitives.map_values(|p: PrimitiveView| p.kind())
}

/// The tip that ends the body at index `body`: the tip of the primitive
/// right behind it, if that is an arrow tip.
pub open spec fn tip_of(primitives: Seq<PrimitiveView>, body: int) -> Option<TipProps> {
    if 0 <= body && body + 1 < primitives.len() {
        match primitives[body + 1] {
            PrimitiveView::Polygon { tip, .. } => Some(tip),
            _ => None,
        }
    } else {
        None
    }
}

/// The tip that ends the body at index `body` of a drawing, if it has one.
pub fn tip_behind(primitives: &Vec<Primitive>, body: usize) -> (tip: Option<TipProps>)
    ensures
        tip == tip_of(views(primitives@), body as int),
{
    if body >= primitives.len() || body + 1 >= primitives.len() {
        return None;
    }
    assert(views(primitives@)[body + 1] == primitives@[body + 1]@);
    match &primitives[body + 1] {
        Primitive::Polygon { tip, .. } => Some(*tip),
        _ => None,
    }
}

impl Primitive {
    /// The kind of this primitive.
    pub fn kind(&self) -> (kind: PrimitiveKind)
        ensures
            kind == self@.kind(),
    {
        match self {
            Primitive::Line { .. } => PrimitiveKind::Line,
            Primitive::Curve { .. } => PrimitiveKind::Curve,
            Primitive::Polygon { .. } => PrimitiveKind::Polygon,
            Primitive::Text(_) => PrimitiveKind::Text,
        }
    }
}

} // verus!
