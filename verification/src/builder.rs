//! The geometry builder: from a path, a stroke and an optional arrow tip to
//! the primitives of an edge's body.

use vstd::prelude::*;
use crate::primitive::{views, EdgePath, Primitive, PrimitiveView, Stroke, TipProps};
use crate::scalar::{Point, Scalar};

verus! {

/// Collects what the body of an edge is built from.
#[derive(Clone, Copy, Debug, PartialEq, Eq, Structural)]
pub struct EdgeShapeBuilder {
    pub path: EdgePath,
    pub tip: Option<TipProps>,
    pub stroke: Stroke,
}

impl EdgeShapeBuilder {
    /// A builder for a straight edge from the origin to the origin, without
    /// a tip.
    pub fn new(stroke: Stroke) -> (builder: Self)
        ensures
            builder.stroke == stroke,
            builder.tip is None,
            builder.path == (EdgePath::Straight { from: Point::origin(), to: Point::origin() }),
    {
        let origin = Point { x: Scalar { bits: 0 }, y: Scalar { bits: 0 } };
        EdgeShapeBuilder { path: EdgePath::Straight { from: origin, to: origin }, tip: None, stroke }
    }

    /// Makes the edge the segment between two anchor points.
    pub fn straight(self, bounds: (Point, Point)) -> (builder: Self)
        ensures
            builder.path == (EdgePath::Straight { from: bounds.0, to: bounds.1 }),
            builder.tip == self.tip,
            builder.stroke == self.stroke,
    {
        EdgeShapeBuilder {
            path: EdgePath::Straight { from: bounds.0, to: bounds.1 },
            tip: self.tip,
            stroke: self.stroke,
        }
    }

    /// Makes the edge a cubic between two anchor points, bent by `order`
    /// times `curve_size`.
    pub fn curved(self, bounds: (Point, Point), curve_size: Scalar, order: usize) -> (builder: Self)
        ensures
            builder.path == (EdgePath::Curved {
                from: bounds.0,
                to: bounds.1,
                curve_size,
                order,
            }),
            builder.tip == self.tip,
            builder.stroke == self.stroke,
    {
        EdgeShapeBuilder {
            path: EdgePath::Curved { from: bounds.0, to: bounds.1, curve_size, order },
            tip: self.tip,
            stroke: self.stroke,
        }
    }

    /// Makes the edge a loop on the node at `node_center`.
    pub fn looped(
        self,
        node_center: Point,
        node_size: Scalar,
        loop_size: Scalar,
        order: usize,
    ) -> (builder: Self)
        ensures
            builder.path == (EdgePath::Looped {
                center: node_center,
                node_size,
                loop_size,
                order,
            }),
            builder.tip == self.tip,
            builder.stroke == self.stroke,
    {
        EdgeShapeBuilder {
            path: EdgePath::Looped { center: node_center, node_size, loop_size, order },
            tip: self.tip,
            stroke: self.stroke,
        }
    }

    /// Asks for an arrow tip at the edge's end.
    pub fn with_tip(self, tip: TipProps) -> (builder: Self)
        ensures
            builder.tip == Some(tip),
            builder.path == self.path,
            builder.stroke == self.stroke,
    {
        EdgeShapeBuilder { path: self.path, tip: Some(tip), stroke: self.stroke }
    }

    /// The body stroke: a line for a straight path, a curve for the others.
    pub open spec fn body(&self) -> PrimitiveView {
        match self.path {
            EdgePath::Straight { from, to } => PrimitiveView::Line { from, to, stroke: self.stroke },
            _ => PrimitiveView::Curve { path: self.path, stroke: self.stroke },
        }
    }

    /// Whether a tip is drawn: one was asked for, and the edge is no loop.
    pub open spec fn has_tip(&self) -> bool {
        self.tip is Some && !self.path.is_closed()
    }

    /// What `build` produces: the body stroke, then the tip if one is drawn,
    /// filled with the stroke's colour.
    pub open spec fn built(&self) -> Seq<PrimitiveView> {
        if self.has_tip() {
            seq![
                self.body(),
                PrimitiveView::Polygon {
                    path: self.path,
                    tip: self.tip.unwrap(),
                    fill: self.stroke.color,
                },
            ]
        } else {
            seq![self.body()]
        }
    }

    /// Builds the primitives of the edge's body, in paint order.
    pub fn build(self) -> (primitives: Vec<Primitive>)
        ensures
            views(primitives@) == self.built(),
            primitives@.len() >= 1,
            primitives@[0]@ == self.body(),
            forall|i: int| 0 <= i < primitives@.len() ==> (#[trigger] primitives@[i])@.wf(),
    {
        let mut primitives: Vec<Primitive> = Vec::new();
        match self.path {
            EdgePath::Straight { from, to } => {
                primitives.push(Primitive::Line { from, to, stroke: self.stroke });
            },
            _ => {
                primitives.push(Primitive::Curve { path: self.path, stroke: self.stroke });
            },
        }
        let looped = match self.path {
            EdgePath::Looped { .. } => true,
            _ => false,
        };
        if !looped {
            if let Some(tip) = self.tip {
                primitives.push(
                    Primitive::Polygon { path: self.path, tip, fill: self.stroke.color },
                );
            }
        }
        assert(views(primitives@) =~= self.built());
        primitives
    }
}

} // verus!
