//! The edge shape: display state plus the colour derived from the payload,
//! and the per-frame decision of what to draw.

use vstd::prelude::*;
use vstd::std_specs::convert::FromSpec;
use vstd::std_specs::convert::FromSpecImpl;
use crate::builder::EdgeShapeBuilder;
use crate::color::{color_for, color_of, EdgeColor, Payload};
use crate::primitive::{
    views, EdgePath, Label, LabelAnchor, LabelSize, LabelView, Primitive, PrimitiveView, Stroke,
    TipProps, Topology,
};
use crate::props::{DefaultEdgeShape, EdgeProps};
use crate::scalar::{Point, Scalar};

verus! {

/// One endpoint of an edge, as the frame's layout resolved it.
#[derive(Clone, Copy, Debug, PartialEq, Eq, Structural)]
pub struct Node {
    /// The node's identity in the graph.
    pub id: usize,
    /// The node's centre.
    pub location: Point,
    /// Half of the node's horizontal extent, boundary to boundary.
    pub size: Scalar,
    /// The point of the node's boundary that faces the edge's other
    /// endpoint. A loop does not use it.
    pub connector: Point,
}

/// The style settings that the drawing of an edge depends on.
#[derive(Clone, Copy, Debug, PartialEq, Eq, Structural)]
pub struct SettingsStyle {
    /// Labels are shown for every edge, selected or not.
    pub labels_always: bool,
}

/// What one draw call is told of the frame.
#[derive(Clone, Copy, Debug, PartialEq, Eq, Structural)]
pub struct DrawContext {
    pub style: SettingsStyle,
    /// The graph is directed: edges between two nodes carry an arrow tip.
    pub is_directed: bool,
}

/// The shape of one edge: the display state, and the colour that the sign
/// of the payload gave it when the shape was made.
#[derive(Clone, Debug, PartialEq, Eq)]
pub struct GvizorEdgeShape {
    pub default: DefaultEdgeShape,
    pub color: EdgeColor,
}

/// The topology of an edge: a loop whenever both endpoints are the same
/// node, whatever the order; else straight for order zero and curved for
/// any other order.
pub open spec fn topology_of(start_id: usize, end_id: usize, order: usize) -> Topology {
    if start_id == end_id {
        Topology::Looped
    } else if order == 0 {
        Topology::Straight
    } else {
        Topology::Curved
    }
}

impl<E: Payload> FromSpecImpl<EdgeProps<E>> for GvizorEdgeShape {
    open spec fn obeys_from_spec() -> bool {
        true
    }

    open spec fn from_spec(edge: EdgeProps<E>) -> Self {
        GvizorEdgeShape {
            default: <DefaultEdgeShape as FromSpec<EdgeProps<E>>>::from_spec(edge),
            color: color_of(&edge.payload),
        }
    }
}

impl<E: Payload> From<EdgeProps<E>> for GvizorEdgeShape {
    /// The shape of a new edge: the default display state of the edge's
    /// properties, and the colour of its payload.
    fn from(edge: EdgeProps<E>) -> (shape: Self) {
        let color = color_for(&edge.payload);
        GvizorEdgeShape { default: DefaultEdgeShape::from(edge), color }
    }
}

impl GvizorEdgeShape {
    /// Whether the label is drawn: always when the style says so, and
    /// otherwise only while the edge is selected.
    pub open spec fn spec_label_visible(&self, ctx: &DrawContext) -> bool {
        ctx.style.labels_always || self.default.selected
    }

    /// Whether the label is drawn in a frame with this context.
    #[verifier::when_used_as_spec(spec_label_visible)]
    pub fn label_visible(&self, ctx: &DrawContext) -> (visible: bool)
        ensures
            visible == self.spec_label_visible(ctx),
            visible <==> ctx.style.labels_always || self.default.selected,
    {
        ctx.style.labels_always || self.default.selected
    }

    /// The topology of this edge between the two endpoints.
    pub open spec fn spec_topology(&self, start: &Node, end: &Node) -> Topology {
        topology_of(start.id, end.id, self.default.order)
    }

    /// The topology of this edge between the two endpoints: exactly one of
    /// the three, fixed by the endpoints' identities and the order alone.
    #[verifier::when_used_as_spec(spec_topology)]
    pub fn topology(&self, start: &Node, end: &Node) -> (topology: Topology)
        ensures
            topology == self.spec_topology(start, end),
            topology == Topology::Looped <==> start.id == end.id,
            topology == Topology::Straight <==> start.id != end.id && self.default.order == 0,
            topology == Topology::Curved <==> start.id != end.id && self.default.order != 0,
    {
        if start.id == end.id {
            Topology::Looped
        } else if self.default.order == 0 {
            Topology::Straight
        } else {
            Topology::Curved
        }
    }

    /// The pen of the body: the state's width and the shape's colour.
    pub open spec fn stroke(&self) -> Stroke {
        Stroke { width: self.default.width, color: self.color }
    }

    /// The course of the body. A loop runs around the start node; the other
    /// two run from the start node's connector to the end node's.
    pub open spec fn path(&self, start: &Node, end: &Node) -> EdgePath {
        match self.topology(start, end) {
            Topology::Looped => EdgePath::Looped {
                center: start.location,
                node_size: start.size,
                loop_size: self.default.loop_size,
                order: self.default.order,
            },
            Topology::Straight => EdgePath::Straight {
                from: start.connector,
                to: end.connector,
            },
            Topology::Curved => EdgePath::Curved {
                from: start.connector,
                to: end.connector,
                curve_size: self.default.curve_size,
                order: self.default.order,
            },
        }
    }

    /// The tip that the builder is asked for: the state's tip in a directed
    /// graph, unless the edge is a loop.
    pub open spec fn tip(&self, start: &Node, end: &Node, ctx: &DrawContext) -> Option<TipProps> {
        if ctx.is_directed && self.topology(start, end) != Topology::Looped {
            Some(TipProps { size: self.default.tip_size, angle: self.default.tip_angle })
        } else {
            None
        }
    }

    /// The builder that a draw call sets up.
    pub open spec fn builder(&self, start: &Node, end: &Node, ctx: &DrawContext) -> EdgeShapeBuilder {
        EdgeShapeBuilder {
            path: self.path(start, end),
            tip: self.tip(start, end, ctx),
            stroke: self.stroke(),
        }
    }

    /// The label of the edge. On a loop it is sized by the one node and hangs
    /// on the middle of the loop; on a straight edge it is sized by the mean
    /// of both nodes and hangs on the midpoint between the connectors; on a
    /// curved edge it is sized likewise and hangs on the middle of the curve.
    pub open spec fn label(&self, start: &Node, end: &Node) -> LabelView {
        let path = self.path(start, end);
        LabelView {
            text: self.default.label_text@,
            color: self.color,
            size: match path {
                EdgePath::Looped { .. } => LabelSize::Of(start.size),
                _ => LabelSize::Mean(start.size, end.size),
            },
            anchor: match path {
                EdgePath::Straight { from, to } => LabelAnchor::Midpoint(from, to),
                _ => LabelAnchor::CurveMedian(path),
            },
        }
    }

    /// What a draw call produces, in paint order: the body and, if there is
    /// one, the tip, as the builder makes them; then the label, if it is
    /// visible.
    pub open spec fn drawn(&self, start: &Node, end: &Node, ctx: &DrawContext) -> Seq<
        PrimitiveView,
    > {
        let body = self.builder(start, end, ctx).built();
        if self.label_visible(ctx) {
            body.push(PrimitiveView::Text(self.label(start, end)))
        } else {
            body
        }
    }

    /// Takes order, selection, width and label from the edge's properties.
    /// The colour stays as it is, whatever the payload of `state`.
    pub fn update<E>(&mut self, state: &EdgeProps<E>)
        ensures
            final(self).color == old(self).color,
            final(self).default.order == state.order,
            final(self).default.selected == state.selected,
            final(self).default.width == state.width,
            final(self).default.label_text@ == state.label@,
            final(self).default.tip_size == old(self).default.tip_size,
            final(self).default.tip_angle == old(self).default.tip_angle,
            final(self).default.curve_size == old(self).default.curve_size,
            final(self).default.loop_size == old(self).default.loop_size,
    {
        self.default.update(state);
    }

    /// Places the label on a body that was built: on the midpoint between
    /// the ends of a line, sized by the mean of both nodes; on the middle of
    /// a curve, sized by the one node if the curve is a loop and by the mean
    /// of both nodes if it is not.
    fn place_label(&self, body: &Primitive, start: &Node, end: &Node) -> (label: Label)
        requires
            body@ is Line || body@ is Curve,
        ensures
            label@.text == self.default.label_text@,
            label@.color == self.color,
            label@.size == match body@ {
                PrimitiveView::Curve { path: EdgePath::Looped { .. }, .. } => LabelSize::Of(
                    start.size,
                ),
                _ => LabelSize::Mean(start.size, end.size),
            },
            body@ matches PrimitiveView::Line { from, to, .. } ==> label@.anchor
                == LabelAnchor::Midpoint(from, to),
            body@ matches PrimitiveView::Curve { path, .. } ==> label@.anchor
                == LabelAnchor::CurveMedian(path),
    {
        let mean = LabelSize::Mean(start.size, end.size);
        let (size, anchor) = match body {
            Primitive::Line { from, to, .. } => (mean, LabelAnchor::Midpoint(*from, *to)),
            Primitive::Curve { path, .. } => match path {
                EdgePath::Looped { .. } => (
                    LabelSize::Of(start.size),
                    LabelAnchor::CurveMedian(*path),
                ),
                _ => (mean, LabelAnchor::CurveMedian(*path)),
            },
            _ => vstd::pervasive::unreached(),
        };
        Label { text: self.default.label_text.clone(), color: self.color, size, anchor }
    }

    /// The primitives of this edge for one frame, in paint order. The state
    /// is left as it was.
    pub fn shapes(&mut self, start: &Node, end: &Node, ctx: &DrawContext) -> (res: Vec<Primitive>)
        ensures
            *final(self) == *old(self),
            views(res@) == old(self).drawn(start, end, ctx),
            forall|i: int| 0 <= i < res@.len() ==> (#[trigger] res@[i])@.wf(),
    {
        let stroke = Stroke { width: self.default.width, color: self.color };
        let mut builder = EdgeShapeBuilder::new(stroke);
        if start.id == end.id {
            builder = builder.looped(
                start.location,
                start.size,
                self.default.loop_size,
                self.default.order,
            );
        } else {
            let bounds = (start.connector, end.connector);
            if self.default.order == 0 {
                builder = builder.straight(bounds);
            } else {
                builder = builder.curved(bounds, self.default.curve_size, self.default.order);
            }
            if ctx.is_directed {
                builder = builder.with_tip(
                    TipProps { size: self.default.tip_size, angle: self.default.tip_angle },
                );
            }
        }
        let mut res = builder.build();
        if self.label_visible(ctx) {
            let label = self.place_label(&res[0], start, end);
            res.push(Primitive::Text(label));
        }
        assert(views(res@) =~= self.drawn(start, end, ctx));
        res
    }
}

} // verus!
