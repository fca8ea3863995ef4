//! What holds of every draw call, whatever the edge and the frame.

use vstd::prelude::*;
use crate::edge::{DrawContext, GvizorEdgeShape, Node};
use crate::primitive::{kinds, EdgePath, LabelAnchor, PrimitiveKind, PrimitiveView, Topology};

verus! {

/// How many primitives of a sequence are of the given kind.
pub open spec fn count(primitives: Seq<PrimitiveView>, kind: PrimitiveKind) -> nat
    decreases primitives.len(),
{
    if primitives.len() == 0 {
        0
    } else {
        let rest = count(primitives.drop_last(), kind);
        if primitives.last().kind() == kind {
            rest + 1
        } else {
            rest
        }
    }
}

/// Counting after one more primitive.
pub proof fn lemma_count_push(primitives: Seq<PrimitiveView>, last: PrimitiveView, kind: PrimitiveKind)
    ensures
        count(primitives.push(last), kind) == count(primitives, kind) + if last.kind() == kind {
            1nat
        } else {
            0nat
        },
{
    assert(primitives.push(last).drop_last() =~= primitives);
}

/// The counts of the body kinds and of tips in what the builder of a draw
/// call makes.
proof fn lemma_count_body(shape: GvizorEdgeShape, start: Node, end: Node, ctx: DrawContext)
    ensures
        ({
            let built = shape.builder(&start, &end, &ctx).built();
            let straight = shape.topology(&start, &end) == Topology::Straight;
            let looped = shape.topology(&start, &end) == Topology::Looped;
            &&& count(built, PrimitiveKind::Line) == if straight { 1nat } else { 0nat }
            &&& count(built, PrimitiveKind::Curve) == if straight { 0nat } else { 1nat }
            &&& count(built, PrimitiveKind::Polygon) == if ctx.is_directed && !looped {
                1nat
            } else {
                0nat
            }
            &&& count(built, PrimitiveKind::Text) == 0
        }),
{
    let builder = shape.builder(&start, &end, &ctx);
    let none = Seq::<PrimitiveView>::empty();
    let body = builder.body();
    lemma_count_push(none, body, PrimitiveKind::Line);
    lemma_count_push(none, body, PrimitiveKind::Curve);
    lemma_count_push(none, body, PrimitiveKind::Polygon);
    lemma_count_push(none, body, PrimitiveKind::Text);
    if builder.has_tip() {
        let tip = PrimitiveView::Polygon {
            path: builder.path,
            tip: builder.tip.unwrap(),
            fill: builder.stroke.color,
        };
        assert(builder.built() =~= none.push(body).push(tip));
        lemma_count_push(none.push(body), tip, PrimitiveKind::Line);
        lemma_count_push(none.push(body), tip, PrimitiveKind::Curve);
        lemma_count_push(none.push(body), tip, PrimitiveKind::Polygon);
        lemma_count_push(none.push(body), tip, PrimitiveKind::Text);
    } else {
        assert(builder.built() =~= none.push(body));
    }
}

/// The counts of every kind in what a draw call produces.
proof fn lemma_count_drawn(shape: GvizorEdgeShape, start: Node, end: Node, ctx: DrawContext)
    ensures
        ({
            let drawn = shape.drawn(&start, &end, &ctx);
            let straight = shape.topology(&start, &end) == Topology::Straight;
            let looped = shape.topology(&start, &end) == Topology::Looped;
            &&& count(drawn, PrimitiveKind::Line) == if straight { 1nat } else { 0nat }
            &&& count(drawn, PrimitiveKind::Curve) == if straight { 0nat } else { 1nat }
            &&& count(drawn, PrimitiveKind::Polygon) == if ctx.is_directed && !looped {
                1nat
            } else {
                0nat
            }
            &&& count(drawn, PrimitiveKind::Text) == if shape.label_visible(&ctx) {
                1nat
            } else {
                0nat
            }
        }),
{
    lemma_count_body(shape, start, end, ctx);
    if shape.label_visible(&ctx) {
        let built = shape.builder(&start, &end, &ctx).built();
        let label = PrimitiveView::Text(shape.label(&start, &end));
        lemma_count_push(built, label, PrimitiveKind::Line);
        lemma_count_push(built, label, PrimitiveKind::Curve);
        lemma_count_push(built, label, PrimitiveKind::Polygon);
        lemma_count_push(built, label, PrimitiveKind::Text);
    }
}

/// Every edge has exactly one topology, fixed by the identities of its
/// endpoints and its order alone, and the body runs along a path of that
/// topology: a loop whenever the endpoints are one node, else straight for
/// order zero and curved otherwise.
pub proof fn lemma_one_topology(shape: GvizorEdgeShape, start: Node, end: Node)
    ensures
        shape.topology(&start, &end) == Topology::Looped <==> start.id == end.id,
        shape.topology(&start, &end) == Topology::Straight <==> start.id != end.id
            && shape.default.order == 0,
        shape.topology(&start, &end) == Topology::Curved <==> start.id != end.id
            && shape.default.order != 0,
        shape.path(&start, &end).topology() == shape.topology(&start, &end),
{
}

/// An edge of order zero between two distinct nodes is drawn as exactly one
/// line, which comes first and runs from the start node's connector to the
/// end node's, and no curve. It has exactly one tip, right behind the line,
/// when the graph is directed, and none when it is not.
pub proof fn lemma_straight_edge(shape: GvizorEdgeShape, start: Node, end: Node, ctx: DrawContext)
    requires
        start.id != end.id,
        shape.default.order == 0,
    ensures
        shape.topology(&start, &end) == Topology::Straight,
        count(shape.drawn(&start, &end, &ctx), PrimitiveKind::Line) == 1,
        count(shape.drawn(&start, &end, &ctx), PrimitiveKind::Curve) == 0,
        count(shape.drawn(&start, &end, &ctx), PrimitiveKind::Polygon) == if ctx.is_directed {
            1nat
        } else {
            0nat
        },
        shape.drawn(&start, &end, &ctx)[0] == (PrimitiveView::Line {
            from: start.connector,
            to: end.connector,
            stroke: shape.stroke(),
        }),
        ctx.is_directed ==> shape.drawn(&start, &end, &ctx)[1] is Polygon,
{
    lemma_count_drawn(shape, start, end, ctx);
}

/// An edge of any other order between two distinct nodes is drawn as
/// exactly one curve, which comes first and is open, and no line. It has
/// exactly one tip, right behind the curve, when the graph is directed, and
/// none when it is not.
pub proof fn lemma_curved_edge(shape: GvizorEdgeShape, start: Node, end: Node, ctx: DrawContext)
    requires
        start.id != end.id,
        shape.default.order != 0,
    ensures
        shape.topology(&start, &end) == Topology::Curved,
        count(shape.drawn(&start, &end, &ctx), PrimitiveKind::Curve) == 1,
        count(shape.drawn(&start, &end, &ctx), PrimitiveKind::Line) == 0,
        count(shape.drawn(&start, &end, &ctx), PrimitiveKind::Polygon) == if ctx.is_directed {
            1nat
        } else {
            0nat
        },
        shape.drawn(&start, &end, &ctx)[0] == (PrimitiveView::Curve {
            path: EdgePath::Curved {
                from: start.connector,
                to: end.connector,
                curve_size: shape.default.curve_size,
                order: shape.default.order,
            },
            stroke: shape.stroke(),
        }),
        ctx.is_directed ==> shape.drawn(&start, &end, &ctx)[1] is Polygon,
{
    lemma_count_drawn(shape, start, end, ctx);
}

/// An edge from a node to itself is a loop, whatever its order: it is drawn
/// as exactly one curve, which is closed, with no line and no tip, directed
/// or not.
pub proof fn lemma_self_loop(shape: GvizorEdgeShape, start: Node, end: Node, ctx: DrawContext)
    requires
        start.id == end.id,
    ensures
        shape.topology(&start, &end) == Topology::Looped,
        count(shape.drawn(&start, &end, &ctx), PrimitiveKind::Curve) == 1,
        count(shape.drawn(&start, &end, &ctx), PrimitiveKind::Line) == 0,
        count(shape.drawn(&start, &end, &ctx), PrimitiveKind::Polygon) == 0,
        shape.drawn(&start, &end, &ctx)[0] matches PrimitiveView::Curve { path, stroke }
            && path.is_closed() && stroke == shape.stroke(),
{
    lemma_count_drawn(shape, start, end, ctx);
}

/// A label is drawn exactly when the style always shows labels or the edge
/// is selected, in every topology. If it is drawn, there is one, it comes
/// last, and it is the edge's label.
pub proof fn lemma_label_presence(shape: GvizorEdgeShape, start: Node, end: Node, ctx: DrawContext)
    ensures
        shape.label_visible(&ctx) <==> ctx.style.labels_always || shape.default.selected,
        count(shape.drawn(&start, &end, &ctx), PrimitiveKind::Text) == if shape.label_visible(
            &ctx,
        ) {
            1nat
        } else {
            0nat
        },
        shape.label_visible(&ctx) ==> shape.drawn(&start, &end, &ctx).last()
            == PrimitiveView::Text(shape.label(&start, &end)),
{
    lemma_count_drawn(shape, start, end, ctx);
}

/// The paint order of every draw call: the body first (a line on a straight
/// edge, a curve otherwise), then the tip if there is one, then the label if
/// there is one. Nothing else is drawn.
pub proof fn lemma_paint_order(shape: GvizorEdgeShape, start: Node, end: Node, ctx: DrawContext)
    ensures
        ({
            let topology = shape.topology(&start, &end);
            let body = if topology == Topology::Straight {
                seq![PrimitiveKind::Line]
            } else {
                seq![PrimitiveKind::Curve]
            };
            let tip = if ctx.is_directed && topology != Topology::Looped {
                seq![PrimitiveKind::Polygon]
            } else {
                Seq::<PrimitiveKind>::empty()
            };
            let label = if shape.label_visible(&ctx) {
                seq![PrimitiveKind::Text]
            } else {
                Seq::<PrimitiveKind>::empty()
            };
            kinds(shape.drawn(&start, &end, &ctx)) == body + tip + label
        }),
{
    let topology = shape.topology(&start, &end);
    let body = if topology == Topology::Straight {
        seq![PrimitiveKind::Line]
    } else {
        seq![PrimitiveKind::Curve]
    };
    let tip = if ctx.is_directed && topology != Topology::Looped {
        seq![PrimitiveKind::Polygon]
    } else {
        Seq::<PrimitiveKind>::empty()
    };
    let label = if shape.label_visible(&ctx) {
        seq![PrimitiveKind::Text]
    } else {
        Seq::<PrimitiveKind>::empty()
    };
    assert(kinds(shape.drawn(&start, &end, &ctx)) =~= body + tip + label);
}

/// A label hangs on what was built: on a curved edge and on a loop, on the
/// middle of the very curve that is the first primitive; on a straight edge,
/// on the midpoint between the ends of the line.
pub proof fn lemma_label_follows_body(
    shape: GvizorEdgeShape,
    start: Node,
    end: Node,
    ctx: DrawContext,
)
    ensures
        match shape.drawn(&start, &end, &ctx)[0] {
            PrimitiveView::Curve { path, .. } => shape.label(&start, &end).anchor
                == LabelAnchor::CurveMedian(path),
            PrimitiveView::Line { from, to, .. } => shape.label(&start, &end).anchor
                == LabelAnchor::Midpoint(from, to),
            _ => false,
        },
{
}

/// Drawing is repeatable: a draw call leaves the shape as it was, so a
/// second call with the same endpoints and context produces the same
/// primitives as the first.
pub proof fn lemma_draw_twice(
    before: GvizorEdgeShape,
    after: GvizorEdgeShape,
    start: Node,
    end: Node,
    ctx: DrawContext,
)
    requires
        after == before,
    ensures
        after.drawn(&start, &end, &ctx) == before.drawn(&start, &end, &ctx),
{
}

} // verus!
