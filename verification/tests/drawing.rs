use gvizor_edge::{
    tip_behind, DrawContext, EdgeColor, EdgePath, EdgeProps, EdgeShapeBuilder, GvizorEdgeShape, Label,
    LabelAnchor, LabelSize, Node, Point, Primitive, PrimitiveKind, Scalar, SettingsStyle, Stroke,
    TipProps, Topology,
};

fn scalar(value: f32) -> Scalar {
    Scalar::from_bits(value.to_bits())
}

fn point(x: f32, y: f32) -> Point {
    Point::new(scalar(x), scalar(y))
}

fn shape(payload: i64, order: usize, selected: bool) -> GvizorEdgeShape {
    GvizorEdgeShape::from(EdgeProps {
        payload,
        order,
        selected,
        label: "edge".to_string(),
        width: scalar(2.0),
    })
}

fn left_node() -> Node {
    Node { id: 1, location: point(0.0, 0.0), size: scalar(5.0), connector: point(5.0, 0.0) }
}

fn right_node() -> Node {
    Node { id: 2, location: point(100.0, 0.0), size: scalar(7.0), connector: point(93.0, 0.0) }
}

fn context(labels_always: bool, is_directed: bool) -> DrawContext {
    DrawContext { style: SettingsStyle { labels_always }, is_directed }
}

fn default_tip() -> TipProps {
    TipProps { size: scalar(15.0), angle: scalar(std::f32::consts::TAU / 30.0) }
}

fn kinds(primitives: &[Primitive]) -> Vec<PrimitiveKind> {
    primitives.iter().map(|p| p.kind()).collect()
}

fn count(primitives: &[Primitive], kind: PrimitiveKind) -> usize {
    primitives.iter().filter(|p| p.kind() == kind).count()
}

#[test]
fn scenario_directed_straight_warm_without_label() {
    let mut edge = shape(5, 0, false);
    let res = edge.shapes(&left_node(), &right_node(), &context(false, true));
    let straight = EdgePath::Straight { from: point(5.0, 0.0), to: point(93.0, 0.0) };
    assert_eq!(
        res,
        vec![
            Primitive::Line {
                from: point(5.0, 0.0),
                to: point(93.0, 0.0),
                stroke: Stroke { width: scalar(2.0), color: EdgeColor::Warm },
            },
            Primitive::Polygon { path: straight, tip: default_tip(), fill: EdgeColor::Warm },
        ]
    );
}

#[test]
fn scenario_selected_straight_cool_with_label() {
    let mut edge = shape(-2, 0, true);
    let res = edge.shapes(&left_node(), &right_node(), &context(false, true));
    let straight = EdgePath::Straight { from: point(5.0, 0.0), to: point(93.0, 0.0) };
    assert_eq!(
        res,
        vec![
            Primitive::Line {
                from: point(5.0, 0.0),
                to: point(93.0, 0.0),
                stroke: Stroke { width: scalar(2.0), color: EdgeColor::Cool },
            },
            Primitive::Polygon { path: straight, tip: default_tip(), fill: EdgeColor::Cool },
            Primitive::Text(Label {
                text: "edge".to_string(),
                color: EdgeColor::Cool,
                size: LabelSize::Mean(scalar(5.0), scalar(7.0)),
                anchor: LabelAnchor::Midpoint(point(5.0, 0.0), point(93.0, 0.0)),
            }),
        ]
    );
    assert_eq!(count(&res, PrimitiveKind::Text), 1);
}

#[test]
fn scenario_curved_order_two() {
    let mut edge = shape(5, 2, false);
    edge.default.curve_size = scalar(10.0);
    let res = edge.shapes(&left_node(), &right_node(), &context(false, true));
    let curved = EdgePath::Curved {
        from: point(5.0, 0.0),
        to: point(93.0, 0.0),
        curve_size: scalar(10.0),
        order: 2,
    };
    assert_eq!(
        res,
        vec![
            Primitive::Curve {
                path: curved,
                stroke: Stroke { width: scalar(2.0), color: EdgeColor::Warm },
            },
            Primitive::Polygon { path: curved, tip: default_tip(), fill: EdgeColor::Warm },
        ]
    );
}

#[test]
fn scenario_self_loop_with_label() {
    let mut edge = shape(5, 1, false);
    edge.default.loop_size = scalar(15.0);
    let node = left_node();
    let res = edge.shapes(&node, &node, &context(true, true));
    let looped = EdgePath::Looped {
        center: point(0.0, 0.0),
        node_size: scalar(5.0),
        loop_size: scalar(15.0),
        order: 1,
    };
    assert_eq!(
        res,
        vec![
            Primitive::Curve {
                path: looped,
                stroke: Stroke { width: scalar(2.0), color: EdgeColor::Warm },
            },
            Primitive::Text(Label {
                text: "edge".to_string(),
                color: EdgeColor::Warm,
                size: LabelSize::Of(scalar(5.0)),
                anchor: LabelAnchor::CurveMedian(looped),
            }),
        ]
    );
}

#[test]
fn curved_label_hangs_on_the_curve() {
    let mut edge = shape(0, 3, true);
    let res = edge.shapes(&left_node(), &right_node(), &context(false, false));
    let curved = EdgePath::Curved {
        from: point(5.0, 0.0),
        to: point(93.0, 0.0),
        curve_size: scalar(20.0),
        order: 3,
    };
    assert_eq!(
        res,
        vec![
            Primitive::Curve {
                path: curved,
                stroke: Stroke { width: scalar(2.0), color: EdgeColor::Cool },
            },
            Primitive::Text(Label {
                text: "edge".to_string(),
                color: EdgeColor::Cool,
                size: LabelSize::Mean(scalar(5.0), scalar(7.0)),
                anchor: LabelAnchor::CurveMedian(curved),
            }),
        ]
    );
}

#[test]
fn straight_edges_have_one_line_and_a_tip_iff_directed() {
    for directed in [false, true] {
        for labels in [false, true] {
            let mut edge = shape(1, 0, false);
            let res = edge.shapes(&left_node(), &right_node(), &context(labels, directed));
            assert_eq!(count(&res, PrimitiveKind::Line), 1);
            assert_eq!(count(&res, PrimitiveKind::Curve), 0);
            assert_eq!(count(&res, PrimitiveKind::Polygon), if directed { 1 } else { 0 });
            assert_eq!(res[0].kind(), PrimitiveKind::Line);
        }
    }
}

#[test]
fn curved_edges_have_one_curve_and_a_tip_iff_directed() {
    for order in [1usize, 2, 17, usize::MAX] {
        for directed in [false, true] {
            let mut edge = shape(1, order, false);
            let res = edge.shapes(&left_node(), &right_node(), &context(false, directed));
            assert_eq!(count(&res, PrimitiveKind::Curve), 1);
            assert_eq!(count(&res, PrimitiveKind::Line), 0);
            assert_eq!(count(&res, PrimitiveKind::Polygon), if directed { 1 } else { 0 });
            assert!(matches!(
                &res[0],
                Primitive::Curve { path: EdgePath::Curved { order: o, .. }, .. } if *o == order
            ));
        }
    }
}

#[test]
fn self_loops_are_one_closed_curve_whatever_the_order() {
    let node = right_node();
    for order in [0usize, 1, 2, 1000, usize::MAX] {
        for directed in [false, true] {
            let mut edge = shape(-1, order, false);
            assert_eq!(edge.topology(&node, &node), Topology::Looped);
            let res = edge.shapes(&node, &node, &context(false, directed));
            assert_eq!(kinds(&res), vec![PrimitiveKind::Curve]);
            assert!(matches!(
                &res[0],
                Primitive::Curve { path: EdgePath::Looped { order: o, .. }, .. } if *o == order
            ));
        }
    }
}

#[test]
fn label_is_present_iff_always_shown_or_selected() {
    let a = left_node();
    let b = right_node();
    for (start, end, order) in [(a, a, 0usize), (a, a, 2), (a, b, 0), (a, b, 2)] {
        for labels in [false, true] {
            for selected in [false, true] {
                let mut edge = shape(1, order, selected);
                let ctx = context(labels, true);
                assert_eq!(edge.label_visible(&ctx), labels || selected);
                let res = edge.shapes(&start, &end, &ctx);
                let expected = if labels || selected { 1 } else { 0 };
                assert_eq!(count(&res, PrimitiveKind::Text), expected);
                if labels || selected {
                    assert_eq!(res[res.len() - 1].kind(), PrimitiveKind::Text);
                }
            }
        }
    }
}

#[test]
fn drawing_twice_gives_the_same_primitives() {
    let a = left_node();
    let b = right_node();
    for (start, end, order) in [(a, a, 1usize), (a, b, 0), (a, b, 3)] {
        let mut edge = shape(4, order, true);
        let before = edge.clone();
        let ctx = context(false, true);
        let first = edge.shapes(&start, &end, &ctx);
        assert_eq!(edge, before);
        let second = edge.shapes(&start, &end, &ctx);
        assert_eq!(first, second);
        assert_eq!(edge, before);
    }
}

#[test]
fn topology_depends_on_identity_and_order_only() {
    let a = left_node();
    let b = right_node();
    assert_eq!(shape(1, 0, false).topology(&a, &b), Topology::Straight);
    assert_eq!(shape(1, 1, false).topology(&a, &b), Topology::Curved);
    assert_eq!(shape(1, 0, false).topology(&a, &a), Topology::Looped);
    assert_eq!(shape(1, 5, false).topology(&b, &b), Topology::Looped);
    let twin = Node { id: 9, ..a };
    assert_eq!(shape(1, 0, false).topology(&a, &twin), Topology::Straight);
}

#[test]
fn coinciding_distinct_nodes_are_not_a_loop() {
    let a = left_node();
    let twin = Node { id: 9, ..a };
    let mut edge = shape(1, 0, false);
    let res = edge.shapes(&a, &twin, &context(false, false));
    assert_eq!(
        res,
        vec![Primitive::Line {
            from: a.connector,
            to: a.connector,
            stroke: Stroke { width: scalar(2.0), color: EdgeColor::Warm },
        }]
    );
}

#[test]
fn update_shows_in_the_next_drawing() {
    let mut edge = shape(5, 0, false);
    edge.update(&EdgeProps {
        payload: -1i64,
        order: 2,
        selected: true,
        label: "renamed".to_string(),
        width: scalar(4.0),
    });
    let res = edge.shapes(&left_node(), &right_node(), &context(false, false));
    assert_eq!(kinds(&res), vec![PrimitiveKind::Curve, PrimitiveKind::Text]);
    assert!(matches!(
        &res[0],
        Primitive::Curve { stroke, .. }
            if *stroke == Stroke { width: scalar(4.0), color: EdgeColor::Warm }
    ));
    assert!(matches!(&res[1], Primitive::Text(label) if label.text == "renamed"));
}

#[test]
fn builder_starts_straight_at_the_origin() {
    let stroke = Stroke { width: scalar(1.0), color: EdgeColor::Cool };
    let builder = EdgeShapeBuilder::new(stroke);
    assert_eq!(builder.stroke, stroke);
    assert_eq!(builder.tip, None);
    assert_eq!(builder.path, EdgePath::Straight { from: point(0.0, 0.0), to: point(0.0, 0.0) });
    assert_eq!(
        builder.build(),
        vec![Primitive::Line { from: point(0.0, 0.0), to: point(0.0, 0.0), stroke }]
    );
}

#[test]
fn builder_draws_body_then_tip() {
    let stroke = Stroke { width: scalar(1.0), color: EdgeColor::Warm };
    let bounds = (point(1.0, 2.0), point(3.0, 4.0));
    let tip = TipProps { size: scalar(6.0), angle: scalar(0.5) };
    let straight = EdgeShapeBuilder::new(stroke).straight(bounds).with_tip(tip).build();
    assert_eq!(
        straight,
        vec![
            Primitive::Line { from: bounds.0, to: bounds.1, stroke },
            Primitive::Polygon {
                path: EdgePath::Straight { from: bounds.0, to: bounds.1 },
                tip,
                fill: EdgeColor::Warm,
            },
        ]
    );
    let path = EdgePath::Curved { from: bounds.0, to: bounds.1, curve_size: scalar(8.0), order: 3 };
    let curved = EdgeShapeBuilder::new(stroke).with_tip(tip).curved(bounds, scalar(8.0), 3).build();
    assert_eq!(
        curved,
        vec![
            Primitive::Curve { path, stroke },
            Primitive::Polygon { path, tip, fill: EdgeColor::Warm },
        ]
    );
    let plain = EdgeShapeBuilder::new(stroke).curved(bounds, scalar(8.0), 3).build();
    assert_eq!(plain, vec![Primitive::Curve { path, stroke }]);
}

#[test]
fn builder_gives_a_loop_no_tip() {
    let stroke = Stroke { width: scalar(1.0), color: EdgeColor::Warm };
    let tip = TipProps { size: scalar(6.0), angle: scalar(0.5) };
    let looped = EdgeShapeBuilder::new(stroke)
        .with_tip(tip)
        .looped(point(1.0, 1.0), scalar(4.0), scalar(3.0), 2)
        .build();
    assert_eq!(
        looped,
        vec![Primitive::Curve {
            path: EdgePath::Looped {
                center: point(1.0, 1.0),
                node_size: scalar(4.0),
                loop_size: scalar(3.0),
                order: 2,
            },
            stroke,
        }]
    );
}

#[test]
fn kind_of_each_primitive() {
    let stroke = Stroke { width: scalar(1.0), color: EdgeColor::Warm };
    let path = EdgePath::Straight { from: point(0.0, 0.0), to: point(1.0, 0.0) };
    assert_eq!(
        Primitive::Line { from: point(0.0, 0.0), to: point(1.0, 0.0), stroke }.kind(),
        PrimitiveKind::Line
    );
    assert_eq!(Primitive::Curve { path, stroke }.kind(), PrimitiveKind::Curve);
    assert_eq!(
        Primitive::Polygon { path, tip: default_tip(), fill: EdgeColor::Cool }.kind(),
        PrimitiveKind::Polygon
    );
    assert_eq!(
        Primitive::Text(Label {
            text: String::new(),
            color: EdgeColor::Cool,
            size: LabelSize::Of(scalar(1.0)),
            anchor: LabelAnchor::CurveMedian(path),
        })
        .kind(),
        PrimitiveKind::Text
    );
}

#[test]
fn tip_behind_a_body_is_the_next_polygon() {
    let mut edge = shape(5, 0, true);
    let res = edge.shapes(&left_node(), &right_node(), &context(false, true));
    assert_eq!(kinds(&res), vec![PrimitiveKind::Line, PrimitiveKind::Polygon, PrimitiveKind::Text]);
    assert_eq!(tip_behind(&res, 0), Some(default_tip()));
    assert_eq!(tip_behind(&res, 1), None);
    assert_eq!(tip_behind(&res, 2), None);
    assert_eq!(tip_behind(&res, 3), None);
    assert_eq!(tip_behind(&res, usize::MAX), None);
    let undirected = edge.shapes(&left_node(), &right_node(), &context(false, false));
    assert_eq!(tip_behind(&undirected, 0), None);
    assert_eq!(tip_behind(&Vec::new(), 0), None);
}
