//! Drawing plans for the edges of a node-link graph view.
//!
//! An edge is drawn either as a straight stroke, as a bent cubic (when it
//! shares its endpoints with other edges) or as a closed loop (when both
//! endpoints are the same node). This crate decides, for one edge and one
//! frame, which primitives are painted, in which order, with which stroke,
//! arrow tip and label, and which colour the payload's sign gives them.
//!
//! Coordinates and sizes are carried as opaque single-precision bit patterns
//! (`Scalar`): the crate never does arithmetic on them. Turning a primitive
//! into pixels is the renderer's part.

pub mod scalar;
pub mod color;
pub mod primitive;
pub mod props;
pub mod builder;
pub mod edge;
pub mod placement;
pub mod laws;

pub use color::{color_for, EdgeColor, Payload, Rgba};
pub use scalar::{Point, Scalar};
pub use builder::EdgeShapeBuilder;
pub use edge::{DrawContext, GvizorEdgeShape, Node, SettingsStyle};
pub use placement::{median, median_index};
pub use primitive::{
    tip_behind, EdgePath, Label, LabelAnchor, LabelSize, Primitive, PrimitiveKind, Stroke,
    TipProps, Topology,
};
pub use props::{DefaultEdgeShape, EdgeProps};
