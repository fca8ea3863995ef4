//! The properties of an edge, and the display state that is kept for it.

use vstd::prelude::*;
use vstd::std_specs::convert::FromSpecImpl;
use crate::scalar::Scalar;

verus! {

/// What the graph knows of an edge.
#[derive(Clone, Debug)]
pub struct EdgeProps<E> {
    /// The edge's weight; its sign picks the edge's colour.
    pub payload: E,
    /// Zero for the only edge between two nodes; otherwise the edge's index
    /// among the edges that share its endpoints.
    pub order: usize,
    pub selected: bool,
    pub label: String,
    /// The width of the edge's stroke.
    pub width: Scalar,
}

/// The encoding of 15: the default length of an arrow tip's sides.
pub const DEFAULT_TIP_SIZE: u32 = 0x4170_0000;

/// The encoding of a thirtieth of a full turn, in radians: the default
/// angle between an arrow tip's side and the edge.
pub const DEFAULT_TIP_ANGLE: u32 = 0x3e56_7750;

/// The encoding of 20: the default offset of a bent edge per unit of order.
pub const DEFAULT_CURVE_SIZE: u32 = 0x41a0_0000;

/// The encoding of 3: the default size of a loop, in node sizes.
pub const DEFAULT_LOOP_SIZE: u32 = 0x4040_0000;

/// The display state of one edge.
#[derive(Clone, Debug, PartialEq, Eq)]
pub struct DefaultEdgeShape {
    pub order: usize,
    pub selected: bool,
    pub width: Scalar,
    pub tip_size: Scalar,
    pub tip_angle: Scalar,
    pub curve_size: Scalar,
    pub loop_size: Scalar,
    pub label_text: String,
}

impl<E> FromSpecImpl<EdgeProps<E>> for DefaultEdgeShape {
    open spec fn obeys_from_spec() -> bool {
        true
    }

    open spec fn from_spec(edge: EdgeProps<E>) -> Self {
        DefaultEdgeShape {
            order: edge.order,
            selected: edge.selected,
            width: edge.width,
            tip_size: Scalar { bits: DEFAULT_TIP_SIZE },
            tip_angle: Scalar { bits: DEFAULT_TIP_ANGLE },
            curve_size: Scalar { bits: DEFAULT_CURVE_SIZE },
            loop_size: Scalar { bits: DEFAULT_LOOP_SIZE },
            label_text: edge.label,
        }
    }
}

impl<E> From<EdgeProps<E>> for DefaultEdgeShape {
    /// The display state of a new edge: order, selection, width and label
    /// are the edge's, the other measures are the defaults.
    fn from(edge: EdgeProps<E>) -> (shape: Self) {
        DefaultEdgeShape {
            order: edge.order,
            selected: edge.selected,
            width: edge.width,
            tip_size: Scalar { bits: DEFAULT_TIP_SIZE },
            tip_angle: Scalar { bits: DEFAULT_TIP_ANGLE },
            curve_size: Scalar { bits: DEFAULT_CURVE_SIZE },
            loop_size: Scalar { bits: DEFAULT_LOOP_SIZE },
            label_text: edge.label,
        }
    }
}

impl DefaultEdgeShape {
    /// Takes order, selection, width and label from the edge's properties.
    /// The measures of tip, bend and loop stay as they are.
    pub fn update<E>(&mut self, state: &EdgeProps<E>)
        ensures
            final(self).order == state.order,
            final(self).selected == state.selected,
            final(self).width == state.width,
            final(self).label_text@ == state.label@,
            final(self).tip_size == old(self).tip_size,
            final(self).tip_angle == old(self).tip_angle,
            final(self).curve_size == old(self).curve_size,
            final(self).loop_size == old(self).loop_size,
    {
        self.order = state.order;
        self.selected = state.selected;
        self.width = state.width;
        self.label_text = state.label.clone();
    }
}

} // verus!
