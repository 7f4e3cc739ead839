//! Typed telemetry envelopes.
//!
//! Inbound robot frames carry a JSON object with a `type` discriminator.
//! The relay models the two recognized variants as plain data, with explicit
//! cases for an unrecognized discriminator and for a frame whose payload
//! could not be read; both of the latter are dropped without producing
//! output.

use vstd::prelude::*;

verus! {

/// Payload of a `ROBOT_STATE` envelope.
#[derive(Debug)]
pub struct RobotState {
    pub active_op_mode_name: String,
    pub op_mode_state: String,
    pub flavour: String,
}

/// One labeled group of op modes from a `RETURN_OP_MODE_META_DATA` envelope.
#[derive(Debug)]
pub struct OpModeGroup {
    pub label: String,
    pub names: Vec<String>,
}

/// The view of one group: its label and its option names, in order.
pub open spec fn group_view(g: OpModeGroup) -> (Seq<char>, Seq<Seq<char>>) {
    (g.label@, g.names@.map_values(|n: String| n@))
}

/// The view of a list of groups, in order.
pub open spec fn groups_view(gs: Seq<OpModeGroup>) -> Seq<(Seq<char>, Seq<Seq<char>>)> {
    gs.map_values(|g: OpModeGroup| group_view(g))
}

/// A decoded inbound envelope.
#[derive(Debug)]
pub enum Envelope {
    /// A `ROBOT_STATE` envelope with all of its required fields present.
    RobotState(RobotState),
    /// A `RETURN_OP_MODE_META_DATA` envelope; groups keep the order in which
    /// the payload mapping was walked, options keep their list order.
    OpModeMetaData(Vec<OpModeGroup>),
    /// A well-formed JSON object whose `type` value is a string the relay
    /// does not recognize.
    Unrecognized,
    /// Anything else: invalid JSON, a missing or non-string `type` field, or
    /// a recognized variant whose payload fields are absent or mistyped.
    Malformed,
}

} // verus!
