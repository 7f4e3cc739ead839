//! Rendering of telemetry envelopes into markup fragments.
//!
//! Every fragment targets a fixed element id and is marked for out-of-band
//! replacement, so the client can swap it in wherever the element lives.
//! The specification functions below give the exact text produced, so the
//! contracts pin each renderer down to the character.

use vstd::prelude::*;
use vstd::string::*;

use crate::envelope::Envelope;
use crate::envelope::OpModeGroup;
use crate::envelope::RobotState;
use crate::envelope::group_view;
use crate::envelope::groups_view;
use crate::json::decoded;
use crate::json::groups_of;
use crate::json::string_field_of;
use crate::text::escape_html;
use crate::text::escaped;
use crate::text::str_eq;

verus! {

/// The status fragment: op-mode name and state, separated by one space,
/// in the fixed status element.
pub open spec fn status_markup(name: Seq<char>, state: Seq<char>) -> Seq<char> {
    "<div class=\"block bg-gray-200\" id=\"robot-status\" hx-oob-swap=\"true\">"@ + escaped(name)
        + " "@ + escaped(state) + "</div>"@
}

/// The enabled "START" control, offered while an op mode is initialized.
pub open spec fn start_control_markup() -> Seq<char> {
    "<form class=\"contents\" ws-send hx-vals=\"{&quot;type&quot;: &quot;START_OP_MODE&quot;}\" id=\"op-mode-init-start\" hx-oob-swap=\"true\"><button class=\"bg-gray-400 mr-1\">START</button></form>"@
}

/// The disabled "RUNNING" control, shown while a user op mode is active.
pub open spec fn running_control_markup() -> Seq<char> {
    "<form class=\"contents\" ws-send disabled hx-vals=\"{&quot;type&quot;: &quot;INIT_OP_MODE&quot;}\" id=\"op-mode-init-start\" hx-oob-swap=\"true\"><button class=\"bg-gray-400 mr-1\" disabled>RUNNING</button></form>"@
}

/// The enabled "INIT" control, the default offering.
pub open spec fn init_control_markup() -> Seq<char> {
    "<form class=\"contents\" ws-send hx-vals=\"{&quot;type&quot;: &quot;INIT_OP_MODE&quot;}\" id=\"op-mode-init-start\" hx-oob-swap=\"true\"><button class=\"bg-gray-400 mr-1\">INIT</button></form>"@
}

/// Exactly one control fragment, chosen in fixed priority order:
/// an op mode in `INIT` state offers "START"; an active non-system op mode
/// shows the disabled "RUNNING"; everything else offers "INIT".
pub open spec fn control_markup(state: Seq<char>, flavour: Seq<char>) -> Seq<char> {
    if state == "INIT"@ {
        start_control_markup()
    } else if flavour != "SYSTEM"@ && state == "ACTIVE"@ {
        running_control_markup()
    } else {
        init_control_markup()
    }
}

/// The full output for a `ROBOT_STATE` envelope: the status fragment
/// followed by its one control fragment.
pub open spec fn robot_state_markup(rs: RobotState) -> Seq<char> {
    status_markup(rs.active_op_mode_name@, rs.op_mode_state@)
        + control_markup(rs.op_mode_state@, rs.flavour@)
}

/// One selectable option; its visible text is the op-mode name.
pub open spec fn option_markup(name: Seq<char>) -> Seq<char> {
    "<option>"@ + escaped(name) + "</option>"@
}

/// The options of one group, in list order.
pub open spec fn options_markup(names: Seq<Seq<char>>) -> Seq<char>
    decreases names.len(),
{
    if names.len() == 0 {
        Seq::empty()
    } else {
        options_markup(names.drop_last()) + option_markup(names.last())
    }
}

/// The option names of a group, as character sequences.
pub open spec fn group_names(g: OpModeGroup) -> Seq<Seq<char>> {
    g.names@.map_values(|n: String| n@)
}

/// One labeled option group, over its label and option names.
pub open spec fn group_markup_view(label: Seq<char>, names: Seq<Seq<char>>) -> Seq<char> {
    "<opgroup label=\""@ + escaped(label) + "\">"@ + options_markup(names) + "</opgroup>"@
}

/// One labeled option group.
pub open spec fn group_markup(g: OpModeGroup) -> Seq<char> {
    group_markup_view(g.label@, group_names(g))
}

/// All groups, in the order they were handed over, as `(label, names)`
/// views.
pub open spec fn groups_markup_view(gs: Seq<(Seq<char>, Seq<Seq<char>>)>) -> Seq<char>
    decreases gs.len(),
{
    if gs.len() == 0 {
        Seq::empty()
    } else {
        groups_markup_view(gs.drop_last()) + group_markup_view(gs.last().0, gs.last().1)
    }
}

/// All groups, in the order they were handed over.
pub open spec fn groups_markup(gs: Seq<OpModeGroup>) -> Seq<char>
    decreases gs.len(),
{
    if gs.len() == 0 {
        Seq::empty()
    } else {
        groups_markup(gs.drop_last()) + group_markup(gs.last())
    }
}

/// The two renderings of a group list agree.
pub proof fn lemma_groups_markup_view(gs: Seq<OpModeGroup>)
    ensures
        groups_markup_view(groups_view(gs)) == groups_markup(gs),
    decreases gs.len(),
{
    if gs.len() == 0 {
        assert(groups_view(gs) =~= Seq::<(Seq<char>, Seq<Seq<char>>)>::empty());
    } else {
        lemma_groups_markup_view(gs.drop_last());
        assert(groups_view(gs).drop_last() =~= groups_view(gs.drop_last()));
        assert(groups_view(gs).last() == group_view(gs.last()));
    }
}

/// The selectable control around a rendered group list.
pub open spec fn select_markup(groups_part: Seq<char>) -> Seq<char> {
    "<select class=\"block bg-gray-300\" id=\"op-mode-name\" name=\"name\" hx-oob-swap=\"true\" form=\"op-mode-init-start\">"@
        + groups_part + "</select>"@
}

/// The grouped-options fragment for a `RETURN_OP_MODE_META_DATA` envelope,
/// replacing the fixed selectable control out-of-band.
pub open spec fn meta_data_markup(gs: Seq<OpModeGroup>) -> Seq<char> {
    select_markup(groups_markup(gs))
}

/// Render the two fragments for a `ROBOT_STATE` envelope.
pub fn convert_robot_state(rs: &RobotState) -> (r: String)
    ensures
        r@ == robot_state_markup(*rs),
{
    let mut out = String::new();
    out.append("<div class=\"block bg-gray-200\" id=\"robot-status\" hx-oob-swap=\"true\">");
    let esc_name = escape_html(rs.active_op_mode_name.as_str());
    out.append(esc_name.as_str());
    out.append(" ");
    let esc_state = escape_html(rs.op_mode_state.as_str());
    out.append(esc_state.as_str());
    out.append("</div>");
    if str_eq(rs.op_mode_state.as_str(), "INIT") {
        out.append(
            "<form class=\"contents\" ws-send hx-vals=\"{&quot;type&quot;: &quot;START_OP_MODE&quot;}\" id=\"op-mode-init-start\" hx-oob-swap=\"true\"><button class=\"bg-gray-400 mr-1\">START</button></form>",
        );
    } else if !str_eq(rs.flavour.as_str(), "SYSTEM") && str_eq(
        rs.op_mode_state.as_str(),
        "ACTIVE",
    ) {
        out.append(
            "<form class=\"contents\" ws-send disabled hx-vals=\"{&quot;type&quot;: &quot;INIT_OP_MODE&quot;}\" id=\"op-mode-init-start\" hx-oob-swap=\"true\"><button class=\"bg-gray-400 mr-1\" disabled>RUNNING</button></form>",
        );
    } else {
        out.append(
            "<form class=\"contents\" ws-send hx-vals=\"{&quot;type&quot;: &quot;INIT_OP_MODE&quot;}\" id=\"op-mode-init-start\" hx-oob-swap=\"true\"><button class=\"bg-gray-400 mr-1\">INIT</button></form>",
        );
    }
    out
}

/// Render the grouped-options fragment for op-mode metadata.
pub fn convert_op_mode_meta_data(groups: &Vec<OpModeGroup>) -> (r: String)
    ensures
        r@ == meta_data_markup(groups@),
{
    let mut out = String::new();
    out.append(
        "<select class=\"block bg-gray-300\" id=\"op-mode-name\" name=\"name\" hx-oob-swap=\"true\" form=\"op-mode-init-start\">",
    );
    let mut i: usize = 0;
    while i < groups.len()
        invariant
            i <= groups@.len(),
            out@ == "<select class=\"block bg-gray-300\" id=\"op-mode-name\" name=\"name\" hx-oob-swap=\"true\" form=\"op-mode-init-start\">"@
                + groups_markup(groups@.subrange(0, i as int)),
        decreases groups@.len() - i,
    {
        let g = &groups[i];
        out.append("<opgroup label=\"");
        let esc_label = escape_html(g.label.as_str());
        out.append(esc_label.as_str());
        out.append("\">");
        let mut j: usize = 0;
        while j < g.names.len()
            invariant
                j <= g.names@.len(),
                g == groups@[i as int],
                i < groups@.len(),
                out@ == "<select class=\"block bg-gray-300\" id=\"op-mode-name\" name=\"name\" hx-oob-swap=\"true\" form=\"op-mode-init-start\">"@
                    + groups_markup(groups@.subrange(0, i as int)) + "<opgroup label=\""@
                    + escaped(g.label@) + "\">"@ + options_markup(
                    group_names(*g).subrange(0, j as int),
                ),
            decreases g.names@.len() - j,
        {
            out.append("<option>");
            let esc_name = escape_html(g.names[j].as_str());
            out.append(esc_name.as_str());
            out.append("</option>");
            proof {
                let ns = group_names(*g);
                assert(ns[j as int] == g.names@[j as int]@);
                assert(ns.subrange(0, j as int + 1).drop_last() =~= ns.subrange(0, j as int));
                assert(ns.subrange(0, j as int + 1).last() == ns[j as int]);
            }
            j += 1;
        }
        out.append("</opgroup>");
        proof {
            let ns = group_names(*g);
            assert(ns.subrange(0, g.names@.len() as int) =~= ns);
            let pre = groups@.subrange(0, i as int + 1);
            assert(pre.drop_last() =~= groups@.subrange(0, i as int));
            assert(pre.last() == groups@[i as int]);
        }
        i += 1;
    }
    out.append("</select>");
    proof {
        assert(groups@.subrange(0, groups@.len() as int) =~= groups@);
    }
    out
}

/// Dispatch one decoded envelope to its renderer.
///
/// A recognized envelope yields exactly one text frame; an unrecognized or
/// malformed one yields none, and never an error.
pub fn transform_envelope(env: &Envelope) -> (r: Option<String>)
    ensures
        (r is Some) == (transform_spec(*env) is Some),
        r matches Some(s) ==> transform_spec(*env) == Some(s@),
{
    match env {
        Envelope::RobotState(rs) => Some(convert_robot_state(rs)),
        Envelope::OpModeMetaData(groups) => Some(convert_op_mode_meta_data(groups)),
        Envelope::Unrecognized => None,
        Envelope::Malformed => None,
    }
}

/// What `transform_envelope` returns for each envelope.
pub open spec fn transform_spec(env: Envelope) -> Option<Seq<char>> {
    match env {
        Envelope::RobotState(rs) => Some(robot_state_markup(rs)),
        Envelope::OpModeMetaData(groups) => Some(meta_data_markup(groups@)),
        Envelope::Unrecognized => None,
        Envelope::Malformed => None,
    }
}

/// The fragment owed for one frame text, over the named parse results:
/// `Some` exactly for a recognized envelope with a good payload, and then
/// the renderer's markup for the named field values.
pub open spec fn text_fragment_of(s: Seq<char>) -> Option<Seq<char>> {
    match string_field_of(s, "type"@) {
        None => None,
        Some(ty) => if ty == "ROBOT_STATE"@ {
            match (
                string_field_of(s, "activeOpModeName"@),
                string_field_of(s, "opModeState"@),
                string_field_of(s, "flavour"@),
            ) {
                (Some(n), Some(st), Some(fl)) => Some(
                    status_markup(n, st) + control_markup(st, fl),
                ),
                _ => None,
            }
        } else if ty == "RETURN_OP_MODE_META_DATA"@ {
            match groups_of(s, "metadata"@, "name"@) {
                Some(gs) => Some(select_markup(groups_markup_view(gs))),
                None => None,
            }
        } else {
            None
        },
    }
}

/// Decoding then transforming a frame text yields exactly the fragment the
/// text owes: the transformer is a function of the frame alone.
pub proof fn lemma_decoded_transform(s: Seq<char>, env: Envelope)
    requires
        decoded(s, env),
    ensures
        transform_spec(env) == text_fragment_of(s),
{
    if let Envelope::OpModeMetaData(groups) = env {
        lemma_groups_markup_view(groups@);
    }
}

} // verus!
