//! The message transformer end to end: frame text in, markup fragments out.

use milkman::envelope::Envelope;
use milkman::json::parse_envelope;
use milkman::markup::convert_op_mode_meta_data;
use milkman::markup::convert_robot_state;
use milkman::markup::transform_envelope;
use milkman::text::escape_html;
use milkman::text::str_eq;

const STATUS_OPEN: &str = "<div class=\"block bg-gray-200\" id=\"robot-status\" hx-oob-swap=\"true\">";
const START_CONTROL: &str = "<form class=\"contents\" ws-send hx-vals=\"{&quot;type&quot;: &quot;START_OP_MODE&quot;}\" id=\"op-mode-init-start\" hx-oob-swap=\"true\"><button class=\"bg-gray-400 mr-1\">START</button></form>";
const RUNNING_CONTROL: &str = "<form class=\"contents\" ws-send disabled hx-vals=\"{&quot;type&quot;: &quot;INIT_OP_MODE&quot;}\" id=\"op-mode-init-start\" hx-oob-swap=\"true\"><button class=\"bg-gray-400 mr-1\" disabled>RUNNING</button></form>";
const INIT_CONTROL: &str = "<form class=\"contents\" ws-send hx-vals=\"{&quot;type&quot;: &quot;INIT_OP_MODE&quot;}\" id=\"op-mode-init-start\" hx-oob-swap=\"true\"><button class=\"bg-gray-400 mr-1\">INIT</button></form>";

fn transform_text(text: &str) -> Option<String> {
    transform_envelope(&parse_envelope(text))
}

#[test]
fn invalid_json_yields_no_fragment() {
    assert_eq!(transform_text("{not json at all"), None);
    assert_eq!(transform_text(""), None);
    assert_eq!(transform_text("\"just a string\","), None);
}

#[test]
fn missing_type_yields_no_fragment() {
    assert_eq!(transform_text("{\"activeOpModeName\":\"Auto1\"}"), None);
    assert_eq!(transform_text("[1,2,3]"), None);
    assert_eq!(transform_text("{\"type\":5}"), None);
    assert_eq!(transform_text("null"), None);
}

#[test]
fn unrecognized_type_yields_no_fragment() {
    let env = parse_envelope("{\"type\":\"SOMETHING_ELSE\"}");
    assert!(matches!(env, Envelope::Unrecognized));
    assert_eq!(transform_envelope(&env), None);
}

#[test]
fn robot_state_missing_field_is_dropped() {
    // A recognized variant with an absent or mistyped payload field is
    // dropped, not an error and not a panic.
    assert_eq!(
        transform_text("{\"type\":\"ROBOT_STATE\",\"activeOpModeName\":\"Auto1\",\"opModeState\":\"INIT\"}"),
        None
    );
    assert_eq!(
        transform_text("{\"type\":\"ROBOT_STATE\",\"activeOpModeName\":7,\"opModeState\":\"INIT\",\"flavour\":\"TELEOP\"}"),
        None
    );
}

#[test]
fn robot_state_init_offers_start() {
    let out = transform_text(
        "{\"type\":\"ROBOT_STATE\",\"activeOpModeName\":\"Auto1\",\"opModeState\":\"INIT\",\"flavour\":\"DRIVER_CONTROLLED\"}",
    )
    .expect("a ROBOT_STATE envelope always yields a fragment");
    let expected = format!("{STATUS_OPEN}Auto1 INIT</div>{START_CONTROL}");
    assert_eq!(out, expected);
    assert!(out.contains("Auto1 INIT"));
    assert!(out.contains(">START<"));
    assert!(!out.contains("RUNNING"));
    assert!(!out.contains(">INIT<"));
}

#[test]
fn robot_state_active_shows_disabled_running() {
    let out = transform_text(
        "{\"type\":\"ROBOT_STATE\",\"activeOpModeName\":\"Tele1\",\"opModeState\":\"ACTIVE\",\"flavour\":\"TELEOP\"}",
    )
    .expect("a ROBOT_STATE envelope always yields a fragment");
    let expected = format!("{STATUS_OPEN}Tele1 ACTIVE</div>{RUNNING_CONTROL}");
    assert_eq!(out, expected);
    assert!(out.contains("disabled>RUNNING<"));
}

#[test]
fn robot_state_stopped_system_offers_init() {
    let out = transform_text(
        "{\"type\":\"ROBOT_STATE\",\"activeOpModeName\":\"Idle\",\"opModeState\":\"STOPPED\",\"flavour\":\"SYSTEM\"}",
    )
    .expect("a ROBOT_STATE envelope always yields a fragment");
    let expected = format!("{STATUS_OPEN}Idle STOPPED</div>{INIT_CONTROL}");
    assert_eq!(out, expected);
    assert!(out.contains(">INIT<"));
}

#[test]
fn active_system_op_mode_falls_to_init() {
    // The RUNNING control is only for non-system op modes; an active system
    // op mode takes the default branch.
    let out = transform_text(
        "{\"type\":\"ROBOT_STATE\",\"activeOpModeName\":\"Sys\",\"opModeState\":\"ACTIVE\",\"flavour\":\"SYSTEM\"}",
    )
    .expect("a ROBOT_STATE envelope always yields a fragment");
    let expected = format!("{STATUS_OPEN}Sys ACTIVE</div>{INIT_CONTROL}");
    assert_eq!(out, expected);
}

#[test]
fn meta_data_preserves_group_and_option_order() {
    let out = transform_text(
        "{\"type\":\"RETURN_OP_MODE_META_DATA\",\"metadata\":{\"A\":[{\"name\":\"x\"}],\"B\":[{\"name\":\"y\"},{\"name\":\"z\"}]}}",
    )
    .expect("a RETURN_OP_MODE_META_DATA envelope always yields a fragment");
    let expected = "<select class=\"block bg-gray-300\" id=\"op-mode-name\" name=\"name\" hx-oob-swap=\"true\" form=\"op-mode-init-start\"><opgroup label=\"A\"><option>x</option></opgroup><opgroup label=\"B\"><option>y</option><option>z</option></opgroup></select>";
    assert_eq!(out, expected);
    let a_at = out.find("label=\"A\"").unwrap();
    let b_at = out.find("label=\"B\"").unwrap();
    assert!(a_at < b_at);
    let y_at = out.find("<option>y").unwrap();
    let z_at = out.find("<option>z").unwrap();
    assert!(y_at < z_at);
}

#[test]
fn meta_data_empty_mapping_renders_empty_select() {
    let out = transform_text("{\"type\":\"RETURN_OP_MODE_META_DATA\",\"metadata\":{}}")
        .expect("a RETURN_OP_MODE_META_DATA envelope always yields a fragment");
    let expected = "<select class=\"block bg-gray-300\" id=\"op-mode-name\" name=\"name\" hx-oob-swap=\"true\" form=\"op-mode-init-start\"></select>";
    assert_eq!(out, expected);
}

#[test]
fn meta_data_bad_payload_is_dropped() {
    assert_eq!(transform_text("{\"type\":\"RETURN_OP_MODE_META_DATA\"}"), None);
    assert_eq!(
        transform_text("{\"type\":\"RETURN_OP_MODE_META_DATA\",\"metadata\":{\"A\":5}}"),
        None
    );
    assert_eq!(
        transform_text("{\"type\":\"RETURN_OP_MODE_META_DATA\",\"metadata\":{\"A\":[{\"label\":\"x\"}]}}"),
        None
    );
}

#[test]
fn fragment_text_is_escaped() {
    let out = transform_text(
        "{\"type\":\"ROBOT_STATE\",\"activeOpModeName\":\"<A&B>\",\"opModeState\":\"INIT\",\"flavour\":\"TELEOP\"}",
    )
    .expect("a ROBOT_STATE envelope always yields a fragment");
    assert!(out.contains("&lt;A&amp;B&gt; INIT"));
    assert!(!out.contains("<A&B>"));
}

#[test]
fn renderers_accept_library_values_directly() {
    let rs = milkman::envelope::RobotState {
        active_op_mode_name: String::from("Auto1"),
        op_mode_state: String::from("INIT"),
        flavour: String::from("DRIVER_CONTROLLED"),
    };
    let out = convert_robot_state(&rs);
    assert_eq!(out, format!("{STATUS_OPEN}Auto1 INIT</div>{START_CONTROL}"));

    let groups = vec![milkman::envelope::OpModeGroup {
        label: String::from("G\"1"),
        names: vec![String::from("n1"), String::from("n2")],
    }];
    let out = convert_op_mode_meta_data(&groups);
    assert!(out.contains("<opgroup label=\"G&quot;1\"><option>n1</option><option>n2</option></opgroup>"));
}

#[test]
fn escape_html_rewrites_special_characters() {
    assert_eq!(escape_html("a<b&c\"d>e"), "a&lt;b&amp;c&quot;d&gt;e");
    assert_eq!(escape_html(""), "");
    assert_eq!(escape_html("plain"), "plain");
}

#[test]
fn str_eq_decides_equality() {
    assert!(str_eq("INIT", "INIT"));
    assert!(!str_eq("INIT", "INIT "));
    assert!(!str_eq("ACTIVE", "INIT"));
    assert!(str_eq("", ""));
}
