use rock_runtime::plugin::{
    label_for_plugin_op, plugin_for_prefix, plugin_opcode, split_plugin_opcode, PluginComposer,
    PluginName,
};

const ALL: [PluginName; 13] = [
    PluginName::Entity,
    PluginName::Farcaster,
    PluginName::Input,
    PluginName::Layer,
    PluginName::Memory,
    PluginName::On,
    PluginName::Player,
    PluginName::Room,
    PluginName::Scene,
    PluginName::Timer,
    PluginName::Constants,
    PluginName::Json,
    PluginName::Rock,
];

#[test]
fn plugin_names_have_their_texts() {
    assert_eq!(PluginName::Entity.as_str(), "entity");
    assert_eq!(PluginName::Farcaster.as_str(), "fc");
    assert_eq!(PluginName::Constants.as_str(), "Const");
    assert_eq!(PluginName::Json.as_str(), "json");
}

#[test]
fn plugin_name_text_round_trip() {
    for n in ALL {
        assert_eq!(PluginName::parse(n.as_str()), Some(n));
    }
}

#[test]
fn plugin_name_parse_is_case_sensitive() {
    assert_eq!(PluginName::parse("const"), None);
    assert_eq!(PluginName::parse("FC"), None);
    assert_eq!(PluginName::parse(""), None);
    assert_eq!(PluginName::parse("farcaster"), None);
}

#[test]
fn opcode_is_uppercase_name_underscore_op() {
    assert_eq!(plugin_opcode(PluginName::Farcaster, "CAST_GET"), "FC_CAST_GET");
    assert_eq!(plugin_opcode(PluginName::Memory, "RECALL"), "MEMORY_RECALL");
    assert_eq!(plugin_opcode(PluginName::Constants, "X"), "CONST_X");
}

#[test]
fn opcode_splits_at_first_underscore() {
    let (a, b) = split_plugin_opcode("FC_CAST_GET").unwrap();
    assert_eq!(a, "FC");
    assert_eq!(b, "CAST_GET");
    let (a, b) = split_plugin_opcode("_X").unwrap();
    assert_eq!(a, "");
    assert_eq!(b, "X");
    assert!(split_plugin_opcode("NOUNDERSCORE").is_none());
}

#[test]
fn label_lowercases_both_parts() {
    assert_eq!(label_for_plugin_op("FC", "CAST_GET"), "fc.cast_get");
    assert_eq!(label_for_plugin_op("ÉTÉ", "À"), "été.à");
}

#[test]
fn every_plugin_but_constants_routes_back() {
    for n in ALL {
        let opcode = plugin_opcode(n, "SOME_OP");
        let (prefix, op) = split_plugin_opcode(&opcode).unwrap();
        assert_eq!(op, "SOME_OP");
        let routed = plugin_for_prefix(&prefix);
        if n == PluginName::Constants {
            assert_eq!(routed, None);
        } else {
            assert_eq!(routed, Some(n));
        }
    }
}

#[test]
fn composer_keeps_the_first_plugin_under_a_name() {
    let mut c: PluginComposer<u32> = PluginComposer::new();
    assert!(c.add_plugin(PluginName::Entity, 1));
    assert!(!c.add_plugin(PluginName::Entity, 2));
    assert_eq!(c.get(PluginName::Entity), Some(&1));
    assert!(c.contains(PluginName::Entity));
    assert!(!c.contains(PluginName::Timer));
}

#[test]
fn composer_remove_then_consume() {
    let mut c: PluginComposer<&str> = PluginComposer::new();
    c.add_plugin(PluginName::On, "on");
    c.add_plugin(PluginName::Timer, "timer");
    assert_eq!(c.remove_plugin(PluginName::On), Some("on"));
    assert_eq!(c.remove_plugin(PluginName::On), None);
    let all = c.consume_plugins();
    assert_eq!(all, vec![(PluginName::Timer, "timer")]);
}
