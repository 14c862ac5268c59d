//! Namespace path composition: the resolution grammar case by case.

use aml_core::path::get_namespace_string;
use aml_core::value::AmlValue;

fn resolve(current: &str, modifier: &str) -> String {
    get_namespace_string(current.to_string(), AmlValue::String(modifier.to_string()))
}

#[test]
fn empty_scope_yields_the_name() {
    assert_eq!(resolve("", "FOO"), "FOO");
}

#[test]
fn empty_name_yields_the_scope() {
    assert_eq!(resolve("\\_SB", ""), "\\_SB");
}

#[test]
fn absolute_name_replaces_the_scope() {
    assert_eq!(resolve("\\_SB", "\\_TZ"), "\\_TZ");
}

#[test]
fn relative_name_is_joined_with_a_separator() {
    assert_eq!(resolve("\\_SB", "PCI0"), "\\_SB.PCI0");
}

#[test]
fn no_extra_separator_after_the_root_marker() {
    assert_eq!(resolve("\\", "PCI0"), "\\PCI0");
}

#[test]
fn one_parent_marker_pops_one_level() {
    assert_eq!(resolve("\\_SB.PCI0", "^UART"), "\\_SB.UART");
}

#[test]
fn each_parent_marker_pops_a_level() {
    assert_eq!(resolve("\\_SB.PCI0.ISA0", "^^COM1"), "\\_SB.COM1");
}

#[test]
fn popping_at_the_root_stays_at_the_root() {
    assert_eq!(resolve("\\_SB", "^^FOO"), "\\FOO");
}

#[test]
fn parent_markers_alone_yield_the_popped_scope() {
    assert_eq!(resolve("\\_SB.PCI0", "^"), "\\_SB");
}

#[test]
fn non_string_modifier_falls_back_to_the_scope() {
    assert_eq!(
        get_namespace_string("\\_SB".to_string(), AmlValue::Integer(4)),
        "\\_SB"
    );
    assert_eq!(
        get_namespace_string("\\_SB".to_string(), AmlValue::Absent),
        "\\_SB"
    );
}

#[test]
fn rules_apply_in_order_so_an_empty_scope_wins() {
    // With an empty scope the name is yielded as it stands, markers and all.
    assert_eq!(resolve("", "^FOO"), "^FOO");
}

#[test]
fn relative_scope_without_root_marker_still_joins() {
    assert_eq!(resolve("_SB", "PCI0"), "_SB.PCI0");
}
