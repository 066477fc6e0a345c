use autotools::flags::{assemble_flags, ld_env_entry};

fn s(x: &str) -> String {
    x.to_string()
}

#[test]
fn flag_order_default_env_user() {
    let r = assemble_flags("-O2", &Some(s("-g")), "-Wall");
    assert_eq!(r, s("-O2 -g -Wall"));
}

#[test]
fn flag_order_omits_empty_default() {
    let r = assemble_flags("", &Some(s("-g")), "-Wall");
    assert_eq!(r, s("-g -Wall"));
}

#[test]
fn flag_order_omits_missing_env() {
    let r = assemble_flags("-O2", &None, "-Wall");
    assert_eq!(r, s("-O2 -Wall"));
}

#[test]
fn flag_order_omits_empty_user() {
    let r = assemble_flags("-O2", &Some(s("-g")), "");
    assert_eq!(r, s("-O2 -g"));
}

#[test]
fn flag_order_all_empty() {
    let r = assemble_flags("", &None, "");
    assert_eq!(r, s(""));
}

#[test]
fn flag_order_empty_env_segment_omitted() {
    let r = assemble_flags("-O2", &Some(s("")), "-Wall");
    assert_eq!(r, s("-O2 -Wall"));
}

#[test]
fn ld_entry_absent_when_unset_and_empty() {
    assert_eq!(ld_env_entry(&None, ""), None);
}

#[test]
fn ld_entry_present_for_ambient_only() {
    assert_eq!(ld_env_entry(&Some(s("-L/x")), ""), Some(s("-L/x")));
}

#[test]
fn ld_entry_present_for_user_only() {
    assert_eq!(ld_env_entry(&None, "-lfoo"), Some(s("-lfoo")));
}

#[test]
fn ld_entry_ambient_before_user() {
    assert_eq!(ld_env_entry(&Some(s("-L/x")), "-lfoo"), Some(s("-L/x -lfoo")));
}
