use autotools::triple::derive_host;

fn s(x: &str) -> String {
    x.to_string()
}

#[test]
fn cross_compiler_name_yields_host() {
    assert_eq!(derive_host("i686-pc-windows-gnu-gcc"), Some(s("i686-pc-windows-gnu")));
}

#[test]
fn cc_suffix_is_stripped() {
    assert_eq!(derive_host("aarch64-linux-musl-cc"), Some(s("aarch64-linux-musl")));
}

#[test]
fn musl_wrapper_yields_no_host() {
    assert_eq!(derive_host("musl-gcc"), None);
}

#[test]
fn plain_cc_yields_no_host() {
    assert_eq!(derive_host("cc"), None);
}

#[test]
fn plain_gcc_yields_no_host() {
    assert_eq!(derive_host("gcc"), None);
}

#[test]
fn clang_yields_no_host() {
    assert_eq!(derive_host("clang"), None);
}

#[test]
fn shortest_cc_suffix_match() {
    assert_eq!(derive_host("x-cc"), Some(s("x")));
}

#[test]
fn bare_cc_suffix_leaves_no_triple() {
    assert_eq!(derive_host("-cc"), None);
}

#[test]
fn bare_gcc_suffix_leaves_no_triple() {
    assert_eq!(derive_host("-gcc"), None);
}

#[test]
fn cc_suffix_is_checked_before_gcc_suffix() {
    assert_eq!(derive_host("arm-gcc-cc"), Some(s("arm-gcc")));
}
