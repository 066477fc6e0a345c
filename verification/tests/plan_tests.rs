use autotools::compiler::CompilerInfo;
use autotools::config::{Config, ShellProbe};
use autotools::fingerprint::configure_must_run;
use autotools::plan::{ConfigureInputs, MakeInputs, PathPair};

fn s(x: &str) -> String {
    x.to_string()
}

fn plain_compiler(path: &str) -> CompilerInfo {
    CompilerInfo { path: s(path), cflags: s(""), env: Vec::new() }
}

fn linux_inputs() -> ConfigureInputs {
    ConfigureInputs {
        target_env: Some(s("x86_64-unknown-linux-gnu")),
        host_env: Some(s("x86_64-unknown-linux-gnu")),
        out_dir_env: Some(s("/tmp/out")),
        cflags_env: None,
        cxxflags_env: None,
        ldflags_env: None,
        path_translation: None,
    }
}

fn plain_make_inputs() -> MakeInputs {
    MakeInputs {
        target_env: Some(s("x86_64-unknown-linux-gnu")),
        out_dir_env: Some(s("/tmp/out")),
        make_env: None,
        num_jobs: None,
        jobserver_flags: None,
        jobserver_supported: true,
    }
}

fn fresh_config(path: &str) -> Config {
    Config::new(path, &ShellProbe::Working)
}

#[test]
fn default_build_is_static_install_in_build_subdirectory() {
    let cfg = fresh_config("/src/foo");
    let plan = cfg
        .try_build(&linux_inputs(), &plain_compiler("cc"), &plain_compiler("c++"), &plain_make_inputs())
        .unwrap();
    assert_eq!(plan.configure.configure.program, s("/src/foo/configure"));
    assert_eq!(
        plan.configure.configure.args,
        vec![s("--prefix=/tmp/out"), s("--disable-shared"), s("--enable-static")]
    );
    assert_eq!(plan.configure.out_dir, s("/tmp/out"));
    assert_eq!(plan.configure.build_dir, s("/tmp/out/build"));
    assert!(plan.configure.create_build_dir);
    assert!(plan.configure.reconfigure.is_none());
    assert_eq!(plan.make.make.program, s("make"));
    assert_eq!(plan.make.make.args, vec![s("install")]);
    assert_eq!(plan.make.make.dir, s("/tmp/out/build"));
    assert_eq!(plan.make.out_dir, s("/tmp/out"));
}

#[test]
fn enable_option_token_is_order_preserved() {
    let mut cfg = fresh_config("/src/foo");
    cfg.enable("feature", Some("x"));
    cfg.with("dep", None);
    let plan = cfg
        .try_configure(&linux_inputs(), &plain_compiler("cc"), &plain_compiler("c++"))
        .unwrap();
    assert_eq!(
        plan.configure.args,
        vec![
            s("--prefix=/tmp/out"),
            s("--disable-shared"),
            s("--enable-static"),
            s("--enable-feature=x"),
            s("--with-dep"),
        ]
    );
}

#[test]
fn linkage_toggles_render_both_ways() {
    let mut cfg = fresh_config("/src/foo");
    cfg.enable_shared();
    cfg.disable_static();
    let plan = cfg
        .try_configure(&linux_inputs(), &plain_compiler("cc"), &plain_compiler("c++"))
        .unwrap();
    assert_eq!(
        plan.configure.args,
        vec![s("--prefix=/tmp/out"), s("--enable-shared"), s("--disable-static")]
    );
}

#[test]
fn cross_compiler_appends_derived_host() {
    let cfg = fresh_config("/src/foo");
    let plan = cfg
        .try_configure(
            &linux_inputs(),
            &plain_compiler("i686-pc-windows-gnu-gcc"),
            &plain_compiler("i686-pc-windows-gnu-g++"),
        )
        .unwrap();
    assert_eq!(plan.configure.args.last().unwrap(), &s("--host=i686-pc-windows-gnu"));
}

#[test]
fn explicit_host_option_wins_over_derivation() {
    let mut cfg = fresh_config("/src/foo");
    cfg.config_option("host", Some("mips-unknown-linux-gnu"));
    let plan = cfg
        .try_configure(
            &linux_inputs(),
            &plain_compiler("i686-pc-windows-gnu-gcc"),
            &plain_compiler("i686-pc-windows-gnu-g++"),
        )
        .unwrap();
    let hosts: Vec<&String> =
        plan.configure.args.iter().filter(|a| a.starts_with("--host")).collect();
    assert_eq!(hosts, vec![&s("--host=mips-unknown-linux-gnu")]);
}

#[test]
fn suffix_only_compiler_name_gets_no_derived_host() {
    let cfg = fresh_config("/src/foo");
    let plan = cfg
        .try_configure(&linux_inputs(), &plain_compiler("-gcc"), &plain_compiler("-g++"))
        .unwrap();
    assert!(plan.configure.args.iter().all(|a| !a.starts_with("--host")));
}

#[test]
fn musl_wrapper_gets_no_derived_host() {
    let cfg = fresh_config("/src/foo");
    let plan = cfg
        .try_configure(&linux_inputs(), &plain_compiler("musl-gcc"), &plain_compiler("c++"))
        .unwrap();
    assert!(plan.configure.args.iter().all(|a| !a.starts_with("--host")));
}

#[test]
fn forbidden_name_drops_option_from_command() {
    let mut cfg = fresh_config("/src/foo");
    cfg.with("zlib", Some("/usr"));
    cfg.with("zlib2", None);
    cfg.forbid("with-zlib");
    let plan = cfg
        .try_configure(&linux_inputs(), &plain_compiler("cc"), &plain_compiler("c++"))
        .unwrap();
    assert_eq!(
        plan.configure.args,
        vec![
            s("--prefix=/tmp/out"),
            s("--disable-shared"),
            s("--enable-static"),
            s("--with-zlib2"),
        ]
    );
}

#[test]
fn flag_classes_are_assembled_into_envs() {
    let mut cfg = fresh_config("/src/foo");
    cfg.cflag("-a");
    cfg.cflag("-b");
    cfg.cxxflag("-x");
    cfg.ldflag("-lfoo");
    let mut inp = linux_inputs();
    inp.cflags_env = Some(s("-env"));
    let c = CompilerInfo { path: s("cc"), cflags: s("-dflt"), env: Vec::new() };
    let plan = cfg.try_configure(&inp, &c, &plain_compiler("c++")).unwrap();
    assert_eq!(
        plan.configure.envs,
        vec![
            (s("CFLAGS"), s("-dflt -env -a -b")),
            (s("CXXFLAGS"), s("-x")),
            (s("LDFLAGS"), s("-lfoo")),
            (s("CC"), s("cc")),
            (s("CXX"), s("c++")),
        ]
    );
}

#[test]
fn ldflags_env_is_absent_without_linker_flags() {
    let cfg = fresh_config("/src/foo");
    let plan = cfg
        .try_configure(&linux_inputs(), &plain_compiler("cc"), &plain_compiler("c++"))
        .unwrap();
    assert!(plan.configure.envs.iter().all(|kv| kv.0 != s("LDFLAGS")));
}

#[test]
fn compiler_envs_come_before_caller_overrides() {
    let mut cfg = fresh_config("/src/foo");
    cfg.env("LC_ALL", "C.UTF-8");
    let c = CompilerInfo {
        path: s("cc"),
        cflags: s(""),
        env: vec![(s("LC_ALL"), s("C"))],
    };
    let plan = cfg.try_configure(&linux_inputs(), &c, &plain_compiler("c++")).unwrap();
    let entries: Vec<&(String, String)> =
        plan.configure.envs.iter().filter(|kv| kv.0 == s("LC_ALL")).collect();
    assert_eq!(entries, vec![&(s("LC_ALL"), s("C")), &(s("LC_ALL"), s("C.UTF-8"))]);
}

#[test]
fn reconf_plans_autoreconf_in_source_directory() {
    let mut cfg = fresh_config("/src/foo");
    cfg.reconf("-ivf");
    let plan = cfg
        .try_configure(&linux_inputs(), &plain_compiler("cc"), &plain_compiler("c++"))
        .unwrap();
    let rc = plan.reconfigure.unwrap();
    assert_eq!(rc.program, s("autoreconf"));
    assert_eq!(rc.args, vec![s("-ivf")]);
    assert_eq!(rc.dir, s("/src/foo"));
}

#[test]
fn in_source_build_uses_source_path_and_creates_nothing() {
    let mut cfg = fresh_config("/src/foo");
    cfg.insource(true);
    let plan = cfg
        .try_configure(&linux_inputs(), &plain_compiler("cc"), &plain_compiler("c++"))
        .unwrap();
    assert_eq!(plan.out_dir, s("/src/foo"));
    assert_eq!(plan.build_dir, s("/src/foo"));
    assert!(!plan.create_build_dir);
}

#[test]
fn out_dir_override_wins_over_injected_value() {
    let mut cfg = fresh_config("/src/foo");
    cfg.out_dir("/elsewhere");
    let plan = cfg
        .try_configure(&linux_inputs(), &plain_compiler("cc"), &plain_compiler("c++"))
        .unwrap();
    assert_eq!(plan.out_dir, s("/elsewhere"));
    assert_eq!(plan.build_dir, s("/elsewhere/build"));
}

#[test]
fn path_translation_appends_prefix_and_srcdir() {
    let cfg = fresh_config("/src/foo");
    let mut inp = linux_inputs();
    inp.path_translation = Some(PathPair { prefix: s("/c/out"), srcdir: s("/c/src/foo") });
    let plan = cfg
        .try_configure(&inp, &plain_compiler("cc"), &plain_compiler("c++"))
        .unwrap();
    assert_eq!(
        plan.configure.args,
        vec![
            s("--prefix=/tmp/out"),
            s("--prefix=/c/out"),
            s("--srcdir=/c/src/foo"),
            s("--disable-shared"),
            s("--enable-static"),
        ]
    );
}

#[test]
fn identical_plans_skip_configure_on_second_call() {
    let mut cfg = fresh_config("/src/foo");
    cfg.fast_build(true);
    let first = cfg
        .try_configure(&linux_inputs(), &plain_compiler("cc"), &plain_compiler("c++"))
        .unwrap();
    let second = cfg
        .try_configure(&linux_inputs(), &plain_compiler("cc"), &plain_compiler("c++"))
        .unwrap();
    assert!(first.use_fingerprint);
    assert_eq!(first.fingerprint, second.fingerprint);
    assert!(!configure_must_run(
        second.use_fingerprint,
        true,
        &Some(first.fingerprint.clone()),
        second.fingerprint.as_str(),
    ));
}

#[test]
fn changed_flag_invalidates_fingerprint() {
    let mut cfg = fresh_config("/src/foo");
    cfg.fast_build(true);
    let first = cfg
        .try_configure(&linux_inputs(), &plain_compiler("cc"), &plain_compiler("c++"))
        .unwrap();
    cfg.cflag("-O3");
    let second = cfg
        .try_configure(&linux_inputs(), &plain_compiler("cc"), &plain_compiler("c++"))
        .unwrap();
    assert_ne!(first.fingerprint, second.fingerprint);
    assert!(configure_must_run(
        second.use_fingerprint,
        true,
        &Some(first.fingerprint.clone()),
        second.fingerprint.as_str(),
    ));
}

#[test]
fn changed_target_invalidates_fingerprint() {
    let mut cfg = fresh_config("/src/foo");
    cfg.fast_build(true);
    let first = cfg
        .try_configure(&linux_inputs(), &plain_compiler("cc"), &plain_compiler("c++"))
        .unwrap();
    cfg.target("wasm32-unknown-emscripten");
    let second = cfg
        .try_configure(&linux_inputs(), &plain_compiler("cc"), &plain_compiler("c++"))
        .unwrap();
    assert_ne!(first.fingerprint, second.fingerprint);
    let mut retargeted = fresh_config("/src/foo");
    retargeted.fast_build(true);
    retargeted.target("aarch64-unknown-linux-gnu");
    let third = retargeted
        .try_configure(&linux_inputs(), &plain_compiler("aarch64-linux-gnu-gcc"), &plain_compiler("aarch64-linux-gnu-g++"))
        .unwrap();
    assert_ne!(first.fingerprint, third.fingerprint);
}

#[test]
fn emscripten_wraps_configure_and_make() {
    let mut cfg = fresh_config("/src/foo");
    cfg.target("wasm32-unknown-emscripten");
    let plan = cfg
        .try_build(&linux_inputs(), &plain_compiler("cc"), &plain_compiler("c++"), &plain_make_inputs())
        .unwrap();
    assert_eq!(plan.configure.configure.program, s("emconfigure"));
    assert_eq!(plan.configure.configure.args[0], s("/src/foo/configure"));
    assert_eq!(plan.make.make.program, s("emmake"));
    assert_eq!(plan.make.make.args, vec![s("make"), s("install")]);
}

#[test]
fn make_env_overrides_program_name() {
    let cfg = fresh_config("/src/foo");
    let mut minp = plain_make_inputs();
    minp.make_env = Some(s("gmake"));
    let plan = cfg.try_make(&minp).unwrap();
    assert_eq!(plan.make.program, s("gmake"));
}

#[test]
fn make_targets_and_extra_args_keep_order() {
    let mut cfg = fresh_config("/src/foo");
    cfg.make_target("check");
    cfg.make_target("install");
    cfg.make_args(vec![s("V=1")]);
    let plan = cfg.try_make(&plain_make_inputs()).unwrap();
    assert_eq!(plan.make.args, vec![s("check"), s("install"), s("V=1")]);
}

#[test]
fn jobserver_value_propagates_instead_of_job_token() {
    let cfg = fresh_config("/src/foo");
    let mut minp = plain_make_inputs();
    minp.num_jobs = Some(s("4"));
    minp.jobserver_flags = Some(s("--jobserver-auth=3,4"));
    minp.jobserver_supported = true;
    let plan = cfg.try_make(&minp).unwrap();
    assert_eq!(plan.make.args, vec![s("install")]);
    assert_eq!(plan.make.envs, vec![(s("MAKEFLAGS"), s("--jobserver-auth=3,4"))]);
}

#[test]
fn unsupported_platform_falls_back_to_job_token() {
    let cfg = fresh_config("/src/foo");
    let mut minp = plain_make_inputs();
    minp.num_jobs = Some(s("4"));
    minp.jobserver_flags = Some(s("--jobserver-auth=3,4"));
    minp.jobserver_supported = false;
    let plan = cfg.try_make(&minp).unwrap();
    assert_eq!(plan.make.args, vec![s("install"), s("-j4")]);
    assert!(plan.make.envs.is_empty());
}

#[test]
fn job_token_without_jobserver_value() {
    let cfg = fresh_config("/src/foo");
    let mut minp = plain_make_inputs();
    minp.num_jobs = Some(s("8"));
    let plan = cfg.try_make(&minp).unwrap();
    assert_eq!(plan.make.args, vec![s("install"), s("-j8")]);
    assert!(plan.make.envs.is_empty());
}

#[test]
fn top_level_build_plans_both_phases() {
    let plan = autotools::build(
        "/src/foo",
        &ShellProbe::Working,
        &linux_inputs(),
        &plain_compiler("cc"),
        &plain_compiler("c++"),
        &plain_make_inputs(),
    );
    assert_eq!(plan.configure.configure.program, s("/src/foo/configure"));
    assert_eq!(
        plan.configure.configure.args,
        vec![s("--prefix=/tmp/out"), s("--disable-shared"), s("--enable-static")]
    );
    assert_eq!(plan.make.make.args, vec![s("install")]);
    assert_eq!(plan.make.out_dir, s("/tmp/out"));
}

#[test]
fn missing_target_is_reported() {
    let cfg = fresh_config("/src/foo");
    let mut inp = linux_inputs();
    inp.target_env = None;
    let r = cfg.try_configure(&inp, &plain_compiler("cc"), &plain_compiler("c++"));
    assert_eq!(r.err().unwrap(), s("environment variable `TARGET` not defined"));
}

#[test]
fn missing_host_is_reported() {
    let cfg = fresh_config("/src/foo");
    let mut inp = linux_inputs();
    inp.host_env = None;
    let r = cfg.try_configure(&inp, &plain_compiler("cc"), &plain_compiler("c++"));
    assert_eq!(r.err().unwrap(), s("environment variable `HOST` not defined"));
}

#[test]
fn missing_out_dir_is_reported() {
    let cfg = fresh_config("/src/foo");
    let mut inp = linux_inputs();
    inp.out_dir_env = None;
    let r = cfg.try_configure(&inp, &plain_compiler("cc"), &plain_compiler("c++"));
    assert_eq!(r.err().unwrap(), s("environment variable `OUT_DIR` not defined"));
}

#[test]
fn in_source_build_needs_no_out_dir() {
    let mut cfg = fresh_config("/src/foo");
    cfg.insource(true);
    let mut inp = linux_inputs();
    inp.out_dir_env = None;
    let plan = cfg
        .try_configure(&inp, &plain_compiler("cc"), &plain_compiler("c++"))
        .unwrap();
    assert_eq!(plan.out_dir, s("/src/foo"));
}

#[test]
fn make_reports_out_dir_before_target() {
    let cfg = fresh_config("/src/foo");
    let mut minp = plain_make_inputs();
    minp.out_dir_env = None;
    minp.target_env = None;
    let r = cfg.try_make(&minp);
    assert_eq!(r.err().unwrap(), s("environment variable `OUT_DIR` not defined"));
}

#[test]
fn explicit_triples_win_over_injected_values() {
    let mut cfg = fresh_config("/src/foo");
    cfg.target("arm-unknown-linux-gnueabi");
    cfg.host("x86_64-unknown-linux-gnu");
    let mut inp = linux_inputs();
    inp.target_env = None;
    inp.host_env = None;
    let plan = cfg.try_configure(&inp, &plain_compiler("cc"), &plain_compiler("c++"));
    assert!(plan.is_ok());
}
