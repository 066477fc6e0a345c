use autotools::command::Command;
use autotools::compiler::discover_compilers;
use autotools::config::{classify_probe, Config, ShellProbe};
use autotools::messages::configure_diagnostic;
use autotools::phase::{step, Phase, PhaseEvent};
use autotools::runner::{run_result, RunOutcome};

fn s(x: &str) -> String {
    x.to_string()
}

#[test]
fn new_config_has_documented_defaults() {
    let cfg = Config::new("/src/foo", &ShellProbe::Working);
    assert_eq!(cfg.path, s("/src/foo"));
    assert!(!cfg.enable_shared);
    assert!(cfg.enable_static);
    assert!(!cfg.build_insource);
    assert!(!cfg.fast_build);
    assert!(cfg.options.is_empty());
    assert!(cfg.reconfig.is_none());
}

#[test]
fn probe_missing_shell_is_reported() {
    let r = Config::try_new("/src/foo", &ShellProbe::Missing);
    assert_eq!(r.err().unwrap(), s("`sh` is required to run `configure`"));
}

#[test]
fn probe_broken_shell_is_reported() {
    let r = Config::try_new("/src/foo", &ShellProbe::NotWorking { shebang_only: false });
    assert_eq!(r.err().unwrap(), s("`sh` is not standard or is otherwise broken"));
}

#[test]
fn probe_shebang_failure_is_reported() {
    let r = Config::try_new("/src/foo", &ShellProbe::NotWorking { shebang_only: true });
    assert_eq!(r.err().unwrap(), s("`sh` does not parse shebangs"));
}

#[test]
fn probe_observation_is_classified() {
    assert_eq!(classify_probe(false, false, &Vec::new(), false), ShellProbe::Missing);
    assert_eq!(classify_probe(true, true, &Vec::new(), true), ShellProbe::Working);
    assert_eq!(
        classify_probe(true, false, &b"test\n".to_vec(), true),
        ShellProbe::NotWorking { shebang_only: true }
    );
    assert_eq!(
        classify_probe(true, false, &b"test\n".to_vec(), false),
        ShellProbe::NotWorking { shebang_only: false }
    );
    assert_eq!(
        classify_probe(true, false, &b"garbled".to_vec(), true),
        ShellProbe::NotWorking { shebang_only: false }
    );
}

#[test]
fn shell_argv_wraps_program_for_shebang_handling() {
    let cmd = Command {
        program: s("/src/foo/configure"),
        args: vec![s("--prefix=/out"), s("--enable-static")],
        envs: Vec::new(),
        dir: s("/out/build"),
    };
    assert_eq!(
        cmd.shell_argv(),
        vec![
            s("sh"),
            s("-c"),
            s("exec \"$0\" \"$@\""),
            s("/src/foo/configure"),
            s("--prefix=/out"),
            s("--enable-static"),
        ]
    );
}

#[test]
fn run_ok_on_success() {
    let outcome = RunOutcome::Exited { success: true, status_text: s("exit status: 0") };
    assert!(run_result(&outcome, "make").is_ok());
}

#[test]
fn run_reports_nonzero_exit() {
    let outcome = RunOutcome::Exited { success: false, status_text: s("exit status: 2") };
    assert_eq!(
        run_result(&outcome, "make").unwrap_err(),
        s("command did not execute successfully, got: exit status: 2")
    );
}

#[test]
fn run_reports_missing_program() {
    let outcome = RunOutcome::NotFound { error_text: s("No such file or directory (os error 2)") };
    assert_eq!(
        run_result(&outcome, "autoreconf").unwrap_err(),
        s("failed to execute command: No such file or directory (os error 2)\nis `autoreconf` not installed?")
    );
}

#[test]
fn run_reports_other_spawn_failures() {
    let outcome = RunOutcome::SpawnFailed { error_text: s("Permission denied (os error 13)") };
    assert_eq!(
        run_result(&outcome, "configure").unwrap_err(),
        s("failed to execute command: Permission denied (os error 13)")
    );
}

#[test]
fn configure_failure_surfaces_log_first() {
    let d = configure_diagnostic(&Some(s("config.log contents")), "configure failed");
    assert_eq!(d, s("config.log contents\nconfigure failed"));
}

#[test]
fn unreadable_log_does_not_mask_failure() {
    let d = configure_diagnostic(&None, "configure failed");
    assert_eq!(d, s("the configure log could not be read\nconfigure failed"));
}

#[test]
fn phases_run_in_order() {
    let p = step(Phase::Unconfigured, PhaseEvent::Begin { reconfigure: true });
    assert_eq!(p, Phase::Reconfiguring);
    let p = step(p, PhaseEvent::ReconfigureFinished { ok: true });
    assert_eq!(p, Phase::Configuring);
    let p = step(p, PhaseEvent::ConfigureFinished { ok: true });
    assert_eq!(p, Phase::Configured);
    let p = step(p, PhaseEvent::BuildStarted);
    assert_eq!(p, Phase::Building);
    let p = step(p, PhaseEvent::BuildFinished { ok: true });
    assert_eq!(p, Phase::Built);
}

#[test]
fn fingerprint_match_skips_straight_to_configured() {
    let p = step(Phase::Unconfigured, PhaseEvent::Begin { reconfigure: false });
    assert_eq!(p, Phase::Configuring);
    assert_eq!(step(p, PhaseEvent::ConfigureSkipped), Phase::Configured);
}

#[test]
fn any_phase_failure_is_terminal() {
    assert_eq!(
        step(Phase::Reconfiguring, PhaseEvent::ReconfigureFinished { ok: false }),
        Phase::Failed
    );
    assert_eq!(
        step(Phase::Configuring, PhaseEvent::ConfigureFinished { ok: false }),
        Phase::Failed
    );
    assert_eq!(step(Phase::Building, PhaseEvent::BuildFinished { ok: false }), Phase::Failed);
}

#[test]
fn unexpected_events_fail_the_protocol() {
    assert_eq!(step(Phase::Unconfigured, PhaseEvent::BuildStarted), Phase::Failed);
    assert_eq!(step(Phase::Built, PhaseEvent::Begin { reconfigure: false }), Phase::Failed);
}

#[test]
fn discovery_reports_a_single_diagnostic_on_failure() {
    match discover_compilers("x86_64-unknown-linux-gnu", "x86_64-unknown-linux-gnu") {
        Ok((c, cxx)) => {
            assert!(!c.path.is_empty());
            assert!(!cxx.path.is_empty());
        },
        Err(m) => {
            assert_eq!(m, s("failed to determine the compiler to use"));
        },
    }
}
