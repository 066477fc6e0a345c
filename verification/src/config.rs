//! The builder-style specification of one pending build: linkage toggles,
//! flag accumulators, option entries, triples, environment overrides, make
//! targets and the caching switch.

use vstd::prelude::*;
use crate::messages::{
    render_sh_broken, render_sh_required, render_sh_shebang, sh_broken_message,
    sh_required_message, sh_shebang_message,
};
use crate::options::{ConfigOption, Kind, OptionView};

verus! {

/// What the pre-flight capability probe of the POSIX shell indirection layer
/// observed.  The probe itself spawns a shell and is carried out by the
/// caller; the library only judges its outcome.
#[derive(Clone, Copy, PartialEq, Eq, Debug)]
pub enum ShellProbe {
    /// No shell could be spawned at all.
    Missing,
    /// The shell ran but the probe failed; `shebang_only` says the shell
    /// works except that it cannot execute a shebang-bearing script.
    NotWorking { shebang_only: bool },
    /// The probe succeeded.
    Working,
}

/// The probe's raw observation judged: no spawned shell means the shell is
/// missing; a successful exit means it works; otherwise, on Windows, a
/// standard output of exactly `test\n` shows that the shell ran the echo but
/// stopped at the shebang-bearing script.
pub open spec fn probe_of(
    spawned: bool,
    success: bool,
    stdout: Seq<u8>,
    windows: bool,
) -> ShellProbe {
    if !spawned {
        ShellProbe::Missing
    } else if success {
        ShellProbe::Working
    } else {
        ShellProbe::NotWorking {
            shebang_only: windows && stdout == seq![116u8, 101u8, 115u8, 116u8, 10u8],
        }
    }
}

/// Judges what the capability probe observed: whether a shell spawned at
/// all, whether it exited successfully, and what it wrote to its standard
/// output.
pub fn classify_probe(spawned: bool, success: bool, stdout: &Vec<u8>, windows: bool) -> (r:
    ShellProbe)
    ensures
        r == probe_of(spawned, success, stdout@, windows),
{
    if !spawned {
        ShellProbe::Missing
    } else if success {
        ShellProbe::Working
    } else if !windows {
        ShellProbe::NotWorking { shebang_only: false }
    } else {
        let echoed = stdout.len() == 5 && stdout[0] == 116 && stdout[1] == 101 && stdout[2] == 115
            && stdout[3] == 116 && stdout[4] == 10;
        proof {
            if echoed {
                assert(stdout@ =~= seq![116u8, 101u8, 115u8, 116u8, 10u8]);
            } else {
                if stdout@ == seq![116u8, 101u8, 115u8, 116u8, 10u8] {
                    assert(stdout@.len() == 5);
                    assert(stdout@[0] == 116u8);
                    assert(stdout@[1] == 101u8);
                    assert(stdout@[2] == 115u8);
                    assert(stdout@[3] == 116u8);
                    assert(stdout@[4] == 10u8);
                }
            }
        }
        ShellProbe::NotWorking { shebang_only: echoed }
    }
}

/// The diagnostic owed for a failed probe.
pub open spec fn probe_message(p: ShellProbe) -> Seq<char> {
    match p {
        ShellProbe::Missing => sh_required_message(),
        ShellProbe::NotWorking { shebang_only } => if shebang_only {
            sh_shebang_message()
        } else {
            sh_broken_message()
        },
        ShellProbe::Working => Seq::empty(),
    }
}

/// Builder-style configuration for a pending `configure && make` build.
///
/// `host` and `target` are understood in the calling system's sense: the
/// host machine is where the toolchain runs, the target machine is where the
/// built artifact runs.  The legacy tool calls the former its "build"
/// machine and the latter its "host" machine, and the planned configure
/// command translates accordingly.
pub struct Config {
    pub path: String,
    pub enable_shared: bool,
    pub enable_static: bool,
    pub cflags: Vec<String>,
    pub cxxflags: Vec<String>,
    pub ldflags: Vec<String>,
    pub options: Vec<ConfigOption>,
    pub target: Option<String>,
    pub host: Option<String>,
    pub out_dir: Option<String>,
    pub env: Vec<(String, String)>,
    pub reconfig: Option<String>,
    pub make_args: Vec<String>,
    pub make_targets: Vec<String>,
    pub build_insource: bool,
    pub forbidden_args: Vec<String>,
    pub fast_build: bool,
}

/// The mathematical view of a configuration.
#[verifier::ext_equal]
pub ghost struct ConfigView {
    pub path: Seq<char>,
    pub enable_shared: bool,
    pub enable_static: bool,
    pub cflags: Seq<Seq<char>>,
    pub cxxflags: Seq<Seq<char>>,
    pub ldflags: Seq<Seq<char>>,
    pub options: Seq<OptionView>,
    pub target: Option<Seq<char>>,
    pub host: Option<Seq<char>>,
    pub out_dir: Option<Seq<char>>,
    pub env: Seq<(Seq<char>, Seq<char>)>,
    pub reconfig: Option<Seq<char>>,
    pub make_args: Seq<Seq<char>>,
    pub make_targets: Seq<Seq<char>>,
    pub build_insource: bool,
    pub forbidden_args: Seq<Seq<char>>,
    pub fast_build: bool,
}

impl View for Config {
    type V = ConfigView;

    open spec fn view(&self) -> ConfigView {
        ConfigView {
            path: self.path@,
            enable_shared: self.enable_shared,
            enable_static: self.enable_static,
            cflags: self.cflags.deep_view(),
            cxxflags: self.cxxflags.deep_view(),
            ldflags: self.ldflags.deep_view(),
            options: self.options.deep_view(),
            target: self.target.deep_view(),
            host: self.host.deep_view(),
            out_dir: self.out_dir.deep_view(),
            env: self.env.deep_view(),
            reconfig: self.reconfig.deep_view(),
            make_args: self.make_args.deep_view(),
            make_targets: self.make_targets.deep_view(),
            build_insource: self.build_insource,
            forbidden_args: self.forbidden_args.deep_view(),
            fast_build: self.fast_build,
        }
    }
}

/// A blank configuration for the project rooted at `path`: static linkage
/// on, shared linkage off, everything else empty or unset.
pub open spec fn blank_config(path: Seq<char>) -> ConfigView {
    ConfigView {
        path,
        enable_shared: false,
        enable_static: true,
        cflags: Seq::empty(),
        cxxflags: Seq::empty(),
        ldflags: Seq::empty(),
        options: Seq::empty(),
        target: None,
        host: None,
        out_dir: None,
        env: Seq::empty(),
        reconfig: None,
        make_args: Seq::empty(),
        make_targets: Seq::empty(),
        build_insource: false,
        forbidden_args: Seq::empty(),
        fast_build: false,
    }
}

impl Config {
    /// Tries to create a blank configuration for the project at the absolute
    /// path `path`, judging the shell capability probe's outcome: a failed
    /// probe is the error it owes.
    pub fn try_new(path: &str, probe: &ShellProbe) -> (r: Result<Config, String>)
        ensures
            match r {
                Ok(c) => *probe is Working && c@ == blank_config(path@),
                Err(m) => !(*probe is Working) && m@ == probe_message(*probe),
            },
    {
        match probe {
            ShellProbe::Missing => Err(render_sh_required()),
            ShellProbe::NotWorking { shebang_only } => if *shebang_only {
                Err(render_sh_shebang())
            } else {
                Err(render_sh_broken())
            },
            ShellProbe::Working => {
                let c = Config {
                    path: String::from_str(path),
                    enable_shared: false,
                    enable_static: true,
                    cflags: Vec::new(),
                    cxxflags: Vec::new(),
                    ldflags: Vec::new(),
                    options: Vec::new(),
                    target: None,
                    host: None,
                    out_dir: None,
                    env: Vec::new(),
                    reconfig: None,
                    make_args: Vec::new(),
                    make_targets: Vec::new(),
                    build_insource: false,
                    forbidden_args: Vec::new(),
                    fast_build: false,
                };
                proof {
                    assert(c@ =~~= blank_config(path@));
                }
                Ok(c)
            },
        }
    }

    /// Creates a blank configuration; the shell capability probe must have
    /// succeeded.
    pub fn new(path: &str, probe: &ShellProbe) -> (r: Config)
        requires
            *probe is Working,
        ensures
            r@ == blank_config(path@),
    {
        match Config::try_new(path, probe) {
            Ok(c) => c,
            Err(_) => unreached(),
        }
    }

    /// Enables building as a shared library (`--enable-shared`).
    pub fn enable_shared(&mut self)
        ensures
            final(self)@ == (ConfigView { enable_shared: true, ..old(self)@ }),
    {
        self.enable_shared = true;
    }

    /// Disables building as a shared library (`--disable-shared`).
    pub fn disable_shared(&mut self)
        ensures
            final(self)@ == (ConfigView { enable_shared: false, ..old(self)@ }),
    {
        self.enable_shared = false;
    }

    /// Enables building as a static library (`--enable-static`).
    pub fn enable_static(&mut self)
        ensures
            final(self)@ == (ConfigView { enable_static: true, ..old(self)@ }),
    {
        self.enable_static = true;
    }

    /// Disables building as a static library (`--disable-static`).
    pub fn disable_static(&mut self)
        ensures
            final(self)@ == (ConfigView { enable_static: false, ..old(self)@ }),
    {
        self.enable_static = false;
    }

    /// Replaces the additional arguments passed through to `make`.
    pub fn make_args(&mut self, flags: Vec<String>)
        ensures
            final(self)@ == (ConfigView { make_args: flags.deep_view(), ..old(self)@ }),
    {
        self.make_args = flags;
    }

    fn set_opt(&mut self, kind: Kind, opt: &str, optarg: Option<&str>)
        ensures
            final(self)@ == (ConfigView {
                options: old(self)@.options.push(
                    OptionView { kind, name: opt@, value: optarg.deep_view() },
                ),
                ..old(self)@
            }),
    {
        let value = match optarg {
            Some(v) => Some(String::from_str(v)),
            None => None,
        };
        let ghost prev = self.options.deep_view();
        self.options.push(ConfigOption { kind, name: String::from_str(opt), value });
        proof {
            assert(self.options.deep_view() =~~= prev.push(
                OptionView { kind, name: opt@, value: optarg.deep_view() },
            ));
        }
    }

    /// Appends the option `--<opt>[=<optarg>]` to the configure command.
    pub fn config_option(&mut self, opt: &str, optarg: Option<&str>)
        ensures
            final(self)@ == (ConfigView {
                options: old(self)@.options.push(
                    OptionView { kind: Kind::Arbitrary, name: opt@, value: optarg.deep_view() },
                ),
                ..old(self)@
            }),
    {
        self.set_opt(Kind::Arbitrary, opt, optarg);
    }

    /// Appends the option `--enable-<opt>[=<optarg>]` to the configure
    /// command.
    pub fn enable(&mut self, opt: &str, optarg: Option<&str>)
        ensures
            final(self)@ == (ConfigView {
                options: old(self)@.options.push(
                    OptionView { kind: Kind::Enable, name: opt@, value: optarg.deep_view() },
                ),
                ..old(self)@
            }),
    {
        self.set_opt(Kind::Enable, opt, optarg);
    }

    /// Appends the option `--disable-<opt>[=<optarg>]` to the configure
    /// command.
    pub fn disable(&mut self, opt: &str, optarg: Option<&str>)
        ensures
            final(self)@ == (ConfigView {
                options: old(self)@.options.push(
                    OptionView { kind: Kind::Disable, name: opt@, value: optarg.deep_view() },
                ),
                ..old(self)@
            }),
    {
        self.set_opt(Kind::Disable, opt, optarg);
    }

    /// Appends the option `--with-<opt>[=<optarg>]` to the configure
    /// command.
    pub fn with(&mut self, opt: &str, optarg: Option<&str>)
        ensures
            final(self)@ == (ConfigView {
                options: old(self)@.options.push(
                    OptionView { kind: Kind::With, name: opt@, value: optarg.deep_view() },
                ),
                ..old(self)@
            }),
    {
        self.set_opt(Kind::With, opt, optarg);
    }

    /// Appends the option `--without-<opt>[=<optarg>]` to the configure
    /// command.
    pub fn without(&mut self, opt: &str, optarg: Option<&str>)
        ensures
            final(self)@ == (ConfigView {
                options: old(self)@.options.push(
                    OptionView { kind: Kind::Without, name: opt@, value: optarg.deep_view() },
                ),
                ..old(self)@
            }),
    {
        self.set_opt(Kind::Without, opt, optarg);
    }

    /// Appends a custom C compiler flag, to stand after the compiler's
    /// default flags and the ambient `CFLAGS` value.
    pub fn cflag(&mut self, flag: &str)
        ensures
            final(self)@ == (ConfigView { cflags: old(self)@.cflags.push(flag@), ..old(self)@ }),
    {
        let ghost prev = self.cflags.deep_view();
        self.cflags.push(String::from_str(flag));
        proof {
            assert(self.cflags.deep_view() =~~= prev.push(flag@));
        }
    }

    /// Appends a custom C++ compiler flag, to stand after the compiler's
    /// default flags and the ambient `CXXFLAGS` value.
    pub fn cxxflag(&mut self, flag: &str)
        ensures
            final(self)@ == (ConfigView {
                cxxflags: old(self)@.cxxflags.push(flag@),
                ..old(self)@
            }),
    {
        let ghost prev = self.cxxflags.deep_view();
        self.cxxflags.push(String::from_str(flag));
        proof {
            assert(self.cxxflags.deep_view() =~~= prev.push(flag@));
        }
    }

    /// Appends a custom linker flag, to stand after the ambient `LDFLAGS`
    /// value.
    pub fn ldflag(&mut self, flag: &str)
        ensures
            final(self)@ == (ConfigView { ldflags: old(self)@.ldflags.push(flag@), ..old(self)@ }),
    {
        let ghost prev = self.ldflags.deep_view();
        self.ldflags.push(String::from_str(flag));
        proof {
            assert(self.ldflags.deep_view() =~~= prev.push(flag@));
        }
    }

    /// Sets the target triple (calling-system sense: where the artifact
    /// runs), overriding the externally injected value.
    pub fn target(&mut self, target: &str)
        ensures
            final(self)@ == (ConfigView { target: Some(target@), ..old(self)@ }),
    {
        self.target = Some(String::from_str(target));
    }

    /// Sets the host triple (calling-system sense: where the toolchain
    /// runs), overriding the externally injected value.
    pub fn host(&mut self, host: &str)
        ensures
            final(self)@ == (ConfigView { host: Some(host@), ..old(self)@ }),
    {
        self.host = Some(String::from_str(host));
    }

    /// Sets the output directory, overriding the externally injected value.
    pub fn out_dir(&mut self, out: &str)
        ensures
            final(self)@ == (ConfigView { out_dir: Some(out@), ..old(self)@ }),
    {
        self.out_dir = Some(String::from_str(out));
    }

    /// Appends an environment override for the spawned processes; later
    /// entries win on key collision at apply time.
    pub fn env(&mut self, key: &str, value: &str)
        ensures
            final(self)@ == (ConfigView {
                env: old(self)@.env.push((key@, value@)),
                ..old(self)@
            }),
    {
        let ghost prev = self.env.deep_view();
        self.env.push((String::from_str(key), String::from_str(value)));
        proof {
            assert(self.env.deep_view() =~~= prev.push((key@, value@)));
        }
    }

    /// Sets the flags passed through to the reconfiguration tool; their
    /// presence makes the reconfigure phase run.
    pub fn reconf(&mut self, flags: &str)
        ensures
            final(self)@ == (ConfigView { reconfig: Some(flags@), ..old(self)@ }),
    {
        self.reconfig = Some(String::from_str(flags));
    }

    /// Appends a make target; with none appended the build defaults to the
    /// single target `install`.
    pub fn make_target(&mut self, make_target: &str)
        ensures
            final(self)@ == (ConfigView {
                make_targets: old(self)@.make_targets.push(make_target@),
                ..old(self)@
            }),
    {
        let ghost prev = self.make_targets.deep_view();
        self.make_targets.push(String::from_str(make_target));
        proof {
            assert(self.make_targets.deep_view() =~~= prev.push(make_target@));
        }
    }

    /// Chooses between building in-source (output and build directory both
    /// equal the source path) and out-of-source.
    pub fn insource(&mut self, build_insource: bool)
        ensures
            final(self)@ == (ConfigView { build_insource, ..old(self)@ }),
    {
        self.build_insource = build_insource;
    }

    /// Forbids an argument name: any configure token whose part before the
    /// first `=` is exactly `--<arg>` is dropped from the final command.
    pub fn forbid(&mut self, arg: &str)
        ensures
            final(self)@ == (ConfigView {
                forbidden_args: old(self)@.forbidden_args.push(arg@),
                ..old(self)@
            }),
    {
        let ghost prev = self.forbidden_args.deep_view();
        self.forbidden_args.push(String::from_str(arg));
        proof {
            assert(self.forbidden_args.deep_view() =~~= prev.push(arg@));
        }
    }

    /// Enables the fingerprint gate: the configure phase is skipped when an
    /// identical planned command was already recorded.
    pub fn fast_build(&mut self, fast: bool)
        ensures
            final(self)@ == (ConfigView { fast_build: fast, ..old(self)@ }),
    {
        self.fast_build = fast;
    }
}

} // verus!
