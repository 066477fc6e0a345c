//! The invocation planner: resolving directories and triples, assembling the
//! full argument and environment sets of the reconfigure, configure and make
//! phases, and rendering the configure fingerprint.

use vstd::prelude::*;
use crate::command::Command;
use crate::compiler::CompilerInfo;
use crate::config::{Config, ConfigView};
use crate::fingerprint::rendered_record;
use crate::flags::{assemble_flags, assembled_flags, ld_env_entry, ld_env_value};
use crate::messages::{missing_env_message, render_missing_env};
use crate::options::{
    encode_option, encoded_option, is_forbidden, keep_allowed_args, ConfigOption, Kind, OptionView,
};
use crate::text::{concat2, contains_seq, joined_tokens, join_flags, str_contains, str_eq};
use crate::triple::{derive_host, derived_host};

verus! {

/// A prefix/source-directory pair reported by the external path-translation
/// tool, for hosts whose native path separators the legacy tool rejects.
pub struct PathPair {
    pub prefix: String,
    pub srcdir: String,
}

/// The externally injected values the configure phase depends on.  Each
/// field carries the like-named environment value, or `None` where it is
/// unset; `path_translation` carries the translated prefix and source
/// directory where the external translation tool ran and succeeded.
pub struct ConfigureInputs {
    pub target_env: Option<String>,
    pub host_env: Option<String>,
    pub out_dir_env: Option<String>,
    pub cflags_env: Option<String>,
    pub cxxflags_env: Option<String>,
    pub ldflags_env: Option<String>,
    pub path_translation: Option<PathPair>,
}

/// The externally injected values the make phase depends on.
/// `jobserver_supported` says whether the platform's make variant honours
/// the jobserver coordination protocol.
pub struct MakeInputs {
    pub target_env: Option<String>,
    pub out_dir_env: Option<String>,
    pub make_env: Option<String>,
    pub num_jobs: Option<String>,
    pub jobserver_flags: Option<String>,
    pub jobserver_supported: bool,
}

/// The fully planned configure phase.
pub struct ConfigurePlan {
    /// The reconfiguration command, present exactly when reconfigure flags
    /// were set; it runs in the source directory.
    pub reconfigure: Option<Command>,
    /// The configure command itself, running in the build directory.
    pub configure: Command,
    /// The resolved install/output directory.
    pub out_dir: String,
    /// The resolved build directory.
    pub build_dir: String,
    /// Whether the build directory is to be created (never in-source).
    pub create_build_dir: bool,
    /// Whether the fingerprint gate applies.
    pub use_fingerprint: bool,
    /// The rendered fingerprint of the configure command.
    pub fingerprint: String,
}

/// The fully planned make phase.
pub struct MakePlan {
    pub make: Command,
    pub out_dir: String,
}

/// Both phases of one build call.
pub struct BuildPlan {
    pub configure: ConfigurePlan,
    pub make: MakePlan,
}

/// The target triple: the explicit setting wins over the injected value.
pub open spec fn resolved_target(cfg: ConfigView, target_env: Option<Seq<char>>) -> Option<
    Seq<char>,
> {
    match cfg.target {
        Some(t) => Some(t),
        None => target_env,
    }
}

/// The host triple: the explicit setting wins over the injected value.
pub open spec fn resolved_host(cfg: ConfigView, host_env: Option<Seq<char>>) -> Option<Seq<char>> {
    match cfg.host {
        Some(h) => Some(h),
        None => host_env,
    }
}

/// The install/output directory: the source path itself for an in-source
/// build, else the explicit override or the injected output directory.
pub open spec fn resolved_out_dir(cfg: ConfigView, out_dir_env: Option<Seq<char>>) -> Option<
    Seq<char>,
> {
    if cfg.build_insource {
        Some(cfg.path)
    } else {
        match cfg.out_dir {
            Some(d) => Some(d),
            None => out_dir_env,
        }
    }
}

/// The build directory: the source path itself for an in-source build, else
/// the `build` subdirectory of the output directory.
pub open spec fn build_dir_of(cfg: ConfigView, dst: Seq<char>) -> Seq<char> {
    if cfg.build_insource {
        cfg.path
    } else {
        dst + "/build"@
    }
}

/// The first missing externally-injected value the configure phase needs,
/// as its diagnostic; `None` when all are present.
pub open spec fn env_missing(cfg: ConfigView, inp: ConfigureInputs) -> Option<Seq<char>> {
    if resolved_target(cfg, inp.target_env.deep_view()) is None {
        Some(missing_env_message("TARGET"@))
    } else if resolved_host(cfg, inp.host_env.deep_view()) is None {
        Some(missing_env_message("HOST"@))
    } else if resolved_out_dir(cfg, inp.out_dir_env.deep_view()) is None {
        Some(missing_env_message("OUT_DIR"@))
    } else {
        None
    }
}

/// The first missing externally-injected value the make phase needs.
pub open spec fn make_missing(cfg: ConfigView, minp: MakeInputs) -> Option<Seq<char>> {
    if resolved_out_dir(cfg, minp.out_dir_env.deep_view()) is None {
        Some(missing_env_message("OUT_DIR"@))
    } else if resolved_target(cfg, minp.target_env.deep_view()) is None {
        Some(missing_env_message("TARGET"@))
    } else {
        None
    }
}

/// Whether the resolved target names the embedded/web toolchain whose
/// front-end wrappers replace the configure and make programs.
pub open spec fn emscripten_target(target: Seq<char>) -> bool {
    contains_seq(target, "emscripten"@)
}

/// The source directory's configure script.
pub open spec fn configure_script(cfg: ConfigView) -> Seq<char> {
    cfg.path + "/configure"@
}

/// The program of the configure command: the front-end wrapper for
/// embedded/web targets, else the configure script itself.
pub open spec fn configure_program(cfg: ConfigView, target: Seq<char>) -> Seq<char> {
    if emscripten_target(target) {
        "emconfigure"@
    } else {
        configure_script(cfg)
    }
}

/// Every option entry rendered as its configure token, in order.
pub open spec fn encoded_options(opts: Seq<OptionView>) -> Seq<Seq<char>> {
    opts.map_values(|o: OptionView| encoded_option(o.kind, o.name, o.value))
}

/// Whether an entry is an arbitrary option named `host`, which the triple
/// translation trusts completely.
pub open spec fn opt_is_host(o: OptionView) -> bool {
    o.kind is Arbitrary && o.name == "host"@
}

/// Whether the caller supplied an explicit `host` option.
pub open spec fn has_explicit_host(opts: Seq<OptionView>) -> bool {
    exists|i: int| 0 <= i < opts.len() && opt_is_host(#[trigger] opts[i])
}

/// The derived `--host=` argument: nothing when an explicit `host` option
/// wins, else the triple read out of the C compiler's name, if any.
pub open spec fn host_args(cfg: ConfigView, c_path: Seq<char>) -> Seq<Seq<char>> {
    if has_explicit_host(cfg.options) {
        Seq::empty()
    } else {
        match derived_host(c_path) {
            Some(h) => seq!["--host="@ + h],
            None => Seq::empty(),
        }
    }
}

/// The translated prefix and source-directory arguments, where the external
/// path-translation tool ran and succeeded.
pub open spec fn translation_args(tr: Option<PathPair>) -> Seq<Seq<char>> {
    match tr {
        Some(p) => seq!["--prefix="@ + p.prefix@, "--srcdir="@ + p.srcdir@],
        None => Seq::empty(),
    }
}

/// The linkage toggles as configure tokens.
pub open spec fn linkage_args(cfg: ConfigView) -> Seq<Seq<char>> {
    seq![
        if cfg.enable_shared {
            "--enable-shared"@
        } else {
            "--disable-shared"@
        },
        if cfg.enable_static {
            "--enable-static"@
        } else {
            "--disable-static"@
        },
    ]
}

/// The script-path argument handed to the front-end wrapper for embedded/web
/// targets.
pub open spec fn script_args(cfg: ConfigView, target: Seq<char>) -> Seq<Seq<char>> {
    if emscripten_target(target) {
        seq![configure_script(cfg)]
    } else {
        Seq::empty()
    }
}

/// The whole configure argument list before forbidden-name filtering.
pub open spec fn configure_args_unfiltered(
    cfg: ConfigView,
    inp: ConfigureInputs,
    target: Seq<char>,
    dst: Seq<char>,
    c_path: Seq<char>,
) -> Seq<Seq<char>> {
    script_args(cfg, target) + seq!["--prefix="@ + dst] + translation_args(inp.path_translation)
        + linkage_args(cfg) + encoded_options(cfg.options) + host_args(cfg, c_path)
}

/// The final configure argument list: the unfiltered list with every token
/// the forbidden-name set excludes dropped.
pub open spec fn configure_args(
    cfg: ConfigView,
    inp: ConfigureInputs,
    target: Seq<char>,
    dst: Seq<char>,
    c_path: Seq<char>,
) -> Seq<Seq<char>> {
    configure_args_unfiltered(cfg, inp, target, dst, c_path).filter(
        |t: Seq<char>| !is_forbidden(t, cfg.forbidden_args),
    )
}

/// The configure command's environment entries, applied in order with later
/// entries winning: the three assembled flag classes, the discovered
/// compiler paths as `CC`/`CXX`, the compilers' own entries, and finally the
/// caller's overrides.
pub open spec fn configure_envs(
    cfg: ConfigView,
    inp: ConfigureInputs,
    c: CompilerInfo,
    cxx: CompilerInfo,
) -> Seq<(Seq<char>, Seq<char>)> {
    seq![
        ("CFLAGS"@, assembled_flags(c.cflags@, inp.cflags_env.deep_view(), joined_tokens(cfg.cflags))),
        (
            "CXXFLAGS"@,
            assembled_flags(cxx.cflags@, inp.cxxflags_env.deep_view(), joined_tokens(cfg.cxxflags)),
        ),
    ] + (match ld_env_value(inp.ldflags_env.deep_view(), joined_tokens(cfg.ldflags)) {
        Some(v) => seq![("LDFLAGS"@, v)],
        None => Seq::empty(),
    }) + seq![("CC"@, c.path@), ("CXX"@, cxx.path@)] + c.env.deep_view() + cxx.env.deep_view()
        + cfg.env
}

/// Whether a configure plan is exactly the one owed for the given
/// configuration, injected values and discovered compilers.
pub open spec fn configure_plan_matches(
    p: ConfigurePlan,
    cfg: ConfigView,
    inp: ConfigureInputs,
    c: CompilerInfo,
    cxx: CompilerInfo,
) -> bool {
    let target = resolved_target(cfg, inp.target_env.deep_view())->Some_0;
    let dst = resolved_out_dir(cfg, inp.out_dir_env.deep_view())->Some_0;
    &&& (match cfg.reconfig {
        Some(f) => {
            &&& p.reconfigure is Some
            &&& p.reconfigure->Some_0.program@ == "autoreconf"@
            &&& p.reconfigure->Some_0.args.deep_view() == seq![f]
            &&& p.reconfigure->Some_0.envs.deep_view() == Seq::<(Seq<char>, Seq<char>)>::empty()
            &&& p.reconfigure->Some_0.dir@ == cfg.path
        },
        None => p.reconfigure is None,
    })
    &&& p.out_dir@ == dst
    &&& p.build_dir@ == build_dir_of(cfg, dst)
    &&& p.create_build_dir == !cfg.build_insource
    &&& p.use_fingerprint == cfg.fast_build
    &&& p.configure.program@ == configure_program(cfg, target)
    &&& p.configure.args.deep_view() == configure_args(cfg, inp, target, dst, c.path@)
    &&& p.configure.envs.deep_view() == configure_envs(cfg, inp, c, cxx)
    &&& p.configure.dir@ == build_dir_of(cfg, dst)
    &&& p.fingerprint@ == rendered_record(p.configure.tokens())
}

/// The make executable: the injected `MAKE` value or the conventional name.
pub open spec fn make_executable(minp: MakeInputs) -> Seq<char> {
    match minp.make_env.deep_view() {
        Some(m) => m,
        None => "make"@,
    }
}

/// The make command's program: the front-end wrapper for embedded/web
/// targets, else the make executable itself.
pub open spec fn make_program(target: Seq<char>, minp: MakeInputs) -> Seq<char> {
    if emscripten_target(target) {
        "emmake"@
    } else {
        make_executable(minp)
    }
}

/// The make targets: `install` alone when none were configured.
pub open spec fn make_targets_of(cfg: ConfigView) -> Seq<Seq<char>> {
    if cfg.make_targets.len() == 0 {
        seq!["install"@]
    } else {
        cfg.make_targets
    }
}

/// Whether parallelism is handed over through the jobserver protocol rather
/// than a `-jN` token: a job count and a jobserver value are present and the
/// platform's make honours the protocol.
pub open spec fn use_jobserver(minp: MakeInputs) -> bool {
    minp.num_jobs is Some && minp.jobserver_flags is Some && minp.jobserver_supported
}

/// The `-jN` token, appended exactly when a job count is present but the
/// jobserver protocol is not used.
pub open spec fn jobs_args(minp: MakeInputs) -> Seq<Seq<char>> {
    match minp.num_jobs.deep_view() {
        Some(n) => if minp.jobserver_flags is Some && minp.jobserver_supported {
            Seq::empty()
        } else {
            seq!["-j"@ + n]
        },
        None => Seq::empty(),
    }
}

/// The make command's environment: the jobserver value propagated verbatim
/// through `MAKEFLAGS` when the protocol is used.
pub open spec fn make_envs(minp: MakeInputs) -> Seq<(Seq<char>, Seq<char>)> {
    if use_jobserver(minp) {
        seq![("MAKEFLAGS"@, minp.jobserver_flags.deep_view()->Some_0)]
    } else {
        Seq::empty()
    }
}

/// The whole make argument list: the wrapped executable for embedded/web
/// targets, the targets, the user's extra arguments, then the `-jN` token.
pub open spec fn make_args_full(
    cfg: ConfigView,
    target: Seq<char>,
    minp: MakeInputs,
) -> Seq<Seq<char>> {
    (if emscripten_target(target) {
        seq![make_executable(minp)]
    } else {
        Seq::empty()
    }) + make_targets_of(cfg) + cfg.make_args + jobs_args(minp)
}

/// Whether a make plan is exactly the one owed.
pub open spec fn make_plan_matches(p: MakePlan, cfg: ConfigView, minp: MakeInputs) -> bool {
    let dst = resolved_out_dir(cfg, minp.out_dir_env.deep_view())->Some_0;
    let target = resolved_target(cfg, minp.target_env.deep_view())->Some_0;
    &&& p.out_dir@ == dst
    &&& p.make.program@ == make_program(target, minp)
    &&& p.make.args.deep_view() == make_args_full(cfg, target, minp)
    &&& p.make.envs.deep_view() == make_envs(minp)
    &&& p.make.dir@ == build_dir_of(cfg, dst)
}

/// An explicit `host` option always wins over derivation: whatever compiler
/// was discovered, no derived `--host=` argument is emitted.
pub proof fn lemma_explicit_host_wins(cfg: ConfigView, c_path: Seq<char>)
    requires
        has_explicit_host(cfg.options),
    ensures
        host_args(cfg, c_path) == Seq::<Seq<char>>::empty(),
{
}

/// In-source mode: the output directory is the source path itself, the
/// build directory equals it, and no build subdirectory is created.
pub proof fn lemma_in_source_dirs(cfg: ConfigView, out_dir_env: Option<Seq<char>>)
    requires
        cfg.build_insource,
    ensures
        resolved_out_dir(cfg, out_dir_env) == Some(cfg.path),
        build_dir_of(cfg, resolved_out_dir(cfg, out_dir_env)->Some_0) == cfg.path,
{
}

/// Out-of-source mode: the build directory is the `build` subdirectory of
/// the resolved output directory.
pub proof fn lemma_out_of_source_build_dir(cfg: ConfigView, dst: Seq<char>)
    requires
        !cfg.build_insource,
    ensures
        build_dir_of(cfg, dst) == dst + "/build"@,
{
}

/// Appends one token, tracking the token list's view.
fn push_token(v: &mut Vec<String>, t: String)
    ensures
        final(v).deep_view() == old(v).deep_view().push(t@),
{
    let ghost prev = v.deep_view();
    v.push(t);
    proof {
        assert(v.deep_view() =~= prev.push(v@.last()@));
    }
}

/// Appends one environment entry, tracking the entry list's view.
fn push_env(v: &mut Vec<(String, String)>, key: String, value: String)
    ensures
        final(v).deep_view() == old(v).deep_view().push((key@, value@)),
{
    let ghost prev = v.deep_view();
    let ghost kv = (key@, value@);
    v.push((key, value));
    proof {
        assert(v.deep_view() =~= prev.push(kv));
    }
}

/// Appends copies of all tokens of `other`.
fn extend_tokens(v: &mut Vec<String>, other: &Vec<String>)
    ensures
        final(v).deep_view() == old(v).deep_view() + other.deep_view(),
{
    let ghost base = v.deep_view();
    let ghost ov = other.deep_view();
    let mut i: usize = 0;
    proof {
        assert(v.deep_view() =~= base + ov.take(0));
    }
    while i < other.len()
        invariant
            ov == other.deep_view(),
            ov.len() == other.len(),
            0 <= i <= other.len(),
            v.deep_view() == base + ov.take(i as int),
        decreases other.len() - i,
    {
        let ghost prev = v.deep_view();
        v.push(other[i].clone());
        proof {
            assert(v.deep_view() =~= prev.push(ov[i as int]));
            assert(ov.take(i + 1) =~= ov.take(i as int).push(ov[i as int]));
            assert(v.deep_view() =~= base + ov.take(i + 1));
        }
        i += 1;
    }
    proof {
        assert(ov.take(ov.len() as int) =~= ov);
    }
}

/// Appends copies of all environment entries of `other`.
fn extend_envs(v: &mut Vec<(String, String)>, other: &Vec<(String, String)>)
    ensures
        final(v).deep_view() == old(v).deep_view() + other.deep_view(),
{
    let ghost base = v.deep_view();
    let ghost ov = other.deep_view();
    let mut i: usize = 0;
    proof {
        assert(v.deep_view() =~= base + ov.take(0));
    }
    while i < other.len()
        invariant
            ov == other.deep_view(),
            ov.len() == other.len(),
            0 <= i <= other.len(),
            v.deep_view() == base + ov.take(i as int),
        decreases other.len() - i,
    {
        let kv = &other[i];
        let ghost prev = v.deep_view();
        v.push((kv.0.clone(), kv.1.clone()));
        proof {
            assert(v.deep_view() =~= prev.push(ov[i as int]));
            assert(ov.take(i + 1) =~= ov.take(i as int).push(ov[i as int]));
            assert(v.deep_view() =~= base + ov.take(i + 1));
        }
        i += 1;
    }
    proof {
        assert(ov.take(ov.len() as int) =~= ov);
    }
}

/// Renders every option entry as its token, in order.
fn encode_all_options(opts: &Vec<ConfigOption>) -> (r: Vec<String>)
    ensures
        r.deep_view() == encoded_options(opts.deep_view()),
{
    let ghost ov = opts.deep_view();
    let mut out: Vec<String> = Vec::new();
    proof {
        assert(out.deep_view() =~= encoded_options(ov.take(0)));
    }
    let mut i: usize = 0;
    while i < opts.len()
        invariant
            ov == opts.deep_view(),
            ov.len() == opts.len(),
            0 <= i <= opts.len(),
            out.deep_view() == encoded_options(ov.take(i as int)),
        decreases opts.len() - i,
    {
        let tok = encode_option(&opts[i]);
        let ghost prev = out.deep_view();
        out.push(tok);
        proof {
            assert(out.deep_view() =~= prev.push(
                encoded_option(ov[i as int].kind, ov[i as int].name, ov[i as int].value),
            ));
            assert(encoded_options(ov.take(i + 1)) =~= encoded_options(ov.take(i as int)).push(
                encoded_option(ov[i as int].kind, ov[i as int].name, ov[i as int].value),
            ));
        }
        i += 1;
    }
    proof {
        assert(ov.take(ov.len() as int) =~= ov);
    }
    out
}

/// Decides whether the caller supplied an explicit `host` option.
fn options_set_host(opts: &Vec<ConfigOption>) -> (r: bool)
    ensures
        r == has_explicit_host(opts.deep_view()),
{
    let ghost ov = opts.deep_view();
    let mut i: usize = 0;
    while i < opts.len()
        invariant
            ov == opts.deep_view(),
            ov.len() == opts.len(),
            0 <= i <= opts.len(),
            forall|j: int| 0 <= j < i ==> !opt_is_host(#[trigger] ov[j]),
        decreases opts.len() - i,
    {
        let o = &opts[i];
        let found = match o.kind {
            Kind::Arbitrary => str_eq(o.name.as_str(), "host"),
            _ => false,
        };
        if found {
            proof {
                assert(opt_is_host(ov[i as int]));
            }
            return true;
        }
        i += 1;
    }
    false
}

impl Config {
    /// Resolves the target triple, or the diagnostic owed when it is
    /// missing.
    pub fn resolve_target(&self, target_env: &Option<String>) -> (r: Result<String, String>)
        ensures
            match r {
                Ok(t) => resolved_target(self@, target_env.deep_view()) == Some(t@),
                Err(m) => resolved_target(self@, target_env.deep_view()) is None && m@
                    == missing_env_message("TARGET"@),
            },
    {
        match &self.target {
            Some(t) => Ok(t.clone()),
            None => match target_env {
                Some(t) => Ok(t.clone()),
                None => Err(render_missing_env("TARGET")),
            },
        }
    }

    /// Resolves the host triple, or the diagnostic owed when it is missing.
    pub fn resolve_host(&self, host_env: &Option<String>) -> (r: Result<String, String>)
        ensures
            match r {
                Ok(h) => resolved_host(self@, host_env.deep_view()) == Some(h@),
                Err(m) => resolved_host(self@, host_env.deep_view()) is None && m@
                    == missing_env_message("HOST"@),
            },
    {
        match &self.host {
            Some(h) => Ok(h.clone()),
            None => match host_env {
                Some(h) => Ok(h.clone()),
                None => Err(render_missing_env("HOST")),
            },
        }
    }

    /// Resolves the install/output directory.
    fn resolve_out_dir(&self, out_dir_env: &Option<String>) -> (r: Option<String>)
        ensures
            r.deep_view() == resolved_out_dir(self@, out_dir_env.deep_view()),
    {
        if self.build_insource {
            Some(self.path.clone())
        } else {
            match &self.out_dir {
                Some(d) => Some(d.clone()),
                None => match out_dir_env {
                    Some(e) => Some(e.clone()),
                    None => None,
                },
            }
        }
    }

    /// The resolved build directory for a known output directory.
    fn build_dir(&self, dst: &str) -> (r: String)
        ensures
            r@ == build_dir_of(self@, dst@),
    {
        if self.build_insource {
            self.path.clone()
        } else {
            concat2(dst, "/build")
        }
    }

    /// Assembles the filtered configure argument list.
    fn configure_args_exec(
        &self,
        inp: &ConfigureInputs,
        target: &str,
        dst: &str,
        c_path: &str,
    ) -> (r: Vec<String>)
        ensures
            r.deep_view() == configure_args(self@, *inp, target@, dst@, c_path@),
    {
        let ghost cfgv = self@;
        let mut args: Vec<String> = Vec::new();
        if str_contains(target, "emscripten") {
            push_token(&mut args, concat2(self.path.as_str(), "/configure"));
        }
        proof {
            assert(args.deep_view() =~= script_args(cfgv, target@));
        }
        push_token(&mut args, concat2("--prefix=", dst));
        match &inp.path_translation {
            Some(p) => {
                push_token(&mut args, concat2("--prefix=", p.prefix.as_str()));
                push_token(&mut args, concat2("--srcdir=", p.srcdir.as_str()));
            },
            None => {},
        }
        if self.enable_shared {
            push_token(&mut args, String::from_str("--enable-shared"));
        } else {
            push_token(&mut args, String::from_str("--disable-shared"));
        }
        if self.enable_static {
            push_token(&mut args, String::from_str("--enable-static"));
        } else {
            push_token(&mut args, String::from_str("--disable-static"));
        }
        proof {
            assert(args.deep_view() =~= script_args(cfgv, target@) + seq!["--prefix="@ + dst@]
                + translation_args(inp.path_translation) + linkage_args(cfgv));
        }
        let mut opt_tokens = encode_all_options(&self.options);
        let ghost mid = args.deep_view();
        args.append(&mut opt_tokens);
        proof {
            assert(args.deep_view() =~= mid + encoded_options(cfgv.options));
        }
        let config_host = options_set_host(&self.options);
        if !config_host {
            let derived = derive_host(c_path);
            match derived {
                Some(h) => {
                    push_token(&mut args, concat2("--host=", h.as_str()));
                },
                None => {},
            }
        }
        proof {
            assert(args.deep_view() =~= configure_args_unfiltered(
                cfgv,
                *inp,
                target@,
                dst@,
                c_path@,
            ));
        }
        keep_allowed_args(&args, &self.forbidden_args)
    }

    /// Assembles the configure environment entries.
    fn configure_envs_exec(
        &self,
        inp: &ConfigureInputs,
        c: &CompilerInfo,
        cxx: &CompilerInfo,
    ) -> (r: Vec<(String, String)>)
        ensures
            r.deep_view() == configure_envs(self@, *inp, *c, *cxx),
    {
        let ghost cfgv = self@;
        let mut envs: Vec<(String, String)> = Vec::new();
        let user_c = join_flags(&self.cflags);
        push_env(
            &mut envs,
            String::from_str("CFLAGS"),
            assemble_flags(c.cflags.as_str(), &inp.cflags_env, user_c.as_str()),
        );
        let user_cxx = join_flags(&self.cxxflags);
        push_env(
            &mut envs,
            String::from_str("CXXFLAGS"),
            assemble_flags(cxx.cflags.as_str(), &inp.cxxflags_env, user_cxx.as_str()),
        );
        let user_ld = join_flags(&self.ldflags);
        let ld = ld_env_entry(&inp.ldflags_env, user_ld.as_str());
        match ld {
            Some(v) => {
                push_env(&mut envs, String::from_str("LDFLAGS"), v);
            },
            None => {},
        }
        push_env(&mut envs, String::from_str("CC"), c.path.clone());
        push_env(&mut envs, String::from_str("CXX"), cxx.path.clone());
        extend_envs(&mut envs, &c.env);
        extend_envs(&mut envs, &cxx.env);
        extend_envs(&mut envs, &self.env);
        proof {
            assert(envs.deep_view() =~= configure_envs(cfgv, *inp, *c, *cxx));
        }
        envs
    }

    /// Plans the reconfigure and configure phases, for the given injected
    /// values and discovered compilers: every argument, every environment
    /// entry, the resolved directories and the rendered fingerprint.  Errs
    /// with the exact diagnostic when a required injected value is missing.
    pub fn try_configure(
        &self,
        inp: &ConfigureInputs,
        c: &CompilerInfo,
        cxx: &CompilerInfo,
    ) -> (r: Result<ConfigurePlan, String>)
        ensures
            match r {
                Ok(p) => env_missing(self@, *inp) is None && configure_plan_matches(
                    p,
                    self@,
                    *inp,
                    *c,
                    *cxx,
                ),
                Err(m) => env_missing(self@, *inp) == Some(m@),
            },
    {
        let target = match self.resolve_target(&inp.target_env) {
            Ok(t) => t,
            Err(m) => {
                return Err(m);
            },
        };
        match self.resolve_host(&inp.host_env) {
            Ok(_) => {},
            Err(m) => {
                return Err(m);
            },
        }
        let dst = match self.resolve_out_dir(&inp.out_dir_env) {
            Some(d) => d,
            None => {
                return Err(render_missing_env("OUT_DIR"));
            },
        };
        let build = self.build_dir(dst.as_str());
        let reconfigure = match &self.reconfig {
            Some(f) => {
                let mut rargs: Vec<String> = Vec::new();
                push_token(&mut rargs, f.clone());
                proof {
                    assert(rargs.deep_view() =~= seq![f@]);
                }
                let rc = Command {
                    program: String::from_str("autoreconf"),
                    args: rargs,
                    envs: Vec::new(),
                    dir: self.path.clone(),
                };
                proof {
                    assert(rc.envs.deep_view() =~= Seq::<(Seq<char>, Seq<char>)>::empty());
                }
                Some(rc)
            },
            None => None,
        };
        let args = self.configure_args_exec(inp, target.as_str(), dst.as_str(), c.path.as_str());
        let envs = self.configure_envs_exec(inp, c, cxx);
        let program = if str_contains(target.as_str(), "emscripten") {
            String::from_str("emconfigure")
        } else {
            concat2(self.path.as_str(), "/configure")
        };
        let cmd = Command { program, args, envs, dir: build.clone() };
        let fp = cmd.fingerprint();
        let plan = ConfigurePlan {
            reconfigure,
            configure: cmd,
            out_dir: dst,
            build_dir: build,
            create_build_dir: !self.build_insource,
            use_fingerprint: self.fast_build,
            fingerprint: fp,
        };
        Ok(plan)
    }

    /// Plans the configure phase; every required injected value must be
    /// present.
    pub fn configure(&self, inp: &ConfigureInputs, c: &CompilerInfo, cxx: &CompilerInfo) -> (r:
        ConfigurePlan)
        requires
            env_missing(self@, *inp) is None,
        ensures
            configure_plan_matches(r, self@, *inp, *c, *cxx),
    {
        match self.try_configure(inp, c, cxx) {
            Ok(p) => p,
            Err(_) => unreached(),
        }
    }

    /// Plans the make phase.  Errs with the exact diagnostic when a required
    /// injected value is missing.
    pub fn try_make(&self, minp: &MakeInputs) -> (r: Result<MakePlan, String>)
        ensures
            match r {
                Ok(p) => make_missing(self@, *minp) is None && make_plan_matches(p, self@, *minp),
                Err(m) => make_missing(self@, *minp) == Some(m@),
            },
    {
        let ghost cfgv = self@;
        let dst = match self.resolve_out_dir(&minp.out_dir_env) {
            Some(d) => d,
            None => {
                return Err(render_missing_env("OUT_DIR"));
            },
        };
        let target = match self.resolve_target(&minp.target_env) {
            Ok(t) => t,
            Err(m) => {
                return Err(m);
            },
        };
        let build = self.build_dir(dst.as_str());
        let exe = match &minp.make_env {
            Some(m) => m.clone(),
            None => String::from_str("make"),
        };
        let mut args: Vec<String> = Vec::new();
        let emu = str_contains(target.as_str(), "emscripten");
        let program: String = if emu {
            push_token(&mut args, exe);
            String::from_str("emmake")
        } else {
            exe
        };
        if self.make_targets.len() == 0 {
            push_token(&mut args, String::from_str("install"));
        } else {
            extend_tokens(&mut args, &self.make_targets);
        }
        extend_tokens(&mut args, &self.make_args);
        let mut envs: Vec<(String, String)> = Vec::new();
        match &minp.num_jobs {
            Some(n) => {
                if minp.jobserver_flags.is_some() && minp.jobserver_supported {
                    match &minp.jobserver_flags {
                        Some(j) => {
                            push_env(&mut envs, String::from_str("MAKEFLAGS"), j.clone());
                        },
                        None => {},
                    }
                } else {
                    push_token(&mut args, concat2("-j", n.as_str()));
                }
            },
            None => {},
        }
        proof {
            assert(args.deep_view() =~= make_args_full(cfgv, target@, *minp));
            assert(envs.deep_view() =~= make_envs(*minp));
        }
        Ok(
            MakePlan {
                make: Command { program, args, envs, dir: build },
                out_dir: dst,
            },
        )
    }

    /// Plans both phases: the reconfigure/configure plan and the make plan.
    /// Errs with the configure phase's diagnostic first, then the make
    /// phase's.
    pub fn try_build(
        &self,
        inp: &ConfigureInputs,
        c: &CompilerInfo,
        cxx: &CompilerInfo,
        minp: &MakeInputs,
    ) -> (r: Result<BuildPlan, String>)
        ensures
            match r {
                Ok(p) => {
                    &&& env_missing(self@, *inp) is None
                    &&& make_missing(self@, *minp) is None
                    &&& configure_plan_matches(p.configure, self@, *inp, *c, *cxx)
                    &&& make_plan_matches(p.make, self@, *minp)
                },
                Err(m) => match env_missing(self@, *inp) {
                    Some(e) => m@ == e,
                    None => make_missing(self@, *minp) == Some(m@),
                },
            },
    {
        let configure = match self.try_configure(inp, c, cxx) {
            Ok(p) => p,
            Err(m) => {
                return Err(m);
            },
        };
        let make = match self.try_make(minp) {
            Ok(p) => p,
            Err(m) => {
                return Err(m);
            },
        };
        Ok(BuildPlan { configure, make })
    }

    /// Plans both phases; every required injected value must be present.
    pub fn build(
        &self,
        inp: &ConfigureInputs,
        c: &CompilerInfo,
        cxx: &CompilerInfo,
        minp: &MakeInputs,
    ) -> (r: BuildPlan)
        requires
            env_missing(self@, *inp) is None,
            make_missing(self@, *minp) is None,
        ensures
            configure_plan_matches(r.configure, self@, *inp, *c, *cxx),
            make_plan_matches(r.make, self@, *minp),
    {
        match self.try_build(inp, c, cxx, minp) {
            Ok(p) => p,
            Err(_) => unreached(),
        }
    }
}

} // verus!
