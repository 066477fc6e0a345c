//! Configuration-and-invocation engine for `configure && make` style builds.
//!
//! The library plans every command that a legacy autotools build needs:
//! it merges compiler, environment and user flags, encodes `--enable-foo=bar`
//! style options, derives the autotools `--host=` triple from the discovered
//! cross compiler's name, resolves in-source and out-of-source build
//! directories, and decides from a stored fingerprint whether the configure
//! phase may be skipped.  The process spawning and file handling that carry
//! the plans out live outside the library and hand plain values back in.

use vstd::prelude::*;

pub mod command;
pub mod compiler;
pub mod config;
pub mod fingerprint;
pub mod flags;
pub mod messages;
pub mod options;
pub mod phase;
pub mod plan;
pub mod runner;
pub mod text;
pub mod triple;

use crate::compiler::CompilerInfo;
use crate::config::{blank_config, Config, ShellProbe};
use crate::plan::{
    configure_plan_matches, env_missing, make_missing, make_plan_matches, BuildPlan,
    ConfigureInputs, MakeInputs,
};

verus! {

/// Plans the whole build of the project rooted at the absolute path `path`
/// with a blank configuration: default linkage, no options, everything else
/// taken from the injected values.  The shell capability probe must have
/// succeeded and every required injected value must be present.
pub fn build(
    path: &str,
    probe: &ShellProbe,
    inp: &ConfigureInputs,
    c: &CompilerInfo,
    cxx: &CompilerInfo,
    minp: &MakeInputs,
) -> (r: BuildPlan)
    requires
        *probe is Working,
        env_missing(blank_config(path@), *inp) is None,
        make_missing(blank_config(path@), *minp) is None,
    ensures
        configure_plan_matches(r.configure, blank_config(path@), *inp, *c, *cxx),
        make_plan_matches(r.make, blank_config(path@), *minp),
{
    let cfg = Config::new(path, probe);
    cfg.build(inp, c, cxx, minp)
}

} // verus!
