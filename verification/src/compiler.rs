//! The native-compiler discovery service, an external collaborator: the `cc`
//! crate resolves the compiler executable, its default flags and its
//! environment for a given target/host pair.  What it reports depends on the
//! ambient environment, so the library states nothing about the values and
//! plans every command for whatever came back.

use vstd::prelude::*;
use crate::messages::{compiler_message, render_compiler_message};

verus! {

/// What the discovery service reports for one compiler: the executable path
/// as text, the compiler's own default flags in `CFLAGS` form, and the
/// environment entries the tool needs.
pub struct CompilerInfo {
    pub path: String,
    pub cflags: String,
    pub env: Vec<(String, String)>,
}

/// Relies on `cc::Build` (`cargo_metadata`, `cpp`, `target`, `warnings`,
/// `host`, `try_get_compiler`) and `cc::Tool` (`path`, `cflags_env`, `env`):
/// discovers the C (or, with `cpp`, the C++) compiler for the given target
/// and host triples.  The result depends on the ambient environment, so
/// nothing is stated of it; `None` stands for a failed discovery or for
/// command text that is not valid Unicode.
#[verifier::external_body]
fn discover_tool(target: &str, host: &str, cpp: bool) -> (r: Option<CompilerInfo>) {
    let mut b = cc::Build::new();
    b.cargo_metadata(false).cpp(cpp).target(target).warnings(false).host(host);
    let tool = b.try_get_compiler().ok()?;
    let path = tool.path().to_str()?.to_string();
    let cflags = tool.cflags_env().into_string().ok()?;
    let mut env: Vec<(String, String)> = Vec::new();
    for (k, v) in tool.env() {
        env.push((k.to_str()?.to_string(), v.to_str()?.to_string()));
    }
    Some(CompilerInfo { path, cflags, env })
}

/// Asks the discovery service for the C and the C++ compiler.  Discovery
/// reads the ambient environment, so success cannot be promised; a failure
/// of either discovery is the library's compiler diagnostic.
pub fn discover_compilers(target: &str, host: &str) -> (r: Result<
    (CompilerInfo, CompilerInfo),
    String,
>)
    ensures
        r is Err ==> r->Err_0@ == compiler_message(),
{
    let c = discover_tool(target, host, false);
    let cxx = discover_tool(target, host, true);
    match (c, cxx) {
        (Some(a), Some(b)) => Ok((a, b)),
        _ => Err(render_compiler_message()),
    }
}

} // verus!
