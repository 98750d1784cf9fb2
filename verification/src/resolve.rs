//! The request resolver: one virtual-URI request in, one resolved file path
//! (or a categorized error) out.
//!
//! Resolution strips the fixed scheme-and-host prefix from the request URI,
//! looks the bare path up in the route table, and joins the matched capture
//! onto the snapshot project's root and the subdirectory configured for the
//! matched route kind. It is pure: reading the file and logging stay with
//! the caller, which hands the read outcome to the response builders.

use vstd::prelude::*;
use vstd::string::StrSliceExecFns;
use vstd::string::StringExecFns;

use crate::project::ProjectContext;
use crate::route::ResourceRouter;
use crate::route::ResourceType;
use crate::route::seq_has_prefix;
use crate::route::spec_lookup;
use crate::route::str_has_prefix;

verus! {

/// Why a resolution produced no file path. Both kinds surface to the caller
/// as a plain not-found response; only logs distinguish them.
#[derive(Clone, Copy, Debug, PartialEq, Eq, Structural)]
pub enum ResolveError {
    /// The project context held no loaded project at request time.
    NoProjectLoaded,
    /// The bare path matched no route pattern.
    RouteNotFound,
}

/// A successful resolution: the matched route kind and the concrete file
/// path derived from it.
#[derive(Debug)]
pub struct ResolvedResource {
    pub kind: ResourceType,
    pub path: String,
}

/// The fixed scheme-and-host prefix of every request URI.
pub open spec fn spec_scheme_host() -> Seq<char> {
    "ace://localhost"@
}

/// The scheme-and-host prefix, as executable code.
pub fn scheme_host() -> (r: &'static str)
    ensures
        r@ == spec_scheme_host(),
{
    "ace://localhost"
}

/// The bare path of a request URI: the URI with the fixed scheme-and-host
/// prefix stripped, or the URI unchanged when the prefix is absent.
pub open spec fn spec_bare_path(uri: Seq<char>) -> Seq<char> {
    if seq_has_prefix(uri, spec_scheme_host()) {
        uri.skip(spec_scheme_host().len() as int)
    } else {
        uri
    }
}

/// Strips the fixed scheme-and-host prefix from a request URI.
pub fn strip_scheme_host<'a>(uri: &'a str) -> (r: &'a str)
    ensures
        r@ == spec_bare_path(uri@),
{
    let pre = scheme_host();
    if str_has_prefix(uri, pre) {
        let n = pre.unicode_len();
        let m = uri.unicode_len();
        let r = uri.substring_char(n, m);
        proof {
            assert(r@ =~= uri@.skip(spec_scheme_host().len() as int));
        }
        r
    } else {
        uri
    }
}

/// The resolved resource path: `root`, the configured subdirectory for
/// `kind`, and the capture, joined with `/` separators.
pub open spec fn spec_resource_path(ctx: ProjectContext, kind: ResourceType, cap: Seq<char>) -> Seq<
    char,
> {
    ctx.root@ + "/"@ + ctx.spec_subdir_for(kind) + "/"@ + cap
}

/// The project snapshot a resolution works from, as a value.
pub open spec fn spec_snapshot(project: Option<&ProjectContext>) -> Option<ProjectContext> {
    match project {
        Some(ctx) => Some(*ctx),
        None => None,
    }
}

/// What one resolution returns, for every input.
///
/// With no loaded project it fails at once, whatever the path. Otherwise a
/// bare path matching no route fails as not-found, and a matched route
/// yields the kind and the resource path built from the one snapshot.
pub open spec fn spec_resolve(project: Option<ProjectContext>, uri: Seq<char>) -> Result<
    (ResourceType, Seq<char>),
    ResolveError,
> {
    match project {
        None => Err(ResolveError::NoProjectLoaded),
        Some(ctx) => match spec_lookup(spec_bare_path(uri)) {
            None => Err(ResolveError::RouteNotFound),
            Some(m) => Ok((m.0, spec_resource_path(ctx, m.0, m.1))),
        },
    }
}

/// Resolves one request URI against the route table and a single snapshot
/// of the project context.
pub fn resolve_request(
    router: &ResourceRouter,
    project: Option<&ProjectContext>,
    uri: &str,
) -> (r: Result<ResolvedResource, ResolveError>)
    ensures
        match spec_resolve(spec_snapshot(project), uri@) {
            Ok(m) => r matches Ok(res) && res.kind == m.0 && res.path@ == m.1,
            Err(e) => r matches Err(e2) && e2 == e,
        },
{
    let ctx = match project {
        Some(ctx) => ctx,
        None => {
            return Err(ResolveError::NoProjectLoaded);
        },
    };
    let bare = strip_scheme_host(uri);
    match router.lookup(bare) {
        None => Err(ResolveError::RouteNotFound),
        Some((kind, cap)) => {
            let path = String::from_str(ctx.root_path()).concat("/").concat(
                ctx.subdir_for(kind),
            ).concat("/").concat(cap.as_str());
            Ok(ResolvedResource { kind, path })
        },
    }
}

/// No resolution succeeds without a loaded project: whatever the URI, an
/// empty snapshot fails with `NoProjectLoaded`.
pub proof fn lemma_no_project_never_resolves(uri: Seq<char>)
    ensures
        spec_resolve(None, uri) matches Err(e) && e == ResolveError::NoProjectLoaded,
{
}

/// A resolution never observes a torn project context: whenever the bare
/// path matches a route, the resolved path is built from the root and the
/// configured subdirectory of the one snapshot `ctx`, and from nothing else.
pub proof fn lemma_single_snapshot(ctx: ProjectContext, uri: Seq<char>)
    ensures
        spec_lookup(spec_bare_path(uri)) matches Some(m) ==> spec_resolve(Some(ctx), uri)
            matches Ok(res) && res.0 == m.0 && res.1 == spec_resource_path(ctx, m.0, m.1),
{
}

} // verus!
