//! Inline procedural macros: a module written inside a host crate, plus a
//! small declarative metadata block, is turned into a standalone project,
//! built as a dynamically loadable library by an external tool, and reached
//! at each use site through thin forwarding macros that load the built
//! artifact and call the requested function with token text marshalled
//! across the load boundary.
//!
//! This crate holds the pipeline's logic on plain values: metadata
//! validation, identity derivation, project synthesis, build planning and
//! diagnostic remapping, wrapper generation, invocation planning, and the
//! two surface-syntax conveniences. Filesystem writes, process spawning and
//! dynamic loading are left to the host around it.

pub mod identity;
pub mod invoke;
pub mod metadata;
pub mod orchestrator;
pub mod sugar;
pub mod synth;
pub mod text;
pub mod wrapper;

use vstd::prelude::*;

use crate::identity::CrateIdentity;
use crate::identity::HostPackage;
use crate::invoke::CallPlan;
use crate::invoke::HandleCache;
use crate::invoke::InvocationError;
use crate::invoke::InvocationRequest;
use crate::invoke::check_request;
use crate::metadata::ConfigError;
use crate::metadata::ModuleMetadata;
use crate::metadata::RawMetadata;
use crate::synth::SynthesizedCrate;
use crate::synth::exports_in_order;
use crate::synth::manifest_seq;
use crate::synth::root_path_seq;
use crate::synth::source_seq;
use crate::synth::synthesize;

verus! {

/// What expanding one annotated module yields before the build runs: the
/// validated metadata and the synthesized on-disk project.
pub struct ModuleExpansion {
    pub metadata: ModuleMetadata,
    pub synthesized: SynthesizedCrate,
}

/// Expands one annotated module up to the build: validates the raw metadata,
/// derives the crate identity from the host package (patch version dropped)
/// and the module name, and synthesizes the standalone project's location,
/// manifest and source. Fails exactly when the metadata is rejected, with
/// the same error `metadata::parse` reports; the host then writes the two
/// files, runs the build, and generates the wrappers against the artifact.
pub fn inline_proc(
    host: &HostPackage,
    module_name: &str,
    raw: &RawMetadata,
    items_text: &str,
    temp_root: &str,
) -> (r: Result<ModuleExpansion, ConfigError>)
    ensures
        match (r, crate::metadata::spec_parse(raw.deep_view())) {
            (Ok(ex), Ok(mv)) => {
                &&& ex.metadata.deep_view() == mv
                &&& ex.synthesized.identity.package_name@ == host.name@
                &&& ex.synthesized.identity.major == host.major
                &&& ex.synthesized.identity.minor == host.minor
                &&& ex.synthesized.identity.module_name@ == module_name@
                &&& ex.synthesized.root_path@ == root_path_seq(
                    temp_root@,
                    ex.synthesized.identity.spec_string(),
                )
                &&& ex.synthesized.manifest_text@ == manifest_seq(
                    ex.synthesized.identity.spec_string(),
                    mv.edition,
                    mv.dependencies,
                )
                &&& ex.synthesized.source_text@ == source_seq(exports_in_order(mv), items_text@)
                &&& ex.synthesized.prelude_lines == exports_in_order(mv).len()
            },
            (Err(e), Err(ev)) => e == ev,
            _ => false,
        },
{
    let metadata = match crate::metadata::parse(raw) {
        Ok(m) => m,
        Err(e) => {
            return Err(e);
        },
    };
    let identity = CrateIdentity::of_host(host, module_name);
    let synthesized = synthesize(identity, &metadata, items_text, temp_root);
    Ok(ModuleExpansion { metadata, synthesized })
}

/// Plans one forwarding-macro expansion: checks the request against the
/// calling convention of its kind, then looks the artifact up in the
/// process-wide handle cache, registering `new_handle_id` for it if it has
/// never been loaded. The host performs the load when `must_load` is set,
/// calls the symbol, and interprets the outcome with
/// `invoke::interpret_call_outcome`; a request whose payload does not match
/// its kind's arity is rejected without touching the cache.
pub fn invoke_inline_macro(
    cache: &mut HandleCache,
    request: &InvocationRequest,
    new_handle_id: u64,
) -> (r: Result<CallPlan, InvocationError>)
    requires
        old(cache).wf(),
    ensures
        final(cache).wf(),
        (r is Err) <==> !request.wf(),
        !request.wf() ==> final(cache).entries@ == old(cache).entries@ && r == Err::<
            CallPlan,
            InvocationError,
        >(InvocationError::MalformedRequest),
        request.wf() ==> match r {
            Ok(p) => {
                &&& p.symbol_name@ == request.symbol_name@
                &&& p.must_load == !old(cache).spec_contains(request.artifact_path@)
                &&& final(cache).spec_contains(request.artifact_path@)
                &&& final(cache).spec_handle_of(request.artifact_path@) == p.handle_id
                &&& !p.must_load ==> final(cache).entries@ == old(cache).entries@
                &&& p.must_load ==> p.handle_id == new_handle_id
            },
            Err(_) => false,
        },
{
    if !check_request(request) {
        return Err(InvocationError::MalformedRequest);
    }
    let (handle_id, must_load) = cache.lookup_or_register(
        request.artifact_path.as_str(),
        new_handle_id,
    );
    Ok(CallPlan { handle_id, must_load, symbol_name: request.symbol_name.clone() })
}

} // verus!
