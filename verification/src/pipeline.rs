//! The packaging pipeline around the external pre-initialization engine:
//! parsing the whole binding list, resolving each binding to a verbatim
//! host directory or to its compressed mirror, assembling the engine's
//! fixed configuration, and gating the final write so that output bytes
//! are released only after the engine call fully succeeded.

use vstd::prelude::*;

verus! {

use crate::binding::{
    BindingError,
    DirectoryBinding,
    guest_part,
    host_part,
    parse_map_dirs,
    valid_binding_spec,
};
use vstd::string::StringExecFns;

/// Diagnostic of the external pre-initialization engine, verbatim.
#[derive(Debug)]
pub struct EngineError {
    pub message: String,
}

/// The fixed name of the exported entry point the engine executes.
pub open spec fn entry_point_name() -> Seq<char> {
    "wasi_vfs_pack_fs"@
}

/// The name of the process-wide variable that signals packaging mode to
/// the guest module's own startup logic.
pub open spec fn packing_signal_name() -> Seq<char> {
    "__WASI_VFS_PACKING"@
}

/// The truthy value the packaging-mode variable is set to.
pub open spec fn packing_signal_value() -> Seq<char> {
    "1"@
}

/// The full configuration handed to the external engine for one
/// packaging run.
pub struct EngineConfig {
    /// WASI compatibility is enabled.
    pub allow_wasi: bool,
    /// Name of the exported function the engine executes.
    pub init_func: String,
    /// Standard I/O is inherited from the packaging process.
    pub inherit_stdio: bool,
    /// The environment is inherited from the packaging process.
    pub inherit_env: bool,
    /// The entry point is retained in the output artifact, so the
    /// artifact can be re-initialized later.
    pub keep_init_func: bool,
    /// Bulk-memory-copy support is enabled.
    pub wasm_bulk_memory: bool,
    /// The packaging-mode signal the guest's init routine reads,
    /// threaded explicitly rather than as hidden global state.
    pub packing_signal: bool,
    /// Name of the process-wide variable carrying that signal; its name
    /// and truthy value are a stable part of the interface between the
    /// packager and any guest module it packages.
    pub signal_name: String,
    /// The truthy value the signal variable is set to.
    pub signal_value: String,
    /// The resolved bindings, in input order.
    pub map_dirs: Vec<DirectoryBinding>,
}

/// Parses every `GUEST::HOST` specification, in input order. Succeeds
/// exactly when each one is well formed, and then yields one binding per
/// specification at the same position; otherwise it fails on the first
/// malformed specification, before any later pipeline stage runs.
pub fn parse_all_bindings(specs: &Vec<String>) -> (r: Result<Vec<DirectoryBinding>, BindingError>)
    ensures
        r is Ok <==> (forall|i: int|
            0 <= i < specs@.len() ==> #[trigger] valid_binding_spec(specs@[i]@)),
        r matches Ok(bs) ==> bs@.len() == specs@.len() && (forall|i: int|
            0 <= i < specs@.len() ==> (#[trigger] bs@[i]).guest_path@ == guest_part(specs@[i]@)
                && bs@[i].host_path@ == host_part(specs@[i]@)),
        r matches Err(BindingError::InvalidBindingSyntax { input }) ==> exists|i: int|
            0 <= i < specs@.len() && !#[trigger] valid_binding_spec(specs@[i]@) && input@
                == specs@[i]@ && (forall|j: int|
                0 <= j < i ==> #[trigger] valid_binding_spec(specs@[j]@)),
{
    let n = specs.len();
    let mut out: Vec<DirectoryBinding> = Vec::new();
    let mut k: usize = 0;
    while k < n
        invariant
            n == specs@.len(),
            k <= n,
            out@.len() == k,
            forall|i: int| 0 <= i < k ==> #[trigger] valid_binding_spec(specs@[i]@),
            forall|i: int|
                0 <= i < k ==> (#[trigger] out@[i]).guest_path@ == guest_part(specs@[i]@)
                    && out@[i].host_path@ == host_part(specs@[i]@),
        decreases n - k,
    {
        match parse_map_dirs(specs[k].as_str()) {
            Ok(gh) => {
                out.push(DirectoryBinding { guest_path: gh.0, host_path: gh.1 });
            },
            Err(e) => {
                return Err(e);
            },
        }
        k = k + 1;
    }
    Ok(out)
}

/// Resolves the binding set. With no mirrors (compression disabled) every
/// host path is used verbatim; with mirrors each binding's host path is
/// rebound to its mirror's location. No binding is dropped or reordered,
/// and guest paths are untouched.
pub fn resolve_bindings(bindings: &Vec<DirectoryBinding>, mirror_paths: Option<&Vec<String>>) -> (r:
    Vec<DirectoryBinding>)
    requires
        mirror_paths matches Some(ms) ==> ms@.len() == bindings@.len(),
    ensures
        r@.len() == bindings@.len(),
        forall|i: int|
            0 <= i < r@.len() ==> (#[trigger] r@[i]).guest_path@ == bindings@[i].guest_path@,
        mirror_paths matches Some(ms) ==> (forall|i: int|
            0 <= i < r@.len() ==> (#[trigger] r@[i]).host_path@ == ms@[i]@),
        mirror_paths is None ==> (forall|i: int|
            0 <= i < r@.len() ==> (#[trigger] r@[i]).host_path@ == bindings@[i].host_path@),
{
    let n = bindings.len();
    let mut out: Vec<DirectoryBinding> = Vec::new();
    let mut k: usize = 0;
    while k < n
        invariant
            n == bindings@.len(),
            mirror_paths matches Some(ms) ==> ms@.len() == bindings@.len(),
            k <= n,
            out@.len() == k,
            forall|i: int|
                0 <= i < k ==> (#[trigger] out@[i]).guest_path@ == bindings@[i].guest_path@,
            mirror_paths matches Some(ms) ==> (forall|i: int|
                0 <= i < k ==> (#[trigger] out@[i]).host_path@ == ms@[i]@),
            mirror_paths is None ==> (forall|i: int|
                0 <= i < k ==> (#[trigger] out@[i]).host_path@ == bindings@[i].host_path@),
        decreases n - k,
    {
        let host = match mirror_paths {
            Some(ms) => ms[k].clone(),
            None => bindings[k].host_path.clone(),
        };
        out.push(
            DirectoryBinding { guest_path: bindings[k].guest_path.clone(), host_path: host },
        );
        k = k + 1;
    }
    out
}

/// Assembles the engine configuration for one packaging run: WASI
/// enabled, the fixed entry point, inherited standard I/O and
/// environment, the entry point kept in the output artifact, bulk-memory
/// copies enabled, the packaging-mode signal raised, and the resolved
/// bindings in order.
pub fn engine_config(map_dirs: Vec<DirectoryBinding>) -> (r: EngineConfig)
    ensures
        r.allow_wasi,
        r.init_func@ == entry_point_name(),
        r.inherit_stdio,
        r.inherit_env,
        r.keep_init_func,
        r.wasm_bulk_memory,
        r.packing_signal,
        r.signal_name@ == packing_signal_name(),
        r.signal_value@ == packing_signal_value(),
        r.map_dirs == map_dirs,
{
    EngineConfig {
        allow_wasi: true,
        init_func: String::from_str("wasi_vfs_pack_fs"),
        inherit_stdio: true,
        inherit_env: true,
        keep_init_func: true,
        wasm_bulk_memory: true,
        packing_signal: true,
        signal_name: String::from_str("__WASI_VFS_PACKING"),
        signal_value: String::from_str("1"),
        map_dirs,
    }
}

/// The pipeline's final gate: output bytes are released for the write to
/// the output path exactly when the engine call succeeded. On an engine
/// failure nothing is released, so no partial artifact can ever reach
/// the output path.
pub fn finish_pack(engine_result: Result<Vec<u8>, EngineError>) -> (r: Option<Vec<u8>>)
    ensures
        r is Some <==> engine_result is Ok,
        r matches Some(out) ==> engine_result matches Ok(b) && out@ == b@,
{
    match engine_result {
        Ok(bytes) => Some(bytes),
        Err(_) => None,
    }
}

} // verus!
