use wasi_vfs_cli::binding::{BindingError, DirectoryBinding};
use wasi_vfs_cli::pipeline::{
    EngineError, engine_config, finish_pack, parse_all_bindings, resolve_bindings,
};

fn binding(guest: &str, host: &str) -> DirectoryBinding {
    DirectoryBinding { guest_path: guest.to_string(), host_path: host.to_string() }
}

#[test]
fn parses_every_specification_in_order() {
    let specs = vec!["/data::./fixtures".to_string(), "/etc::/tmp/etc".to_string()];
    let bindings = parse_all_bindings(&specs).expect("both specifications are well formed");
    assert_eq!(bindings.len(), 2);
    assert_eq!(bindings[0].guest_path, "/data");
    assert_eq!(bindings[0].host_path, "./fixtures");
    assert_eq!(bindings[1].guest_path, "/etc");
    assert_eq!(bindings[1].host_path, "/tmp/etc");
}

#[test]
fn zero_bindings_parse_to_an_empty_set() {
    let bindings = parse_all_bindings(&Vec::new()).expect("an empty list is well formed");
    assert!(bindings.is_empty());
}

#[test]
fn reports_the_first_malformed_specification() {
    let specs = vec!["a::b".to_string(), "broken".to_string(), "c::d::e".to_string()];
    match parse_all_bindings(&specs) {
        Ok(_) => panic!("a malformed specification must fail the parse stage"),
        Err(BindingError::InvalidBindingSyntax { input }) => assert_eq!(input, "broken"),
    }
}

#[test]
fn resolves_verbatim_without_compression() {
    let bindings = vec![binding("/data", "./fixtures"), binding("/etc", "/tmp/etc")];
    let resolved = resolve_bindings(&bindings, None);
    assert_eq!(resolved.len(), 2);
    assert_eq!(resolved[0].guest_path, "/data");
    assert_eq!(resolved[0].host_path, "./fixtures");
    assert_eq!(resolved[1].guest_path, "/etc");
    assert_eq!(resolved[1].host_path, "/tmp/etc");
}

#[test]
fn rebinds_host_paths_to_mirrors_under_compression() {
    let bindings = vec![binding("/data", "./fixtures"), binding("/etc", "/tmp/etc")];
    let mirrors = vec!["/tmp/mirror-one".to_string(), "/tmp/mirror-two".to_string()];
    let resolved = resolve_bindings(&bindings, Some(&mirrors));
    assert_eq!(resolved.len(), 2);
    assert_eq!(resolved[0].guest_path, "/data");
    assert_eq!(resolved[0].host_path, "/tmp/mirror-one");
    assert_eq!(resolved[1].guest_path, "/etc");
    assert_eq!(resolved[1].host_path, "/tmp/mirror-two");
}

#[test]
fn engine_configuration_is_fixed() {
    let config = engine_config(vec![binding("/data", "./fixtures")]);
    assert!(config.allow_wasi);
    assert_eq!(config.init_func, "wasi_vfs_pack_fs");
    assert!(config.inherit_stdio);
    assert!(config.inherit_env);
    assert!(config.keep_init_func);
    assert!(config.wasm_bulk_memory);
    assert!(config.packing_signal);
    assert_eq!(config.signal_name, "__WASI_VFS_PACKING");
    assert_eq!(config.signal_value, "1");
    assert_eq!(config.map_dirs.len(), 1);
    assert_eq!(config.map_dirs[0].guest_path, "/data");
}

#[test]
fn zero_bindings_still_configure_a_valid_run() {
    let config = engine_config(Vec::new());
    assert!(config.map_dirs.is_empty());
    assert_eq!(config.init_func, "wasi_vfs_pack_fs");
    // with no filesystem content packaged the engine's output is still released
    let out = finish_pack(Ok(vec![0u8, b'a', b's', b'm']));
    assert_eq!(out, Some(vec![0u8, b'a', b's', b'm']));
}

#[test]
fn output_is_released_only_on_engine_success() {
    let bytes = vec![1u8, 2, 3];
    assert_eq!(finish_pack(Ok(bytes.clone())), Some(bytes));
    let failed = finish_pack(Err(EngineError { message: "sandbox trap".to_string() }));
    assert_eq!(failed, None);
}
