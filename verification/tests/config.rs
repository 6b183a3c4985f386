use multi_isolate::config::{BootstrapConfig, ModuleProvider, PermissionSet, WorkerCreation};

#[test]
fn standard_configuration_spells_out_every_option() {
    let c = BootstrapConfig::standard();
    assert!(c.args.is_empty());
    assert!(!c.apply_source_maps);
    assert_eq!(c.cpu_count, 0);
    assert!(!c.debug_flag);
    assert!(!c.enable_testing_features);
    assert_eq!(c.location, None);
    assert!(!c.no_color);
    assert_eq!(c.runtime_version, "");
    assert_eq!(c.ts_version, "");
    assert!(c.unstable);
    assert!(c.extensions.is_empty());
    assert_eq!(c.unsafely_ignore_certificate_errors, None);
    assert!(!c.custom_root_cert_store);
    assert_eq!(c.user_agent, "");
    assert_eq!(c.seed, None);
    assert_eq!(c.module_provider, ModuleProvider::SingleModule);
    assert_eq!(c.worker_creation, WorkerCreation::Unsupported);
    assert!(!c.custom_error_formatting);
    assert_eq!(c.inspector_server, None);
    assert!(!c.should_break_on_first_statement);
    assert!(!c.custom_error_classifier);
    assert_eq!(c.origin_storage_dir, None);
    assert!(!c.shared_blob_store);
    assert!(!c.shared_broadcast_channel);
    assert!(!c.shared_array_buffer_store);
    assert!(!c.compiled_wasm_module_store);
}

#[test]
fn every_isolate_is_granted_all_capabilities() {
    assert_eq!(PermissionSet::granted(), PermissionSet::AllowAll);
    assert_ne!(PermissionSet::granted(), PermissionSet::DenyAll);
}
