//! What an isolate is created with: every option, spelled out.

use vstd::prelude::*;

verus! {

/// Where an isolate gets its modules from.
#[derive(Clone, Copy, Debug, PartialEq, Eq, Structural)]
pub enum ModuleProvider {
    /// The loader of this crate, which serves one module.
    SingleModule,
    /// Any module that a locator reaches.
    Unrestricted,
}

/// What happens when a program asks for a worker of its own.
#[derive(Clone, Copy, Debug, PartialEq, Eq, Structural)]
pub enum WorkerCreation {
    /// The request is fatal: nested workers are not supported.
    Unsupported,
    /// A worker is created.
    Supported,
}

/// The capabilities that an isolate is granted.
#[derive(Clone, Copy, Debug, PartialEq, Eq, Structural)]
pub enum PermissionSet {
    /// Every capability.
    AllowAll,
    /// No capability.
    DenyAll,
}

/// The options of an isolate's creation. There are no hidden defaults: an
/// option that is not set here is not set.
#[derive(Debug)]
pub struct BootstrapConfig {
    /// The arguments that the program sees.
    pub args: Vec<String>,
    /// Whether positions in errors are translated through source maps.
    pub apply_source_maps: bool,
    /// The number of logical CPUs reported to the program; 0 leaves it unset.
    pub cpu_count: usize,
    pub debug_flag: bool,
    /// Whether the extensions meant for testing are switched on.
    pub enable_testing_features: bool,
    /// The document location reported to the program.
    pub location: Option<String>,
    /// Whether colour is suppressed in what the isolate prints.
    pub no_color: bool,
    pub runtime_version: String,
    pub ts_version: String,
    /// Whether the experimental features are switched on.
    pub unstable: bool,
    /// The names of the host extensions.
    pub extensions: Vec<String>,
    /// The hosts whose certificate errors are ignored; `None` ignores none.
    pub unsafely_ignore_certificate_errors: Option<Vec<String>>,
    /// Whether a root certificate store replaces the system's.
    pub custom_root_cert_store: bool,
    pub user_agent: String,
    /// The seed of the random numbers; `None` leaves them unseeded.
    pub seed: Option<u64>,
    pub module_provider: ModuleProvider,
    pub worker_creation: WorkerCreation,
    /// Whether errors are formatted by a function of the host.
    pub custom_error_formatting: bool,
    /// The address of the inspector's server.
    pub inspector_server: Option<String>,
    pub should_break_on_first_statement: bool,
    /// Whether errors are classified by a function of the host.
    pub custom_error_classifier: bool,
    /// The directory of the storage that is kept per origin.
    pub origin_storage_dir: Option<String>,
    /// Whether the blob store is shared with other isolates.
    pub shared_blob_store: bool,
    /// Whether the broadcast channel is shared with other isolates.
    pub shared_broadcast_channel: bool,
    /// Whether a store for shared memory buffers is attached.
    pub shared_array_buffer_store: bool,
    /// Whether a cache of compiled binary modules is attached.
    pub compiled_wasm_module_store: bool,
}

/// What a `BootstrapConfig` holds, as mathematical values.
pub struct BootstrapConfigView {
    pub args: Seq<Seq<char>>,
    pub apply_source_maps: bool,
    pub cpu_count: nat,
    pub debug_flag: bool,
    pub enable_testing_features: bool,
    pub location: Option<Seq<char>>,
    pub no_color: bool,
    pub runtime_version: Seq<char>,
    pub ts_version: Seq<char>,
    pub unstable: bool,
    pub extensions: Seq<Seq<char>>,
    pub unsafely_ignore_certificate_errors: Option<Seq<Seq<char>>>,
    pub custom_root_cert_store: bool,
    pub user_agent: Seq<char>,
    pub seed: Option<u64>,
    pub module_provider: ModuleProvider,
    pub worker_creation: WorkerCreation,
    pub custom_error_formatting: bool,
    pub inspector_server: Option<Seq<char>>,
    pub should_break_on_first_statement: bool,
    pub custom_error_classifier: bool,
    pub origin_storage_dir: Option<Seq<char>>,
    pub shared_blob_store: bool,
    pub shared_broadcast_channel: bool,
    pub shared_array_buffer_store: bool,
    pub compiled_wasm_module_store: bool,
}

impl View for BootstrapConfig {
    type V = BootstrapConfigView;

    open spec fn view(&self) -> BootstrapConfigView {
        BootstrapConfigView {
            args: self.args.deep_view(),
            apply_source_maps: self.apply_source_maps,
            cpu_count: self.cpu_count as nat,
            debug_flag: self.debug_flag,
            enable_testing_features: self.enable_testing_features,
            location: self.location.deep_view(),
            no_color: self.no_color,
            runtime_version: self.runtime_version@,
            ts_version: self.ts_version@,
            unstable: self.unstable,
            extensions: self.extensions.deep_view(),
            unsafely_ignore_certificate_errors: self.unsafely_ignore_certificate_errors.deep_view(),
            custom_root_cert_store: self.custom_root_cert_store,
            user_agent: self.user_agent@,
            seed: self.seed,
            module_provider: self.module_provider,
            worker_creation: self.worker_creation,
            custom_error_formatting: self.custom_error_formatting,
            inspector_server: self.inspector_server.deep_view(),
            should_break_on_first_statement: self.should_break_on_first_statement,
            custom_error_classifier: self.custom_error_classifier,
            origin_storage_dir: self.origin_storage_dir.deep_view(),
            shared_blob_store: self.shared_blob_store,
            shared_broadcast_channel: self.shared_broadcast_channel,
            shared_array_buffer_store: self.shared_array_buffer_store,
            compiled_wasm_module_store: self.compiled_wasm_module_store,
        }
    }
}

/// The configuration that every isolate is created with.
pub open spec fn standard_config() -> BootstrapConfigView {
    BootstrapConfigView {
        args: Seq::empty(),
        apply_source_maps: false,
        cpu_count: 0,
        debug_flag: false,
        enable_testing_features: false,
        location: None,
        no_color: false,
        runtime_version: Seq::empty(),
        ts_version: Seq::empty(),
        unstable: true,
        extensions: Seq::empty(),
        unsafely_ignore_certificate_errors: None,
        custom_root_cert_store: false,
        user_agent: Seq::empty(),
        seed: None,
        module_provider: ModuleProvider::SingleModule,
        worker_creation: WorkerCreation::Unsupported,
        custom_error_formatting: false,
        inspector_server: None,
        should_break_on_first_statement: false,
        custom_error_classifier: false,
        origin_storage_dir: None,
        shared_blob_store: false,
        shared_broadcast_channel: false,
        shared_array_buffer_store: false,
        compiled_wasm_module_store: false,
    }
}

impl BootstrapConfig {
    /// Assembles the configuration that every isolate is created with.
    pub fn standard() -> (config: BootstrapConfig)
        ensures
            config@ == standard_config(),
    {
        let config = BootstrapConfig {
            args: Vec::new(),
            apply_source_maps: false,
            cpu_count: 0,
            debug_flag: false,
            enable_testing_features: false,
            location: None,
            no_color: false,
            runtime_version: String::new(),
            ts_version: String::new(),
            unstable: true,
            extensions: Vec::new(),
            unsafely_ignore_certificate_errors: None,
            custom_root_cert_store: false,
            user_agent: String::new(),
            seed: None,
            module_provider: ModuleProvider::SingleModule,
            worker_creation: WorkerCreation::Unsupported,
            custom_error_formatting: false,
            inspector_server: None,
            should_break_on_first_statement: false,
            custom_error_classifier: false,
            origin_storage_dir: None,
            shared_blob_store: false,
            shared_broadcast_channel: false,
            shared_array_buffer_store: false,
            compiled_wasm_module_store: false,
        };
        assert(config.args.deep_view() =~= Seq::<Seq<char>>::empty());
        assert(config.extensions.deep_view() =~= Seq::<Seq<char>>::empty());
        config
    }
}

impl PermissionSet {
    /// The permission set that every isolate is granted: all capabilities.
    pub fn granted() -> (permissions: PermissionSet)
        ensures
            permissions == PermissionSet::AllowAll,
    {
        PermissionSet::AllowAll
    }
}

} // verus!
