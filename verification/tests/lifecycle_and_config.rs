use pyrefly_lsp::capabilities::ClientInitParams;
use pyrefly_lsp::config::default_workspace_indexing_limit;
use pyrefly_lsp::config::DisabledLanguageServices;
use pyrefly_lsp::config::IndexingMode;
use pyrefly_lsp::config::LspArgs;
use pyrefly_lsp::handshake::HandshakeCoordinator;
use pyrefly_lsp::handshake::RequestId;
use pyrefly_lsp::lifecycle::IndexingAction;
use pyrefly_lsp::lifecycle::ServerLifecycleManager;

fn all_enabled_args(mode: IndexingMode, limit: usize) -> LspArgs {
    LspArgs {
        indexing_mode: mode,
        workspace_indexing_limit: limit,
        disable_definition: false,
        disable_type_definition: false,
        disable_code_action: false,
        disable_completion: false,
        disable_document_highlight: false,
        disable_references: false,
        disable_rename: false,
        disable_signature_help: false,
        disable_hover: false,
        disable_inlay_hint: false,
        disable_document_symbol: false,
        disable_workspace_symbol: false,
        disable_semantic_tokens: false,
    }
}

#[test]
fn default_indexing_mode_is_lazy_non_blocking_background() {
    assert_eq!(IndexingMode::default(), IndexingMode::LazyNonBlockingBackground);
}

#[test]
fn default_workspace_indexing_limit_by_build_profile() {
    assert_eq!(default_workspace_indexing_limit(true), 0);
    assert_eq!(default_workspace_indexing_limit(false), 2000);
}

#[test]
fn default_toggles_disable_nothing() {
    let d = DisabledLanguageServices::default();
    assert_eq!(
        d,
        DisabledLanguageServices {
            definition: false,
            type_definition: false,
            code_action: false,
            completion: false,
            document_highlight: false,
            references: false,
            rename: false,
            signature_help: false,
            hover: false,
            inlay_hint: false,
            document_symbol: false,
            workspace_symbol: false,
            semantic_tokens: false,
        }
    );
}

#[test]
fn disabled_services_maps_each_flag_to_its_own_entry() {
    let mut args = all_enabled_args(IndexingMode::default(), 2000);
    args.disable_references = true;
    args.disable_hover = true;
    let d = args.disabled_services();
    assert!(d.references);
    assert!(d.hover);
    assert!(!d.definition);
    assert!(!d.type_definition);
    assert!(!d.code_action);
    assert!(!d.completion);
    assert!(!d.document_highlight);
    assert!(!d.rename);
    assert!(!d.signature_help);
    assert!(!d.inlay_hint);
    assert!(!d.document_symbol);
    assert!(!d.workspace_symbol);
    assert!(!d.semantic_tokens);
}

#[test]
fn no_indexing_mode_never_schedules() {
    let mut manager = ServerLifecycleManager::new(IndexingMode::NoIndexing, 2000);
    let action = manager.on_file_opened(true, 10);
    assert_eq!(action, IndexingAction::NoAction);
    assert_eq!(manager.scheduled_files(), 0);
}

#[test]
fn unrecognized_file_never_schedules() {
    let mut manager = ServerLifecycleManager::new(IndexingMode::LazyNonBlockingBackground, 2000);
    let action = manager.on_file_opened(false, 10);
    assert_eq!(action, IndexingAction::NoAction);
    assert_eq!(manager.scheduled_files(), 0);
}

#[test]
fn limit_is_a_soft_cap_on_scheduling() {
    let mut manager = ServerLifecycleManager::new(IndexingMode::LazyNonBlockingBackground, 3);
    assert_eq!(manager.on_file_opened(true, 2), IndexingAction::ScheduleOnWorker { files: 2 });
    // Only the rest of the allowance is admitted; what was admitted runs
    // to completion.
    assert_eq!(manager.on_file_opened(true, 5), IndexingAction::ScheduleOnWorker { files: 1 });
    assert_eq!(manager.scheduled_files(), 3);
    // At the limit nothing further is scheduled.
    assert_eq!(manager.on_file_opened(true, 4), IndexingAction::NoAction);
    assert_eq!(manager.scheduled_files(), 3);
}

#[test]
fn zero_limit_schedules_nothing() {
    let mut manager = ServerLifecycleManager::new(IndexingMode::LazyBlocking, 0);
    assert_eq!(manager.on_file_opened(true, 1), IndexingAction::NoAction);
    assert_eq!(manager.scheduled_files(), 0);
}

#[test]
fn end_to_end_lazy_blocking_scenario() {
    // Configuration: lazy-blocking indexing, limit 2000, every toggle off.
    let args = all_enabled_args(IndexingMode::LazyBlocking, 2000);
    let toggles = args.disabled_services();

    // Handshake: every service is advertised as enabled.
    let mut coordinator =
        HandshakeCoordinator::new(args.indexing_mode, toggles, String::from("0.1.0"));
    let params = ClientInitParams {
        process_id: Some(99),
        root_uri: Some(String::from("file:///work/project")),
        workspace_folders: Vec::new(),
    };
    let response = coordinator
        .begin_initialize(RequestId::Number(0), Some(params))
        .expect("initialize succeeds");
    let caps = response.capabilities;
    assert!(caps.definition_provider);
    assert!(caps.type_definition_provider);
    assert!(caps.code_action_provider);
    assert!(caps.completion_provider);
    assert!(caps.document_highlight_provider);
    assert!(caps.references_provider);
    assert!(caps.rename_provider);
    assert!(caps.signature_help_provider);
    assert!(caps.hover_provider);
    assert!(caps.inlay_hint_provider);
    assert!(caps.document_symbol_provider);
    assert!(caps.workspace_symbol_provider);
    assert!(caps.semantic_tokens_provider);
    coordinator.confirm_result_sent().expect("confirmation succeeds");

    // The client opens a file belonging to a recognized project: the batch
    // runs on the request-handling context, blocking it until done.
    let mut manager =
        ServerLifecycleManager::new(args.indexing_mode, args.workspace_indexing_limit);
    let action = manager.on_file_opened(true, 40);
    assert_eq!(action, IndexingAction::RunBlocking { files: 40 });
    assert_eq!(manager.scheduled_files(), 40);
}
