use pyrefly_lsp::capabilities::ClientInitParams;
use pyrefly_lsp::config::DisabledLanguageServices;
use pyrefly_lsp::config::IndexingMode;
use pyrefly_lsp::handshake::HandshakeCoordinator;
use pyrefly_lsp::handshake::HandshakeError;
use pyrefly_lsp::handshake::HandshakeState;
use pyrefly_lsp::handshake::RequestId;

fn well_formed_params() -> ClientInitParams {
    ClientInitParams {
        process_id: Some(1234),
        root_uri: Some(String::from("file:///work/project")),
        workspace_folders: vec![String::from("file:///work/project")],
    }
}

#[test]
fn initialize_reports_version_and_completes_once() {
    let mut coordinator = HandshakeCoordinator::new(
        IndexingMode::LazyNonBlockingBackground,
        DisabledLanguageServices::default(),
        String::from("9.9.9"),
    );
    assert_eq!(coordinator.current_phase(), HandshakeState::AwaitingInitializeRequest);

    let response = coordinator
        .begin_initialize(RequestId::Number(1), Some(well_formed_params()))
        .expect("a fresh connection answers its initialize request");
    assert_eq!(response.server_version, "9.9.9");
    assert_eq!(response.server_name, "pyrefly-lsp");
    assert_eq!(response.request_id, RequestId::Number(1));
    assert_eq!(coordinator.current_phase(), HandshakeState::AwaitingInitializeResult);

    coordinator.confirm_result_sent().expect("an outstanding payload can be confirmed");
    assert_eq!(coordinator.current_phase(), HandshakeState::Ready);

    // A second initialize attempt on the same connection is rejected, not
    // silently re-answered.
    let second = coordinator.begin_initialize(RequestId::Number(2), Some(well_formed_params()));
    assert_eq!(second.unwrap_err(), HandshakeError::AlreadyInitialized);
    assert_eq!(coordinator.current_phase(), HandshakeState::Ready);
}

#[test]
fn second_attempt_rejected_even_before_confirmation() {
    let mut coordinator = HandshakeCoordinator::new(
        IndexingMode::LazyBlocking,
        DisabledLanguageServices::default(),
        String::from("0.1.0"),
    );
    coordinator
        .begin_initialize(RequestId::Text(String::from("init-1")), Some(well_formed_params()))
        .expect("first attempt succeeds");
    let second =
        coordinator.begin_initialize(RequestId::Text(String::from("init-2")), Some(well_formed_params()));
    assert_eq!(second.unwrap_err(), HandshakeError::AlreadyInitialized);
}

#[test]
fn unparsed_params_are_fatal() {
    let mut coordinator = HandshakeCoordinator::new(
        IndexingMode::LazyNonBlockingBackground,
        DisabledLanguageServices::default(),
        String::from("0.1.0"),
    );
    let outcome = coordinator.begin_initialize(RequestId::Number(1), None);
    assert_eq!(outcome.unwrap_err(), HandshakeError::InvalidParams);
    assert_eq!(coordinator.current_phase(), HandshakeState::AwaitingInitializeRequest);
}

#[test]
fn confirmation_without_outstanding_payload_is_out_of_order() {
    let mut coordinator = HandshakeCoordinator::new(
        IndexingMode::LazyNonBlockingBackground,
        DisabledLanguageServices::default(),
        String::from("0.1.0"),
    );
    let outcome = coordinator.confirm_result_sent();
    assert_eq!(outcome.unwrap_err(), HandshakeError::OutOfOrder);
    assert_eq!(coordinator.current_phase(), HandshakeState::AwaitingInitializeRequest);
}

#[test]
fn negotiation_respects_toggles_and_mode_in_the_response() {
    let toggles = DisabledLanguageServices { hover: true, ..DisabledLanguageServices::default() };
    let mut coordinator =
        HandshakeCoordinator::new(IndexingMode::NoIndexing, toggles, String::from("1.2.3"));
    let response = coordinator
        .begin_initialize(RequestId::Number(7), Some(well_formed_params()))
        .expect("initialize succeeds");
    assert!(!response.capabilities.hover_provider);
    assert!(!response.capabilities.references_provider);
    assert!(response.capabilities.definition_provider);
}
