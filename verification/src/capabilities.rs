//! Capability negotiation: a pure, total function from the feature toggles,
//! the indexing mode and the client's initialize parameters to the
//! capability document sent back during the handshake.

use vstd::prelude::*;

use crate::config::DisabledLanguageServices;
use crate::config::FeatureKind;
use crate::config::IndexingMode;

verus! {

/// The initialize parameters the remote peer supplied, reduced to the plain
/// values this core reads.  Every field a client may omit is optional here:
/// an absent field is represented, never an error.
#[derive(Clone, Debug)]
pub struct ClientInitParams {
    /// The peer's process id, if it declared one.
    pub process_id: Option<i64>,
    /// The root URI of the workspace, if one was declared.
    pub root_uri: Option<String>,
    /// The declared workspace folders, as URIs.
    pub workspace_folders: Vec<String>,
}

/// The negotiated capability document: one "advertised" entry per
/// [`FeatureKind`], to be wrapped with the static server metadata by the
/// handshake coordinator.
#[derive(Clone, Copy, Debug, PartialEq, Eq, Structural)]
pub struct ServerCapabilities {
    /// Go-to-definition is advertised.
    pub definition_provider: bool,
    /// Go-to-type-definition is advertised.
    pub type_definition_provider: bool,
    /// Code actions are advertised.
    pub code_action_provider: bool,
    /// Completion is advertised.
    pub completion_provider: bool,
    /// Document highlight is advertised.
    pub document_highlight_provider: bool,
    /// Find references is advertised.
    pub references_provider: bool,
    /// Rename is advertised.
    pub rename_provider: bool,
    /// Signature help is advertised.
    pub signature_help_provider: bool,
    /// Hover is advertised.
    pub hover_provider: bool,
    /// Inlay hints are advertised.
    pub inlay_hint_provider: bool,
    /// Document symbols are advertised.
    pub document_symbol_provider: bool,
    /// Workspace symbols are advertised.
    pub workspace_symbol_provider: bool,
    /// Semantic tokens are advertised.
    pub semantic_tokens_provider: bool,
}

impl ServerCapabilities {
    /// Whether the document advertises one service.
    pub open spec fn advertises(self, kind: FeatureKind) -> bool {
        match kind {
            FeatureKind::Definition => self.definition_provider,
            FeatureKind::TypeDefinition => self.type_definition_provider,
            FeatureKind::CodeAction => self.code_action_provider,
            FeatureKind::Completion => self.completion_provider,
            FeatureKind::DocumentHighlight => self.document_highlight_provider,
            FeatureKind::References => self.references_provider,
            FeatureKind::Rename => self.rename_provider,
            FeatureKind::SignatureHelp => self.signature_help_provider,
            FeatureKind::Hover => self.hover_provider,
            FeatureKind::InlayHint => self.inlay_hint_provider,
            FeatureKind::DocumentSymbol => self.document_symbol_provider,
            FeatureKind::WorkspaceSymbol => self.workspace_symbol_provider,
            FeatureKind::SemanticTokens => self.semantic_tokens_provider,
        }
    }
}

/// Whether a service can only be served from a built workspace index.
/// Membership of this subset is a product decision; the structural rule —
/// such a service is withheld whenever no index will be built — is what the
/// negotiation guarantees.
pub open spec fn feature_requires_index(kind: FeatureKind) -> bool {
    match kind {
        FeatureKind::References => true,
        FeatureKind::Rename => true,
        FeatureKind::WorkspaceSymbol => true,
        _ => false,
    }
}

/// The negotiation policy: a service is advertised iff its toggle does not
/// disable it and, where the service depends on the index, an index will be
/// built at all.
pub open spec fn negotiated(
    mode: IndexingMode,
    toggles: DisabledLanguageServices,
) -> ServerCapabilities {
    ServerCapabilities {
        definition_provider: !toggles.definition,
        type_definition_provider: !toggles.type_definition,
        code_action_provider: !toggles.code_action,
        completion_provider: !toggles.completion,
        document_highlight_provider: !toggles.document_highlight,
        references_provider: !toggles.references && !(mode is NoIndexing),
        rename_provider: !toggles.rename && !(mode is NoIndexing),
        signature_help_provider: !toggles.signature_help,
        hover_provider: !toggles.hover,
        inlay_hint_provider: !toggles.inlay_hint,
        document_symbol_provider: !toggles.document_symbol,
        workspace_symbol_provider: !toggles.workspace_symbol && !(mode is NoIndexing),
        semantic_tokens_provider: !toggles.semantic_tokens,
    }
}

/// Build the capability document.  Pure, deterministic and total: it never
/// fails, reads `params` only, and mutates neither argument.  The document
/// is exactly the negotiation policy applied to the toggles and the mode;
/// the client's parameters carry no weight in this policy.
pub fn build_capabilities(
    mode: IndexingMode,
    toggles: &DisabledLanguageServices,
    params: &ClientInitParams,
) -> (caps: ServerCapabilities)
    ensures
        caps == negotiated(mode, *toggles),
{
    let index_will_be_built = match mode {
        IndexingMode::NoIndexing => false,
        IndexingMode::LazyNonBlockingBackground => true,
        IndexingMode::LazyBlocking => true,
    };
    ServerCapabilities {
        definition_provider: !toggles.definition,
        type_definition_provider: !toggles.type_definition,
        code_action_provider: !toggles.code_action,
        completion_provider: !toggles.completion,
        document_highlight_provider: !toggles.document_highlight,
        references_provider: !toggles.references && index_will_be_built,
        rename_provider: !toggles.rename && index_will_be_built,
        signature_help_provider: !toggles.signature_help,
        hover_provider: !toggles.hover,
        inlay_hint_provider: !toggles.inlay_hint,
        document_symbol_provider: !toggles.document_symbol,
        workspace_symbol_provider: !toggles.workspace_symbol && index_will_be_built,
        semantic_tokens_provider: !toggles.semantic_tokens,
    }
}

/// Law: the negotiated document advertises a service exactly when its
/// toggle does not disable it and, if it depends on the index, the mode
/// builds one.  Stated for every toggle combination and every service.
pub proof fn lemma_negotiation_policy(
    mode: IndexingMode,
    toggles: DisabledLanguageServices,
    kind: FeatureKind,
)
    ensures
        negotiated(mode, toggles).advertises(kind) == (!toggles.is_disabled(kind) && (
        feature_requires_index(kind) ==> !(mode is NoIndexing))),
{
}

/// Law: a service with no indexing dependency is governed by its toggle
/// alone — for every toggle combination it is advertised exactly when it is
/// not disabled, whatever the indexing mode.
pub proof fn lemma_toggle_governs_non_index_feature(
    mode: IndexingMode,
    toggles: DisabledLanguageServices,
    kind: FeatureKind,
)
    requires
        !feature_requires_index(kind),
    ensures
        negotiated(mode, toggles).advertises(kind) == !toggles.is_disabled(kind),
{
}

/// Law: a disabled service is never advertised, whatever the mode.
pub proof fn lemma_disabled_feature_withheld(
    mode: IndexingMode,
    toggles: DisabledLanguageServices,
    kind: FeatureKind,
)
    requires
        toggles.is_disabled(kind),
    ensures
        !negotiated(mode, toggles).advertises(kind),
{
}

/// Law: with no indexing, no index-dependent service is ever advertised,
/// regardless of the toggle state.
pub proof fn lemma_no_indexing_withholds_index_features(
    toggles: DisabledLanguageServices,
    kind: FeatureKind,
)
    requires
        feature_requires_index(kind),
    ensures
        !negotiated(IndexingMode::NoIndexing, toggles).advertises(kind),
{
}

} // verus!
