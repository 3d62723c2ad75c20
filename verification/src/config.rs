//! Startup configuration: the feature toggles, the indexing mode and the
//! workspace indexing limit.

use vstd::prelude::*;

verus! {

/// One of the thirteen language services the server can offer.  The set is
/// closed: adding a service means adding a variant here and one toggle to
/// [`DisabledLanguageServices`].
#[derive(Clone, Copy, Debug, PartialEq, Eq, Structural)]
pub enum FeatureKind {
    /// Go-to-definition.
    Definition,
    /// Go-to-type-definition.
    TypeDefinition,
    /// Code actions (quick fixes).
    CodeAction,
    /// Completion (autocomplete).
    Completion,
    /// Document highlight.
    DocumentHighlight,
    /// Find references.
    References,
    /// Rename.
    Rename,
    /// Signature help (parameter hints).
    SignatureHelp,
    /// Hover (tooltips).
    Hover,
    /// Inlay hints.
    InlayHint,
    /// Document symbols (outline).
    DocumentSymbol,
    /// Workspace symbols.
    WorkspaceSymbol,
    /// Semantic tokens.
    SemanticTokens,
}

/// The concurrency strategy for building the workspace index.
#[derive(Clone, Copy, Debug, PartialEq, Eq, Structural)]
pub enum IndexingMode {
    /// Do not index anything.  Services that depend on the index (for
    /// example find references) are withheld from the capability document.
    NoIndexing,
    /// Index lazily, on a dedicated worker, so request handling is never
    /// blocked.  This is the default.
    LazyNonBlockingBackground,
    /// Index lazily on the main execution context, blocking request
    /// handling until the triggered batch completes; useful for
    /// deterministic tests.
    LazyBlocking,
}

impl Default for IndexingMode {
    /// When no indexing-mode flag is supplied the effective mode is
    /// `LazyNonBlockingBackground`.
    fn default() -> (mode: Self)
        ensures
            mode is LazyNonBlockingBackground,
    {
        IndexingMode::LazyNonBlockingBackground
    }
}

/// The feature-toggle set: one "disabled" flag for every [`FeatureKind`],
/// no entry missing and none duplicated.  Built once at startup and
/// immutable afterwards.
#[derive(Clone, Copy, Debug, PartialEq, Eq, Structural)]
pub struct DisabledLanguageServices {
    /// Disable go-to-definition.
    pub definition: bool,
    /// Disable go-to-type-definition.
    pub type_definition: bool,
    /// Disable code actions (quick fixes).
    pub code_action: bool,
    /// Disable completion (autocomplete).
    pub completion: bool,
    /// Disable document highlight.
    pub document_highlight: bool,
    /// Disable find references.
    pub references: bool,
    /// Disable rename.
    pub rename: bool,
    /// Disable signature help (parameter hints).
    pub signature_help: bool,
    /// Disable hover (tooltips).
    pub hover: bool,
    /// Disable inlay hints.
    pub inlay_hint: bool,
    /// Disable document symbols (outline).
    pub document_symbol: bool,
    /// Disable workspace symbols.
    pub workspace_symbol: bool,
    /// Disable semantic tokens.
    pub semantic_tokens: bool,
}

impl DisabledLanguageServices {
    /// The flag of one service, as a function of the kind: the toggle set
    /// is in 1:1 correspondence with the flags, so no flag influences
    /// another service's effective state.
    pub open spec fn is_disabled(self, kind: FeatureKind) -> bool {
        match kind {
            FeatureKind::Definition => self.definition,
            FeatureKind::TypeDefinition => self.type_definition,
            FeatureKind::CodeAction => self.code_action,
            FeatureKind::Completion => self.completion,
            FeatureKind::DocumentHighlight => self.document_highlight,
            FeatureKind::References => self.references,
            FeatureKind::Rename => self.rename,
            FeatureKind::SignatureHelp => self.signature_help,
            FeatureKind::Hover => self.hover,
            FeatureKind::InlayHint => self.inlay_hint,
            FeatureKind::DocumentSymbol => self.document_symbol,
            FeatureKind::WorkspaceSymbol => self.workspace_symbol,
            FeatureKind::SemanticTokens => self.semantic_tokens,
        }
    }
}

impl DisabledLanguageServices {
    /// The default toggle set: no service disabled.
    pub open spec fn spec_default() -> DisabledLanguageServices {
        DisabledLanguageServices {
            definition: false,
            type_definition: false,
            code_action: false,
            completion: false,
            document_highlight: false,
            references: false,
            rename: false,
            signature_help: false,
            hover: false,
            inlay_hint: false,
            document_symbol: false,
            workspace_symbol: false,
            semantic_tokens: false,
        }
    }
}

impl Default for DisabledLanguageServices {
    /// By default every service is enabled: no toggle is set.
    fn default() -> (d: Self)
        ensures
            d == DisabledLanguageServices::spec_default(),
            forall|kind: FeatureKind| !(#[trigger] d.is_disabled(kind)),
    {
        DisabledLanguageServices {
            definition: false,
            type_definition: false,
            code_action: false,
            completion: false,
            document_highlight: false,
            references: false,
            rename: false,
            signature_help: false,
            hover: false,
            inlay_hint: false,
            document_symbol: false,
            workspace_symbol: false,
            semantic_tokens: false,
        }
    }
}

/// The default workspace indexing limit: `0` under a restricted build
/// profile, `2000` under a standard one.  The choice depends on the build
/// profile alone, never on another flag.
pub fn default_workspace_indexing_limit(restricted_build: bool) -> (limit: usize)
    ensures
        limit == if restricted_build { 0usize } else { 2000usize },
{
    if restricted_build {
        0
    } else {
        2000
    }
}

/// Arguments for the LSP server.
#[derive(Clone, Debug)]
pub struct LspArgs {
    /// The indexing mode used by the language server.
    pub indexing_mode: IndexingMode,
    /// The maximum number of user files to index in the workspace.
    pub workspace_indexing_limit: usize,
    /// Disable go-to-definition.
    pub disable_definition: bool,
    /// Disable go-to-type-definition.
    pub disable_type_definition: bool,
    /// Disable code actions (quick fixes).
    pub disable_code_action: bool,
    /// Disable completion (autocomplete).
    pub disable_completion: bool,
    /// Disable document highlight.
    pub disable_document_highlight: bool,
    /// Disable find references.
    pub disable_references: bool,
    /// Disable rename.
    pub disable_rename: bool,
    /// Disable signature help (parameter hints).
    pub disable_signature_help: bool,
    /// Disable hover (tooltips).
    pub disable_hover: bool,
    /// Disable inlay hints.
    pub disable_inlay_hint: bool,
    /// Disable document symbols (outline).
    pub disable_document_symbol: bool,
    /// Disable workspace symbols.
    pub disable_workspace_symbol: bool,
    /// Disable semantic tokens.
    pub disable_semantic_tokens: bool,
}

impl LspArgs {
    /// The command-line disable flag that governs one service.
    pub open spec fn disable_flag(self, kind: FeatureKind) -> bool {
        match kind {
            FeatureKind::Definition => self.disable_definition,
            FeatureKind::TypeDefinition => self.disable_type_definition,
            FeatureKind::CodeAction => self.disable_code_action,
            FeatureKind::Completion => self.disable_completion,
            FeatureKind::DocumentHighlight => self.disable_document_highlight,
            FeatureKind::References => self.disable_references,
            FeatureKind::Rename => self.disable_rename,
            FeatureKind::SignatureHelp => self.disable_signature_help,
            FeatureKind::Hover => self.disable_hover,
            FeatureKind::InlayHint => self.disable_inlay_hint,
            FeatureKind::DocumentSymbol => self.disable_document_symbol,
            FeatureKind::WorkspaceSymbol => self.disable_workspace_symbol,
            FeatureKind::SemanticTokens => self.disable_semantic_tokens,
        }
    }

    /// The toggle set that the argument list denotes.
    pub open spec fn spec_disabled_services(self) -> DisabledLanguageServices {
        DisabledLanguageServices {
            definition: self.disable_definition,
            type_definition: self.disable_type_definition,
            code_action: self.disable_code_action,
            completion: self.disable_completion,
            document_highlight: self.disable_document_highlight,
            references: self.disable_references,
            rename: self.disable_rename,
            signature_help: self.disable_signature_help,
            hover: self.disable_hover,
            inlay_hint: self.disable_inlay_hint,
            document_symbol: self.disable_document_symbol,
            workspace_symbol: self.disable_workspace_symbol,
            semantic_tokens: self.disable_semantic_tokens,
        }
    }

    /// Extract the disabled-language-services configuration from the
    /// command-line arguments.  Every flag combination is well formed: the
    /// construction is total and populates every entry exactly once.
    pub fn disabled_services(&self) -> (d: DisabledLanguageServices)
        ensures
            d == self.spec_disabled_services(),
    {
        DisabledLanguageServices {
            definition: self.disable_definition,
            type_definition: self.disable_type_definition,
            code_action: self.disable_code_action,
            completion: self.disable_completion,
            document_highlight: self.disable_document_highlight,
            references: self.disable_references,
            rename: self.disable_rename,
            signature_help: self.disable_signature_help,
            hover: self.disable_hover,
            inlay_hint: self.disable_inlay_hint,
            document_symbol: self.disable_document_symbol,
            workspace_symbol: self.disable_workspace_symbol,
            semantic_tokens: self.disable_semantic_tokens,
        }
    }
}

/// Law: the toggle set is in 1:1 correspondence with the disable flags —
/// each service's effective "disabled" state equals its own flag, so no
/// flag implies another flag's effective state.
pub proof fn lemma_flags_are_independent(args: LspArgs, kind: FeatureKind)
    ensures
        args.spec_disabled_services().is_disabled(kind) == args.disable_flag(kind),
{
}

} // verus!
