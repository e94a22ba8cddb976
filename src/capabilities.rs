//! What the server declares during the `initialize` handshake.
use vstd::prelude::*;
use vstd::string::StringExecFns;
use crate::text::SyncMode;

verus! {

/// The semantic token types of the legend, in legend order.
#[derive(Clone, Copy, Debug, PartialEq, Eq, Structural)]
pub enum TokenType {
    Function,
    Variable,
    Str,
    Comment,
    Number,
    Keyword,
    Operator,
    Parameter,
}

/// Requests that the dispatcher routes to an analysis handler.
#[derive(Clone, Copy, Debug, PartialEq, Eq, Structural)]
pub enum Feature {
    Definition,
    References,
    Rename,
    Formatting,
    RangeFormatting,
    Completion,
    SemanticTokensFull,
    SemanticTokensRange,
    InlayHint,
    ExecuteCommand,
}

/// Features and synchronisation mode that the server declares.
#[derive(Clone, Debug)]
pub struct ServerCapabilities {
    pub server_name: String,
    pub server_version: String,
    pub sync: SyncMode,
    pub definition: bool,
    pub references: bool,
    pub rename: bool,
    pub formatting: bool,
    pub range_formatting: bool,
    pub completion: bool,
    pub completion_resolve: bool,
    pub completion_triggers: Vec<char>,
    pub semantic_tokens_full: bool,
    pub semantic_tokens_range: bool,
    pub token_types: Vec<TokenType>,
    pub selector_language: String,
    pub selector_scheme: String,
    pub selector_pattern: String,
    pub inlay_hint: bool,
    pub execute_command: bool,
    pub commands: Vec<String>,
    pub workspace_folders: bool,
    pub workspace_folder_notifications: bool,
}

/// The legend of semantic token types.
pub open spec fn legend() -> Seq<TokenType> {
    seq![
        TokenType::Function,
        TokenType::Variable,
        TokenType::Str,
        TokenType::Comment,
        TokenType::Number,
        TokenType::Keyword,
        TokenType::Operator,
        TokenType::Parameter,
    ]
}

/// Whether the capabilities declare `f`.
pub open spec fn spec_declares(c: ServerCapabilities, f: Feature) -> bool {
    match f {
        Feature::Definition => c.definition,
        Feature::References => c.references,
        Feature::Rename => c.rename,
        Feature::Formatting => c.formatting,
        Feature::RangeFormatting => c.range_formatting,
        Feature::Completion => c.completion,
        Feature::SemanticTokensFull => c.semantic_tokens_full,
        Feature::SemanticTokensRange => c.semantic_tokens_range,
        Feature::InlayHint => c.inlay_hint,
        Feature::ExecuteCommand => c.execute_command,
    }
}

/// The capabilities this server declares: incremental sync, every analysis
/// feature, and a legend of eight token types.
pub open spec fn is_server_capabilities(c: ServerCapabilities) -> bool {
    &&& c.server_name@ == "Generic language server"@
    &&& c.server_version@ == "0.0.1"@
    &&& c.sync == SyncMode::Incremental
    &&& forall|f: Feature| #[trigger] spec_declares(c, f)
    &&& !c.completion_resolve
    &&& c.completion_triggers@ == seq!['.', ' ']
    &&& c.token_types@ == legend()
    &&& c.selector_language@ == "gen"@
    &&& c.selector_scheme@ == "file"@
    &&& c.selector_pattern@ == "*.gen"@
    &&& c.commands@.len() == 1
    &&& c.commands@[0]@ == "dummy.do_something"@
    &&& c.workspace_folders
    &&& c.workspace_folder_notifications
}

impl ServerCapabilities {
    /// Whether the capabilities declare `f`.
    pub fn declares(&self, f: Feature) -> (r: bool)
        ensures
            r == spec_declares(*self, f),
    {
        match f {
            Feature::Definition => self.definition,
            Feature::References => self.references,
            Feature::Rename => self.rename,
            Feature::Formatting => self.formatting,
            Feature::RangeFormatting => self.range_formatting,
            Feature::Completion => self.completion,
            Feature::SemanticTokensFull => self.semantic_tokens_full,
            Feature::SemanticTokensRange => self.semantic_tokens_range,
            Feature::InlayHint => self.inlay_hint,
            Feature::ExecuteCommand => self.execute_command,
        }
    }
}

/// The capabilities declared in answer to `initialize`.
pub fn server_capabilities() -> (r: ServerCapabilities)
    ensures
        is_server_capabilities(r),
{
    let token_types = vec![
        TokenType::Function,
        TokenType::Variable,
        TokenType::Str,
        TokenType::Comment,
        TokenType::Number,
        TokenType::Keyword,
        TokenType::Operator,
        TokenType::Parameter,
    ];
    let commands = vec![String::from_str("dummy.do_something")];
    let c = ServerCapabilities {
        server_name: String::from_str("Generic language server"),
        server_version: String::from_str("0.0.1"),
        sync: SyncMode::Incremental,
        definition: true,
        references: true,
        rename: true,
        formatting: true,
        range_formatting: true,
        completion: true,
        completion_resolve: false,
        completion_triggers: vec!['.', ' '],
        semantic_tokens_full: true,
        semantic_tokens_range: true,
        token_types,
        selector_language: String::from_str("gen"),
        selector_scheme: String::from_str("file"),
        selector_pattern: String::from_str("*.gen"),
        inlay_hint: true,
        execute_command: true,
        commands,
        workspace_folders: true,
        workspace_folder_notifications: true,
    };
    assert(c.token_types@ =~= legend());
    assert(c.completion_triggers@ =~= seq!['.', ' ']);
    c
}

} // verus!
