use lsp_engine::capabilities::{server_capabilities, Feature, TokenType};
use lsp_engine::diagnostics::Publisher;
use lsp_engine::error::ErrorKind;
use lsp_engine::handlers::{definition, document_diagnostics, references};
use lsp_engine::requests::InFlight;
use lsp_engine::server::Server;
use lsp_engine::session::{ClientCapabilities, Phase, Session};
use lsp_engine::store::DocumentStore;
use lsp_engine::text::{
    apply_content_changes, offset_of_position, ContentChange, Position, SyncMode, TextRange,
};

fn chars(s: &str) -> Vec<char> {
    s.chars().collect()
}

fn text_of(v: &[char]) -> String {
    v.iter().collect()
}

fn pos(line: u32, character: u32) -> Position {
    Position { line, character }
}

fn edit(l0: u32, c0: u32, l1: u32, c1: u32, t: &str) -> ContentChange {
    ContentChange { range: Some(TextRange { start: pos(l0, c0), end: pos(l1, c1) }), text: chars(t) }
}

fn full(t: &str) -> ContentChange {
    ContentChange { range: None, text: chars(t) }
}

fn client() -> ClientCapabilities {
    ClientCapabilities { workspace_folders: true, versioned_diagnostics: true }
}

fn ready_server() -> Server {
    let mut s = Server::new();
    assert!(s.initialize(client()).is_ok());
    assert!(s.initialized().is_ok());
    s
}

#[test]
fn offsets_count_lines_and_clamp() {
    let t = chars("ab\ncde\nf");
    assert_eq!(offset_of_position(&t, pos(0, 0)), 0);
    assert_eq!(offset_of_position(&t, pos(0, 2)), 2);
    assert_eq!(offset_of_position(&t, pos(0, 9)), 2);
    assert_eq!(offset_of_position(&t, pos(1, 1)), 4);
    assert_eq!(offset_of_position(&t, pos(2, 1)), 8);
    assert_eq!(offset_of_position(&t, pos(7, 0)), 8);
}

#[test]
fn incremental_edits_use_pre_edit_offsets() {
    let t = chars("hello world");
    let cs = vec![edit(0, 0, 0, 5, "bye"), edit(0, 6, 0, 11, "moon")];
    let r = apply_content_changes(SyncMode::Incremental, &t, &cs).unwrap();
    assert_eq!(text_of(&r), "bye moon");
}

#[test]
fn incremental_insertions_and_deletions_across_lines() {
    let t = chars("ab\ncd");
    let cs = vec![edit(0, 1, 0, 1, "X"), edit(0, 2, 1, 1, "")];
    let r = apply_content_changes(SyncMode::Incremental, &t, &cs).unwrap();
    assert_eq!(text_of(&r), "aXbd");
}

#[test]
fn incremental_without_range_replaces_everything() {
    let t = chars("abc");
    let r = apply_content_changes(SyncMode::Incremental, &t, &vec![full("z")]).unwrap();
    assert_eq!(text_of(&r), "z");
}

#[test]
fn overlapping_or_backward_edits_are_refused() {
    let t = chars("abcdef");
    let overlap = vec![edit(0, 0, 0, 3, "x"), edit(0, 2, 0, 4, "y")];
    assert!(apply_content_changes(SyncMode::Incremental, &t, &overlap).is_none());
    let backward = vec![edit(0, 3, 0, 1, "x")];
    assert!(apply_content_changes(SyncMode::Incremental, &t, &backward).is_none());
}

#[test]
fn full_sync_takes_last_text() {
    let t = chars("abc");
    let r = apply_content_changes(SyncMode::Full, &t, &vec![full("one"), full("two")]).unwrap();
    assert_eq!(text_of(&r), "two");
    let same = apply_content_changes(SyncMode::Full, &t, &vec![]).unwrap();
    assert_eq!(text_of(&same), "abc");
    assert!(apply_content_changes(SyncMode::Disabled, &t, &vec![full("x")]).is_none());
}

#[test]
fn store_open_change_change_composes() {
    let mut s = DocumentStore::new();
    let uri = "file:///a.gen".to_string();
    assert_eq!(s.open(uri.clone(), 1, "gen".to_string(), chars("abc")), Ok(()));
    assert_eq!(s.apply_change(SyncMode::Incremental, &uri, 2, &vec![edit(0, 1, 0, 2, "XY")]), Ok(()));
    assert_eq!(s.apply_change(SyncMode::Incremental, &uri, 3, &vec![edit(0, 0, 0, 1, "")]), Ok(()));
    let d = s.snapshot(&uri).unwrap();
    assert_eq!(d.version, 3);
    assert_eq!(text_of(&d.text), "XYc");
}

#[test]
fn store_refuses_stale_versions_and_keeps_content() {
    let mut s = DocumentStore::new();
    let uri = "file:///a.gen".to_string();
    s.open(uri.clone(), 5, "gen".to_string(), chars("abc")).unwrap();
    assert_eq!(s.apply_change(SyncMode::Full, &uri, 5, &vec![full("x")]), Err(ErrorKind::StaleVersion));
    assert_eq!(s.apply_change(SyncMode::Full, &uri, 4, &vec![full("x")]), Err(ErrorKind::StaleVersion));
    let d = s.snapshot(&uri).unwrap();
    assert_eq!(d.version, 5);
    assert_eq!(text_of(&d.text), "abc");
}

#[test]
fn store_refuses_duplicates_unknown_and_invalid_changes() {
    let mut s = DocumentStore::new();
    let uri = "file:///a.gen".to_string();
    s.open(uri.clone(), 1, "gen".to_string(), chars("abc")).unwrap();
    assert_eq!(s.open(uri.clone(), 2, "gen".to_string(), chars("")), Err(ErrorKind::DuplicateDocument));
    let other = "file:///b.gen".to_string();
    assert_eq!(s.apply_change(SyncMode::Full, &other, 2, &vec![]), Err(ErrorKind::UnknownDocument));
    assert_eq!(
        s.apply_change(SyncMode::Incremental, &uri, 2, &vec![edit(0, 2, 0, 1, "")]),
        Err(ErrorKind::InvalidChange)
    );
    assert_eq!(s.close(&other), Err(ErrorKind::UnknownDocument));
    assert_eq!(s.save(&other, None), Err(ErrorKind::UnknownDocument));
}

#[test]
fn store_close_then_change_fails_and_reopen_restarts_versions() {
    let mut s = DocumentStore::new();
    let uri = "file:///a.gen".to_string();
    s.open(uri.clone(), 7, "gen".to_string(), chars("abc")).unwrap();
    assert_eq!(s.close(&uri), Ok(()));
    assert!(!s.contains(&uri));
    assert_eq!(s.apply_change(SyncMode::Full, &uri, 8, &vec![full("x")]), Err(ErrorKind::UnknownDocument));
    assert_eq!(s.open(uri.clone(), 1, "gen".to_string(), chars("new")), Ok(()));
    let d = s.snapshot(&uri).unwrap();
    assert_eq!(d.version, 1);
    assert_eq!(text_of(&d.text), "new");
    assert_eq!(s.apply_change(SyncMode::Full, &uri, 2, &vec![full("newer")]), Ok(()));
}

#[test]
fn store_save_keeps_version() {
    let mut s = DocumentStore::new();
    let uri = "file:///a.gen".to_string();
    s.open(uri.clone(), 3, "gen".to_string(), chars("abc")).unwrap();
    assert_eq!(s.save(&uri, None), Ok(3));
    assert_eq!(text_of(&s.snapshot(&uri).unwrap().text), "abc");
    assert_eq!(s.save(&uri, Some(chars("saved"))), Ok(3));
    let d = s.snapshot(&uri).unwrap();
    assert_eq!(d.version, 3);
    assert_eq!(text_of(&d.text), "saved");
}

#[test]
fn session_lifecycle() {
    let mut s = Session::new();
    assert_eq!(s.accepts(), Err(ErrorKind::NotInitialized));
    assert_eq!(s.initialized(), Err(ErrorKind::NotInitialized));
    assert_eq!(s.shutdown(), Err(ErrorKind::NotInitialized));
    let caps = s.initialize(client()).unwrap();
    assert_eq!(caps.sync, SyncMode::Incremental);
    assert_eq!(s.sync, SyncMode::Incremental);
    assert_eq!(s.accepts(), Err(ErrorKind::NotInitialized));
    assert!(matches!(s.initialize(client()), Err(ErrorKind::AlreadyInitialized)));
    assert_eq!(s.initialized(), Ok(()));
    assert_eq!(s.phase, Phase::Ready);
    assert_eq!(s.accepts(), Ok(()));
    assert_eq!(s.initialized(), Err(ErrorKind::AlreadyInitialized));
    assert_eq!(s.shutdown(), Ok(()));
    assert_eq!(s.accepts(), Err(ErrorKind::ShuttingDown));
    assert_eq!(s.shutdown(), Err(ErrorKind::ShuttingDown));
    assert_eq!(s.exit(), Ok(()));
    assert_eq!(s.phase, Phase::Exited);
}

#[test]
fn exit_before_shutdown_is_reported() {
    let mut s = Session::new();
    s.initialize(client()).unwrap();
    s.initialized().unwrap();
    assert_eq!(s.exit(), Err(ErrorKind::ExitBeforeShutdown));
    assert_eq!(s.phase, Phase::Exited);
}

#[test]
fn capabilities_declare_everything() {
    let c = server_capabilities();
    assert_eq!(c.sync, SyncMode::Incremental);
    assert_eq!(c.server_name, "Generic language server");
    assert_eq!(c.server_version, "0.0.1");
    assert_eq!(
        c.token_types,
        vec![
            TokenType::Function,
            TokenType::Variable,
            TokenType::Str,
            TokenType::Comment,
            TokenType::Number,
            TokenType::Keyword,
            TokenType::Operator,
            TokenType::Parameter,
        ]
    );
    assert_eq!(c.completion_triggers, vec!['.', ' ']);
    assert_eq!(c.commands, vec!["dummy.do_something".to_string()]);
    assert_eq!(c.selector_pattern, "*.gen");
    for f in [
        Feature::Definition,
        Feature::References,
        Feature::Rename,
        Feature::Formatting,
        Feature::RangeFormatting,
        Feature::Completion,
        Feature::SemanticTokensFull,
        Feature::SemanticTokensRange,
        Feature::InlayHint,
        Feature::ExecuteCommand,
    ] {
        assert!(c.declares(f));
    }
}

#[test]
fn error_codes() {
    assert_eq!(ErrorKind::NotInitialized.code(), -32002);
    assert_eq!(ErrorKind::MethodNotFound.code(), -32601);
    assert_eq!(ErrorKind::Cancelled.code(), -32800);
    assert_eq!(ErrorKind::AnalysisError.code(), -32803);
    assert_eq!(ErrorKind::StaleVersion.code(), -32602);
    assert_eq!(ErrorKind::AlreadyInitialized.code(), -32600);
    assert!(ErrorKind::AlreadyInitialized.is_protocol_error());
    assert!(!ErrorKind::UnknownDocument.is_protocol_error());
}

#[test]
fn in_flight_single_winner() {
    let mut f = InFlight::new();
    assert_eq!(f.begin(1), Ok(()));
    assert_eq!(f.begin(1), Err(ErrorKind::DuplicateRequest));
    assert!(f.settle(1));
    assert!(!f.settle(1));
    assert!(!f.contains(1));
}

#[test]
fn publisher_drops_older_versions_until_cleared() {
    let mut p = Publisher::new();
    let uri = "file:///a.gen".to_string();
    assert!(p.offer(uri.clone(), 3, vec![]).is_some());
    assert!(!p.should_send(&uri, 2));
    assert!(p.offer(uri.clone(), 2, vec![]).is_none());
    assert!(p.offer(uri.clone(), 3, vec![]).is_some());
    let c = p.clear(uri.clone());
    assert_eq!(c.uri, uri);
    assert_eq!(c.version, None);
    assert!(c.diagnostics.is_empty());
    assert!(p.offer(uri.clone(), 1, vec![]).is_some());
}

#[test]
fn default_handlers() {
    let uri = "file:///a.gen".to_string();
    let d = definition(&uri, pos(2, 4)).unwrap();
    assert_eq!(d.uri, uri);
    assert_eq!(d.range, TextRange { start: pos(2, 4), end: pos(2, 4) });
    let r = references(&uri, pos(1, 0));
    assert_eq!(r.len(), 1);
    assert_eq!(r[0].range.start, pos(1, 0));
    let mut s = DocumentStore::new();
    s.open(uri.clone(), 1, "gen".to_string(), chars("x")).unwrap();
    let ds = document_diagnostics(&s.snapshot(&uri).unwrap());
    assert_eq!(ds.len(), 1);
    assert_eq!(ds[0].message, "error");
    assert_eq!(ds[0].range.start, pos(0, 0));
}

#[test]
fn scenario_open_change_supersedes_diagnostics() {
    let mut s = Server::new();
    let caps = s.initialize(client()).unwrap();
    assert_eq!(caps.sync, SyncMode::Incremental);
    assert_eq!(caps.token_types.len(), 8);
    assert_eq!(s.initialized(), Ok(()));
    let uri = "file:///a.gen".to_string();
    let j1 = s.did_open(uri.clone(), "gen".to_string(), 1, chars("x")).unwrap();
    assert_eq!(j1.uri, uri);
    assert_eq!(j1.version, 1);
    let j2 = s.did_change(uri.clone(), 2, &vec![full("y")]).unwrap();
    assert_eq!(j2.version, 2);
    let d = s.store.snapshot(&uri).unwrap();
    assert_eq!(d.version, 2);
    assert_eq!(text_of(&d.text), "y");
    // the version 1 result arrives late: dropped
    let diags1 = document_diagnostics(&d);
    assert!(s.diagnostics_ready(uri.clone(), 1, diags1).is_none());
    let diags2 = document_diagnostics(&d);
    let p = s.diagnostics_ready(uri.clone(), 2, diags2).unwrap();
    assert_eq!(p.version, Some(2));
    assert_eq!(p.diagnostics.len(), 1);
    assert!(s.diagnostics_ready(uri.clone(), 1, vec![]).is_none());
}

#[test]
fn scenario_close_without_open() {
    let mut s = ready_server();
    let uri = "file:///never.gen".to_string();
    assert!(matches!(s.did_close(uri.clone()), Err(ErrorKind::UnknownDocument)));
    assert!(s.diagnostics_ready(uri.clone(), 0, vec![]).is_none());
    assert!(s.initialized().is_err());
}

#[test]
fn scenario_two_definitions_complete_independently() {
    let mut s = ready_server();
    let a = "file:///a.gen".to_string();
    let b = "file:///b.gen".to_string();
    s.did_open(a.clone(), "gen".to_string(), 1, chars("aa")).unwrap();
    s.did_open(b.clone(), "gen".to_string(), 1, chars("bb")).unwrap();
    let sa = s.begin_request(10, Feature::Definition, Some(a.clone())).unwrap().unwrap();
    let sb = s.begin_request(11, Feature::Definition, Some(b.clone())).unwrap().unwrap();
    assert_eq!(sa.uri, a);
    assert_eq!(sb.uri, b);
    let rb = definition(&sb.uri, pos(0, 1)).unwrap();
    assert!(s.complete_request(11));
    let ra = definition(&sa.uri, pos(0, 0)).unwrap();
    assert!(s.complete_request(10));
    assert_eq!(ra.uri, a);
    assert_eq!(rb.uri, b);
}

#[test]
fn cancel_after_result_is_a_no_op() {
    let mut s = ready_server();
    assert!(s.begin_request(5, Feature::Completion, None).unwrap().is_none());
    assert!(s.complete_request(5));
    assert!(!s.cancel_request(5));
    assert!(!s.complete_request(5));
}

#[test]
fn cancel_before_result_wins() {
    let mut s = ready_server();
    s.begin_request(6, Feature::References, None).unwrap();
    assert!(s.cancel_request(6));
    assert!(!s.complete_request(6));
}

#[test]
fn requests_refused_outside_ready_phase() {
    let mut s = Server::new();
    assert!(matches!(s.begin_request(1, Feature::Definition, None), Err(ErrorKind::NotInitialized)));
    assert!(matches!(s.did_open("u".to_string(), "gen".to_string(), 1, chars("")), Err(ErrorKind::NotInitialized)));
    s.initialize(client()).unwrap();
    assert!(matches!(s.begin_request(1, Feature::Definition, None), Err(ErrorKind::NotInitialized)));
    s.initialized().unwrap();
    assert!(matches!(
        s.begin_request(1, Feature::Definition, Some("file:///x".to_string())),
        Err(ErrorKind::UnknownDocument)
    ));
    s.begin_request(2, Feature::Rename, None).unwrap();
    assert!(matches!(s.begin_request(2, Feature::Rename, None), Err(ErrorKind::DuplicateRequest)));
    assert_eq!(s.shutdown(), Ok(()));
    assert!(matches!(s.begin_request(3, Feature::Definition, None), Err(ErrorKind::ShuttingDown)));
    // the request in flight may still complete
    assert!(s.complete_request(2));
    assert_eq!(s.exit(), Ok(()));
}

#[test]
fn close_clears_and_reopen_publishes_again() {
    let mut s = ready_server();
    let uri = "file:///a.gen".to_string();
    s.did_open(uri.clone(), "gen".to_string(), 4, chars("x")).unwrap();
    assert!(s.diagnostics_ready(uri.clone(), 4, vec![]).is_some());
    let c = s.did_close(uri.clone()).unwrap();
    assert_eq!(c.version, None);
    assert!(c.diagnostics.is_empty());
    assert!(s.diagnostics_ready(uri.clone(), 4, vec![]).is_none());
    s.did_open(uri.clone(), "gen".to_string(), 1, chars("x")).unwrap();
    assert!(s.diagnostics_ready(uri.clone(), 1, vec![]).is_some());
    let j = s.did_save(uri.clone(), Some(chars("saved"))).unwrap();
    assert_eq!(j.version, 1);
    assert_eq!(text_of(&s.store.snapshot(&uri).unwrap().text), "saved");
}
