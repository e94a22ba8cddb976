//! The engine of one connection: each inbound message is decided here, and
//! the caller carries out what the decision returns.
use vstd::prelude::*;
use crate::capabilities::{is_server_capabilities, Feature, ServerCapabilities};
use crate::diagnostics::{spec_should_send, Diagnostic, Publication, Publisher};
use crate::error::ErrorKind;
use crate::requests::{spec_begin, spec_settle, InFlight};
use crate::session::{
    spec_exit,
    spec_initialize,
    spec_initialized,
    spec_accepts,
    spec_shutdown,
    outcome_unit,
    ClientCapabilities,
    Phase,
    Session,
};
use crate::store::{
    doc_state,
    outcome,
    spec_change,
    spec_close,
    spec_open,
    spec_save,
    Document,
    DocumentStore,
};
use crate::text::ContentChange;

verus! {

/// A diagnostics computation to run, for a document at a version.
#[derive(Clone, Debug)]
pub struct DiagnosticsJob {
    pub uri: String,
    pub version: i32,
}

/// Session, open documents, requests in flight and diagnostics delivery.
pub struct Server {
    pub session: Session,
    pub store: DocumentStore,
    pub in_flight: InFlight,
    pub publisher: Publisher,
}

impl Server {
    pub open spec fn wf(&self) -> bool {
        &&& self.store.wf()
        &&& self.in_flight.wf()
        &&& self.publisher.wf()
        &&& (self.session.phase == Phase::Initializing || self.session.phase == Phase::Ready
            || self.session.phase == Phase::ShuttingDown) ==> (self.session.declared matches Option::Some(
            c,
        ) && is_server_capabilities(c))
    }

    pub fn new() -> (r: Self)
        ensures
            r.wf(),
            r.session.phase == Phase::Uninitialized,
            r.store@ == Map::<Seq<char>, crate::store::DocState>::empty(),
            r.in_flight@ == Set::<i64>::empty(),
    {
        Server {
            session: Session::new(),
            store: DocumentStore::new(),
            in_flight: InFlight::new(),
            publisher: Publisher::new(),
        }
    }

    /// Answers `initialize`.
    pub fn initialize(&mut self, client: ClientCapabilities) -> (r: Result<ServerCapabilities, ErrorKind>)
        requires
            old(self).wf(),
        ensures
            final(self).wf(),
            final(self).in_flight == old(self).in_flight,
            final(self).publisher == old(self).publisher,
            (final(self).session.phase, outcome_unit(r)) == spec_initialize(old(self).session.phase),
            r matches Ok(c) ==> is_server_capabilities(c) && final(self).session.sync == c.sync,
            final(self).store == old(self).store,
    {
        self.session.initialize(client)
    }

    /// Handles `initialized`.
    pub fn initialized(&mut self) -> (r: Result<(), ErrorKind>)
        requires
            old(self).wf(),
        ensures
            final(self).wf(),
            final(self).in_flight == old(self).in_flight,
            final(self).publisher == old(self).publisher,
            (final(self).session.phase, r) == spec_initialized(old(self).session.phase),
            final(self).session.sync == old(self).session.sync,
            final(self).session.declared == old(self).session.declared,
            final(self).store == old(self).store,
    {
        self.session.initialized()
    }

    /// Handles `shutdown`.
    pub fn shutdown(&mut self) -> (r: Result<(), ErrorKind>)
        requires
            old(self).wf(),
        ensures
            final(self).wf(),
            final(self).in_flight == old(self).in_flight,
            final(self).publisher == old(self).publisher,
            (final(self).session.phase, r) == spec_shutdown(old(self).session.phase),
            final(self).session.sync == old(self).session.sync,
            final(self).session.declared == old(self).session.declared,
            final(self).store == old(self).store,
    {
        self.session.shutdown()
    }

    /// Handles `exit`: the session ends; the result says whether `shutdown`
    /// came first.
    pub fn exit(&mut self) -> (r: Result<(), ErrorKind>)
        requires
            old(self).wf(),
        ensures
            final(self).wf(),
            final(self).in_flight == old(self).in_flight,
            final(self).publisher == old(self).publisher,
            final(self).session.phase == Phase::Exited,
            r == spec_exit(old(self).session.phase),
            final(self).session.sync == old(self).session.sync,
            final(self).session.declared == old(self).session.declared,
            final(self).store == old(self).store,
    {
        self.session.exit()
    }

    /// Handles `didOpen`. On success returns the diagnostics run to schedule.
    pub fn did_open(&mut self, uri: String, language_id: String, version: i32, text: Vec<char>) -> (r:
        Result<DiagnosticsJob, ErrorKind>)
        requires
            old(self).wf(),
        ensures
            final(self).wf(),
            final(self).in_flight == old(self).in_flight,
            final(self).publisher == old(self).publisher,
            final(self).session == old(self).session,
            spec_accepts(old(self).session.phase) matches Err(e) ==> r == Err::<DiagnosticsJob, ErrorKind>(e)
                && final(self).store@ == old(self).store@,
            spec_accepts(old(self).session.phase) is Ok ==> outcome(r, final(self).store@) == spec_open(
                old(self).store@,
                uri@,
                version as int,
                language_id@,
                text@,
            ),
            r is Err ==> final(self).store@ == old(self).store@,
            r matches Ok(j) ==> j.uri@ == uri@ && j.version == version,
    {
        match self.session.accepts() {
            Err(e) => return Err(e),
            Ok(_) => {},
        }
        let job = DiagnosticsJob { uri: uri.clone(), version };
        match self.store.open(uri, version, language_id, text) {
            Err(e) => Err(e),
            Ok(_) => Ok(job),
        }
    }

    /// Handles `didChange` under the negotiated sync mode.
    pub fn did_change(&mut self, uri: String, version: i32, changes: &Vec<ContentChange>) -> (r: Result<
        DiagnosticsJob,
        ErrorKind,
    >)
        requires
            old(self).wf(),
        ensures
            final(self).wf(),
            final(self).in_flight == old(self).in_flight,
            final(self).publisher == old(self).publisher,
            final(self).session == old(self).session,
            spec_accepts(old(self).session.phase) matches Err(e) ==> r == Err::<DiagnosticsJob, ErrorKind>(e)
                && final(self).store@ == old(self).store@,
            spec_accepts(old(self).session.phase) is Ok ==> outcome(r, final(self).store@) == spec_change(
                old(self).store@,
                old(self).session.sync,
                uri@,
                version as int,
                changes@,
            ),
            r is Err ==> final(self).store@ == old(self).store@,
            r matches Ok(j) ==> j.uri@ == uri@ && j.version == version,
    {
        match self.session.accepts() {
            Err(e) => return Err(e),
            Ok(_) => {},
        }
        match self.store.apply_change(self.session.sync, &uri, version, changes) {
            Err(e) => Err(e),
            Ok(_) => Ok(DiagnosticsJob { uri, version }),
        }
    }

    /// Handles `didSave`, with the saved text where the client sent it.
    pub fn did_save(&mut self, uri: String, text: Option<Vec<char>>) -> (r: Result<DiagnosticsJob, ErrorKind>)
        requires
            old(self).wf(),
        ensures
            final(self).wf(),
            final(self).in_flight == old(self).in_flight,
            final(self).publisher == old(self).publisher,
            final(self).session == old(self).session,
            spec_accepts(old(self).session.phase) matches Err(e) ==> r == Err::<DiagnosticsJob, ErrorKind>(e)
                && final(self).store@ == old(self).store@,
            spec_accepts(old(self).session.phase) is Ok ==> outcome(r, final(self).store@) == spec_save(
                old(self).store@,
                uri@,
                match text {
                    Option::Some(t) => Option::Some(t@),
                    Option::None => Option::None,
                },
            ),
            r is Err ==> final(self).store@ == old(self).store@,
            r matches Ok(j) ==> j.uri@ == uri@ && j.version as int == old(self).store@[uri@].version,
    {
        match self.session.accepts() {
            Err(e) => return Err(e),
            Ok(_) => {},
        }
        match self.store.save(&uri, text) {
            Err(e) => Err(e),
            Ok(v) => Ok(DiagnosticsJob { uri, version: v }),
        }
    }

    /// Handles `didClose`. On success returns the notification that clears
    /// the document's diagnostics at the client; on failure nothing is sent.
    pub fn did_close(&mut self, uri: String) -> (r: Result<Publication, ErrorKind>)
        requires
            old(self).wf(),
        ensures
            final(self).wf(),
            final(self).in_flight == old(self).in_flight,
            final(self).session == old(self).session,
            spec_accepts(old(self).session.phase) matches Err(e) ==> r == Err::<Publication, ErrorKind>(e),
            spec_accepts(old(self).session.phase) is Ok ==> outcome(r, final(self).store@) == spec_close(
                old(self).store@,
                uri@,
            ),
            r is Err ==> final(self).store@ == old(self).store@ && final(self).publisher.observed()
                == old(self).publisher.observed(),
            r matches Ok(p) ==> p.uri@ == uri@ && p.version is None && p.diagnostics@.len() == 0
                && final(self).publisher.observed() == old(self).publisher.observed().push(
                (uri@, Option::<int>::None),
            ),
    {
        match self.session.accepts() {
            Err(e) => return Err(e),
            Ok(_) => {},
        }
        match self.store.close(&uri) {
            Err(e) => Err(e),
            Ok(_) => Ok(self.publisher.clear(uri)),
        }
    }

    /// Takes the result of a diagnostics run for `uri` at `version`. Returns
    /// the notification to send, or `None` where the result is stale: the
    /// document was closed or has moved to another version, or a newer set
    /// was already sent.
    pub fn diagnostics_ready(&mut self, uri: String, version: i32, diagnostics: Vec<Diagnostic>) -> (r:
        Option<Publication>)
        requires
            old(self).wf(),
        ensures
            final(self).wf(),
            final(self).in_flight == old(self).in_flight,
            final(self).session == old(self).session,
            final(self).store == old(self).store,
            r is Some <==> (old(self).store@.contains_key(uri@) && old(self).store@[uri@].version
                == version as int && spec_should_send(
                old(self).publisher.latest(),
                uri@,
                version as int,
            )),
            r matches Option::Some(p) ==> p.uri@ == uri@ && p.version == Option::Some(version)
                && p.diagnostics@ == diagnostics@ && final(self).publisher.observed() == old(
                self,
            ).publisher.observed().push((uri@, Option::Some(version as int))),
            r is None ==> final(self).publisher.observed() == old(self).publisher.observed(),
    {
        match self.store.snapshot(&uri) {
            Option::None => return Option::None,
            Option::Some(d) => {
                if d.version != version {
                    return Option::None;
                }
            },
        }
        self.publisher.offer(uri, version, diagnostics)
    }

    /// Accepts request `id` for `feature`, on the document `uri` where the
    /// request names one, and returns a snapshot of that document for the
    /// handler. Fails before `initialized` and after `shutdown`, for a
    /// feature that was not declared (every feature is), for a document that
    /// is not open, and for an id already in flight.
    pub fn begin_request(&mut self, id: i64, feature: Feature, uri: Option<String>) -> (r: Result<
        Option<Document>,
        ErrorKind,
    >)
        requires
            old(self).wf(),
        ensures
            final(self).wf(),
            final(self).publisher == old(self).publisher,
            final(self).session == old(self).session,
            final(self).store == old(self).store,
            spec_accepts(old(self).session.phase) matches Err(e) ==> r == Err::<
                Option<Document>,
                ErrorKind,
            >(e),
            spec_accepts(old(self).session.phase) is Ok ==> (match uri {
                Option::Some(u) if !old(self).store@.contains_key(u@) => r == Err::<
                    Option<Document>,
                    ErrorKind,
                >(ErrorKind::UnknownDocument),
                _ => spec_begin(old(self).in_flight@, id) == (match r {
                    Ok(_) => Ok(final(self).in_flight@),
                    Err(e) => Err(e),
                }),
            }),
            r is Err ==> final(self).in_flight@ == old(self).in_flight@,
            r matches Ok(s) ==> (match uri {
                Option::Some(u) => s matches Option::Some(d) && d.uri@ == u@ && doc_state(d)
                    == old(self).store@[u@],
                Option::None => s is None,
            }),
    {
        match self.session.accepts() {
            Err(e) => return Err(e),
            Ok(_) => {},
        }
        match &self.session.declared {
            Option::None => return Err(ErrorKind::NotInitialized),
            Option::Some(c) => {
                if !c.declares(feature) {
                    return Err(ErrorKind::MethodNotFound);
                }
            },
        }
        let snapshot = match &uri {
            Option::None => Option::None,
            Option::Some(u) => match self.store.snapshot(u) {
                Option::None => return Err(ErrorKind::UnknownDocument),
                Option::Some(d) => Option::Some(d),
            },
        };
        match self.in_flight.begin(id) {
            Err(e) => Err(e),
            Ok(_) => Ok(snapshot),
        }
    }

    /// The handler of request `id` has produced its result or failed.
    /// Returns whether to send it: not where the request was cancelled or
    /// already answered.
    pub fn complete_request(&mut self, id: i64) -> (r: bool)
        requires
            old(self).wf(),
        ensures
            final(self).wf(),
            final(self).publisher == old(self).publisher,
            final(self).session == old(self).session,
            final(self).store == old(self).store,
            (final(self).in_flight@, r) == spec_settle(old(self).in_flight@, id),
    {
        self.in_flight.settle(id)
    }

    /// The client cancels request `id`. Returns whether to answer it with a
    /// cancellation error: only where its result has not been produced yet.
    pub fn cancel_request(&mut self, id: i64) -> (r: bool)
        requires
            old(self).wf(),
        ensures
            final(self).wf(),
            final(self).publisher == old(self).publisher,
            final(self).session == old(self).session,
            final(self).store == old(self).store,
            (final(self).in_flight@, r) == spec_settle(old(self).in_flight@, id),
    {
        self.in_flight.settle(id)
    }
}

} // verus!
