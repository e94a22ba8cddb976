//! The table of open documents, keyed by URI.
use vstd::prelude::*;
use crate::error::ErrorKind;
use crate::text::{apply_changes, apply_content_changes, ContentChange, SyncMode};

verus! {

/// An open document.
#[derive(Clone, Debug)]
pub struct Document {
    pub uri: String,
    pub language_id: String,
    pub version: i32,
    pub text: Vec<char>,
}

/// What the store knows of one open document.
pub struct DocState {
    pub version: int,
    pub language_id: Seq<char>,
    pub text: Seq<char>,
}

pub open spec fn doc_state(d: Document) -> DocState {
    DocState { version: d.version as int, language_id: d.language_id@, text: d.text@ }
}

/// The open documents. At most one document per URI.
pub struct DocumentStore {
    docs: Vec<Document>,
    model: Ghost<Map<Seq<char>, DocState>>,
}

/// The store after `open`, or the error it fails with.
pub open spec fn spec_open(
    m: Map<Seq<char>, DocState>,
    uri: Seq<char>,
    version: int,
    language_id: Seq<char>,
    text: Seq<char>,
) -> Result<Map<Seq<char>, DocState>, ErrorKind> {
    if m.contains_key(uri) {
        Err(ErrorKind::DuplicateDocument)
    } else {
        Ok(m.insert(uri, DocState { version, language_id, text }))
    }
}

/// The store after a change notification, or the error it fails with.
pub open spec fn spec_change(
    m: Map<Seq<char>, DocState>,
    mode: SyncMode,
    uri: Seq<char>,
    version: int,
    changes: Seq<ContentChange>,
) -> Result<Map<Seq<char>, DocState>, ErrorKind> {
    if !m.contains_key(uri) {
        Err(ErrorKind::UnknownDocument)
    } else if version <= m[uri].version {
        Err(ErrorKind::StaleVersion)
    } else {
        match apply_changes(mode, m[uri].text, changes) {
            Option::None => Err(ErrorKind::InvalidChange),
            Option::Some(t) => Ok(
                m.insert(uri, DocState { version, language_id: m[uri].language_id, text: t }),
            ),
        }
    }
}

/// The store after a save, or the error it fails with. The version stays.
pub open spec fn spec_save(
    m: Map<Seq<char>, DocState>,
    uri: Seq<char>,
    text: Option<Seq<char>>,
) -> Result<Map<Seq<char>, DocState>, ErrorKind> {
    if !m.contains_key(uri) {
        Err(ErrorKind::UnknownDocument)
    } else {
        match text {
            Option::None => Ok(m),
            Option::Some(t) => Ok(
                m.insert(
                    uri,
                    DocState { version: m[uri].version, language_id: m[uri].language_id, text: t },
                ),
            ),
        }
    }
}

/// The store after `close`, or the error it fails with.
pub open spec fn spec_close(m: Map<Seq<char>, DocState>, uri: Seq<char>) -> Result<
    Map<Seq<char>, DocState>,
    ErrorKind,
> {
    if !m.contains_key(uri) {
        Err(ErrorKind::UnknownDocument)
    } else {
        Ok(m.remove(uri))
    }
}

/// Pairs what an operation returned with the store it left.
pub open spec fn outcome<T>(r: Result<T, ErrorKind>, m: Map<Seq<char>, DocState>) -> Result<
    Map<Seq<char>, DocState>,
    ErrorKind,
> {
    match r {
        Ok(_) => Ok(m),
        Err(e) => Err(e),
    }
}

impl View for DocumentStore {
    type V = Map<Seq<char>, DocState>;

    closed spec fn view(&self) -> Map<Seq<char>, DocState> {
        self.model@
    }
}

impl DocumentStore {
    pub closed spec fn wf(&self) -> bool {
        &&& forall|i: int|
            0 <= i < self.docs@.len() ==> #[trigger] self.model@.contains_key(self.docs@[i].uri@)
                && self.model@[self.docs@[i].uri@] == doc_state(self.docs@[i])
        &&& forall|u: Seq<char>|
            #[trigger] self.model@.contains_key(u) ==> exists|i: int|
                0 <= i < self.docs@.len() && (#[trigger] self.docs@[i]).uri@ == u
        &&& forall|i: int, j: int|
            0 <= i < j < self.docs@.len() ==> (#[trigger] self.docs@[i]).uri@ != (
            #[trigger] self.docs@[j]).uri@
    }

    pub fn new() -> (r: Self)
        ensures
            r.wf(),
            r@ == Map::<Seq<char>, DocState>::empty(),
    {
        DocumentStore { docs: Vec::new(), model: Ghost(Map::empty()) }
    }

    fn find(&self, uri: &String) -> (r: Option<usize>)
        requires
            self.wf(),
        ensures
            r is None <==> !self@.contains_key(uri@),
            r is Some ==> r->0 < self.docs@.len() && self.docs@[r->0 as int].uri@ == uri@,
    {
        let mut i: usize = 0;
        while i < self.docs.len()
            invariant
                self.wf(),
                i <= self.docs@.len(),
                forall|j: int| 0 <= j < i ==> (#[trigger] self.docs@[j]).uri@ != uri@,
            decreases self.docs.len() - i,
        {
            if self.docs[i].uri == *uri {
                return Option::Some(i);
            }
            i = i + 1;
        }
        Option::None
    }

    /// Whether a document is open under `uri`.
    pub fn contains(&self, uri: &String) -> (r: bool)
        requires
            self.wf(),
        ensures
            r == self@.contains_key(uri@),
    {
        self.find(uri).is_some()
    }

    /// A copy of the document open under `uri`.
    pub fn snapshot(&self, uri: &String) -> (r: Option<Document>)
        requires
            self.wf(),
        ensures
            r is None <==> !self@.contains_key(uri@),
            r is Some ==> r->0.uri@ == uri@ && doc_state(r->0) == self@[uri@],
    {
        match self.find(uri) {
            Option::None => Option::None,
            Option::Some(i) => {
                let d = &self.docs[i];
                Option::Some(
                    Document {
                        uri: d.uri.clone(),
                        language_id: d.language_id.clone(),
                        version: d.version,
                        text: d.text.clone(),
                    },
                )
            },
        }
    }

    /// Opens a document. Fails where one is already open under the URI.
    pub fn open(&mut self, uri: String, version: i32, language_id: String, text: Vec<char>) -> (r:
        Result<(), ErrorKind>)
        requires
            old(self).wf(),
        ensures
            final(self).wf(),
            outcome(r, final(self)@) == spec_open(
                old(self)@,
                uri@,
                version as int,
                language_id@,
                text@,
            ),
            r is Err ==> final(self)@ == old(self)@,
    {
        if self.find(&uri).is_some() {
            return Err(ErrorKind::DuplicateDocument);
        }
        let ghost m0 = self.model@;
        let ghost docs0 = self.docs@;
        let d = Document { uri, language_id, version, text };
        self.model = Ghost(m0.insert(d.uri@, doc_state(d)));
        self.docs.push(d);
        proof {
            let n = self.docs@.len() - 1;
            assert(self.docs@[n] == d);
            assert forall|i: int| 0 <= i < n implies (#[trigger] self.docs@[i]).uri@ != d.uri@ by {
                assert(m0.contains_key(docs0[i].uri@));
                assert(self.docs@[i] == docs0[i]);
            }
            assert forall|i: int| 0 <= i < self.docs@.len() implies #[trigger] self.model@.contains_key(
                self.docs@[i].uri@,
            ) && self.model@[self.docs@[i].uri@] == doc_state(self.docs@[i]) by {
                if i < n {
                    assert(m0.contains_key(docs0[i].uri@));
                    assert(self.docs@[i] == docs0[i]);
                }
            }
            assert forall|u: Seq<char>| #[trigger] self.model@.contains_key(u) implies exists|i: int|
                0 <= i < self.docs@.len() && (#[trigger] self.docs@[i]).uri@ == u by {
                if u != d.uri@ {
                    let i = choose|i: int| 0 <= i < docs0.len() && (#[trigger] docs0[i]).uri@ == u;
                    assert(self.docs@[i].uri@ == u);
                } else {
                    assert(self.docs@[n].uri@ == u);
                }
            }
        }
        Ok(())
    }

    /// Applies a change notification carrying `version` under `mode`.
    pub fn apply_change(
        &mut self,
        mode: SyncMode,
        uri: &String,
        version: i32,
        changes: &Vec<ContentChange>,
    ) -> (r: Result<(), ErrorKind>)
        requires
            old(self).wf(),
        ensures
            final(self).wf(),
            outcome(r, final(self)@) == spec_change(
                old(self)@,
                mode,
                uri@,
                version as int,
                changes@,
            ),
            r is Err ==> final(self)@ == old(self)@,
    {
        let i = match self.find(uri) {
            Option::None => return Err(ErrorKind::UnknownDocument),
            Option::Some(i) => i,
        };
        if version <= self.docs[i].version {
            return Err(ErrorKind::StaleVersion);
        }
        let new_text = match apply_content_changes(mode, &self.docs[i].text, changes) {
            Option::None => return Err(ErrorKind::InvalidChange),
            Option::Some(t) => t,
        };
        let old_doc = &self.docs[i];
        let d = Document {
            uri: old_doc.uri.clone(),
            language_id: old_doc.language_id.clone(),
            version,
            text: new_text,
        };
        self.replace_at(i, d);
        Ok(())
    }

    fn replace_at(&mut self, i: usize, d: Document)
        requires
            old(self).wf(),
            i < old(self).docs@.len(),
            d.uri@ == old(self).docs@[i as int].uri@,
        ensures
            final(self).wf(),
            final(self)@ == old(self)@.insert(d.uri@, doc_state(d)),
    {
        let ghost m0 = self.model@;
        let ghost docs0 = self.docs@;
        self.model = Ghost(m0.insert(d.uri@, doc_state(d)));
        self.docs.set(i, d);
        proof {
            assert forall|u: Seq<char>| #[trigger] self.model@.contains_key(u) implies exists|j: int|
                0 <= j < self.docs@.len() && (#[trigger] self.docs@[j]).uri@ == u by {
                let j = choose|j: int| 0 <= j < docs0.len() && (#[trigger] docs0[j]).uri@ == u;
                assert(self.docs@[j].uri@ == u);
            }
            assert forall|j: int| 0 <= j < self.docs@.len() implies #[trigger] self.model@.contains_key(
                self.docs@[j].uri@,
            ) && self.model@[self.docs@[j].uri@] == doc_state(self.docs@[j]) by {
                if j != i {
                    assert(docs0[j].uri@ != docs0[i as int].uri@);
                    assert(m0.contains_key(docs0[j].uri@));
                    assert(self.docs@[j] == docs0[j]);
                } else {
                    assert(self.docs@[j] == d);
                }
            }
        }
    }

    /// Records a save. Where the client sent the saved text it becomes the
    /// content; the version stays. Returns the version.
    pub fn save(&mut self, uri: &String, text: Option<Vec<char>>) -> (r: Result<i32, ErrorKind>)
        requires
            old(self).wf(),
        ensures
            final(self).wf(),
            outcome(r, final(self)@) == spec_save(
                old(self)@,
                uri@,
                match text {
                    Option::Some(t) => Option::Some(t@),
                    Option::None => Option::None,
                },
            ),
            r matches Ok(v) ==> v as int == old(self)@[uri@].version,
            r is Err ==> final(self)@ == old(self)@,
    {
        let i = match self.find(uri) {
            Option::None => return Err(ErrorKind::UnknownDocument),
            Option::Some(i) => i,
        };
        let v = self.docs[i].version;
        match text {
            Option::None => {},
            Option::Some(t) => {
                let old_doc = &self.docs[i];
                let d = Document {
                    uri: old_doc.uri.clone(),
                    language_id: old_doc.language_id.clone(),
                    version: v,
                    text: t,
                };
                self.replace_at(i, d);
            },
        }
        Ok(v)
    }

    /// Closes the document open under `uri`.
    pub fn close(&mut self, uri: &String) -> (r: Result<(), ErrorKind>)
        requires
            old(self).wf(),
        ensures
            final(self).wf(),
            outcome(r, final(self)@) == spec_close(old(self)@, uri@),
            r is Err ==> final(self)@ == old(self)@,
    {
        let i = match self.find(uri) {
            Option::None => return Err(ErrorKind::UnknownDocument),
            Option::Some(i) => i,
        };
        let ghost m0 = self.model@;
        let ghost docs0 = self.docs@;
        self.model = Ghost(m0.remove(uri@));
        self.docs.remove(i);
        proof {
            assert forall|u: Seq<char>| #[trigger] self.model@.contains_key(u) implies exists|j: int|
                0 <= j < self.docs@.len() && (#[trigger] self.docs@[j]).uri@ == u by {
                let j = choose|j: int| 0 <= j < docs0.len() && (#[trigger] docs0[j]).uri@ == u;
                if j < i {
                    assert(self.docs@[j].uri@ == u);
                } else {
                    assert(self.docs@[j - 1].uri@ == u);
                }
            }
            assert forall|j: int| 0 <= j < self.docs@.len() implies #[trigger] self.model@.contains_key(
                self.docs@[j].uri@,
            ) && self.model@[self.docs@[j].uri@] == doc_state(self.docs@[j]) by {
                let j0 = if j < i { j } else { j + 1 };
                assert(self.docs@[j] == docs0[j0]);
                assert(docs0[j0].uri@ != docs0[i as int].uri@);
                assert(m0.contains_key(docs0[j0].uri@));
            }
            assert forall|a: int, b: int| 0 <= a < b < self.docs@.len() implies (
            #[trigger] self.docs@[a]).uri@ != (#[trigger] self.docs@[b]).uri@ by {
                let a0 = if a < i { a } else { a + 1 };
                let b0 = if b < i { b } else { b + 1 };
                assert(self.docs@[a] == docs0[a0]);
                assert(self.docs@[b] == docs0[b0]);
            }
        }
        Ok(())
    }
}

/// Opening a document and then applying two change notifications with
/// increasing versions leaves the text that the two notifications produce one
/// after the other from the opened text, at the later version.
pub proof fn lemma_changes_compose(
    m: Map<Seq<char>, DocState>,
    mode: SyncMode,
    uri: Seq<char>,
    language_id: Seq<char>,
    text: Seq<char>,
    v0: int,
    v1: int,
    changes1: Seq<ContentChange>,
    v2: int,
    changes2: Seq<ContentChange>,
)
    requires
        !m.contains_key(uri),
        v0 < v1 < v2,
        apply_changes(mode, text, changes1) is Some,
        apply_changes(mode, apply_changes(mode, text, changes1)->0, changes2) is Some,
    ensures
        spec_open(m, uri, v0, language_id, text) is Ok,
        spec_change(spec_open(m, uri, v0, language_id, text)->Ok_0, mode, uri, v1, changes1) is Ok,
        ({
            let m1 = spec_open(m, uri, v0, language_id, text)->Ok_0;
            let m2 = spec_change(m1, mode, uri, v1, changes1)->Ok_0;
            &&& spec_change(m2, mode, uri, v2, changes2) is Ok
            &&& spec_change(m2, mode, uri, v2, changes2)->Ok_0[uri].text == apply_changes(
                mode,
                apply_changes(mode, text, changes1)->0,
                changes2,
            )->0
            &&& spec_change(m2, mode, uri, v2, changes2)->Ok_0[uri].version == v2
        }),
{
}

/// A change notification whose version is not above the stored one is
/// refused as stale, and the store keeps what it held.
pub proof fn lemma_stale_change_refused(
    m: Map<Seq<char>, DocState>,
    mode: SyncMode,
    uri: Seq<char>,
    version: int,
    changes: Seq<ContentChange>,
)
    requires
        m.contains_key(uri),
        version <= m[uri].version,
    ensures
        spec_change(m, mode, uri, version, changes) == Err::<Map<Seq<char>, DocState>, ErrorKind>(
            ErrorKind::StaleVersion,
        ),
{
}

/// After `close`, a change notification for the URI is refused as unknown,
/// while opening it again succeeds at whatever version the client sends.
pub proof fn lemma_close_then_reuse(
    m: Map<Seq<char>, DocState>,
    mode: SyncMode,
    uri: Seq<char>,
    version: int,
    changes: Seq<ContentChange>,
    language_id: Seq<char>,
    text: Seq<char>,
)
    requires
        m.contains_key(uri),
    ensures
        spec_close(m, uri) is Ok,
        spec_change(spec_close(m, uri)->Ok_0, mode, uri, version, changes) == Err::<
            Map<Seq<char>, DocState>,
            ErrorKind,
        >(ErrorKind::UnknownDocument),
        spec_open(spec_close(m, uri)->Ok_0, uri, version, language_id, text) is Ok,
        spec_open(spec_close(m, uri)->Ok_0, uri, version, language_id, text)->Ok_0[uri] == (DocState {
            version,
            language_id,
            text,
        }),
{
}

} // verus!
