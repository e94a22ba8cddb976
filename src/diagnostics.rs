//! Delivery of diagnostic sets, newest version wins.
use vstd::prelude::*;
use crate::text::TextRange;

verus! {

#[derive(Clone, Copy, Debug, PartialEq, Eq, Structural)]
pub enum Severity {
    Error,
    Warning,
    Information,
    Hint,
}

#[derive(Clone, Debug)]
pub struct Diagnostic {
    pub range: TextRange,
    pub severity: Option<Severity>,
    pub message: String,
}

/// One notification to the client: the diagnostics of `uri` at `version`.
/// A clearing notification carries no version and no diagnostics.
#[derive(Clone, Debug)]
pub struct Publication {
    pub uri: String,
    pub version: Option<i32>,
    pub diagnostics: Vec<Diagnostic>,
}

/// What the client has been sent, in order: a URI and the version of the set,
/// `None` for a clearing notification.
pub type Observed = Seq<(Seq<char>, Option<int>)>;

/// No clearing notification for `u` stands strictly between `i` and `j`.
pub open spec fn no_clear_between(h: Observed, u: Seq<char>, i: int, j: int) -> bool {
    forall|k: int| i < k < j ==> !(#[trigger] h[k].0 == u && h[k].1 is None)
}

/// For each URI, the versions the client observes never go down between two
/// clearing notifications.
pub open spec fn monotone(h: Observed) -> bool {
    forall|i: int, j: int|
        0 <= i < j < h.len() && #[trigger] h[i].0 == #[trigger] h[j].0 && h[i].1 is Some
            && h[j].1 is Some && no_clear_between(h, h[i].0, i, j) ==> h[i].1->0 <= h[j].1->0
}

/// The publisher sends a set unless a newer version of the same URI has
/// already been sent since the URI was last cleared.
pub open spec fn spec_should_send(latest: Map<Seq<char>, int>, uri: Seq<char>, version: int) -> bool {
    !latest.contains_key(uri) || latest[uri] <= version
}

/// Per URI, the newest version sent since the last clearing notification.
pub struct Publisher {
    uris: Vec<String>,
    versions: Vec<i32>,
    latest: Ghost<Map<Seq<char>, int>>,
    observed: Ghost<Observed>,
}

impl Publisher {
    pub closed spec fn latest(&self) -> Map<Seq<char>, int> {
        self.latest@
    }

    /// Every notification handed out so far.
    pub closed spec fn observed(&self) -> Observed {
        self.observed@
    }

    pub closed spec fn wf(&self) -> bool {
        &&& self.uris@.len() == self.versions@.len()
        &&& forall|i: int|
            0 <= i < self.uris@.len() ==> #[trigger] self.latest@.contains_key(self.uris@[i]@)
                && self.latest@[self.uris@[i]@] == self.versions@[i] as int
        &&& forall|u: Seq<char>|
            #[trigger] self.latest@.contains_key(u) ==> exists|i: int|
                0 <= i < self.uris@.len() && (#[trigger] self.uris@[i])@ == u
        &&& forall|i: int, j: int|
            0 <= i < j < self.uris@.len() ==> (#[trigger] self.uris@[i])@ != (
            #[trigger] self.uris@[j])@
        &&& forall|i: int|
            0 <= i < self.observed@.len() && (#[trigger] self.observed@[i]).1 is Some
                && no_clear_between(self.observed@, self.observed@[i].0, i, self.observed@.len() as int)
                ==> self.latest@.contains_key(self.observed@[i].0)
                && self.observed@[i].1->0 <= self.latest@[self.observed@[i].0]
        &&& monotone(self.observed@)
    }

    pub fn new() -> (r: Self)
        ensures
            r.wf(),
            r.latest() == Map::<Seq<char>, int>::empty(),
            r.observed() == Seq::<(Seq<char>, Option<int>)>::empty(),
    {
        Publisher {
            uris: Vec::new(),
            versions: Vec::new(),
            latest: Ghost(Map::empty()),
            observed: Ghost(Seq::empty()),
        }
    }

    fn find(&self, uri: &String) -> (r: Option<usize>)
        requires
            self.wf(),
        ensures
            r is None <==> !self.latest().contains_key(uri@),
            r matches Option::Some(i) ==> i < self.uris@.len() && self.uris@[i as int]@ == uri@
                && self.versions@[i as int] as int == self.latest()[uri@],
    {
        let mut i: usize = 0;
        while i < self.uris.len()
            invariant
                self.wf(),
                i <= self.uris@.len(),
                forall|j: int| 0 <= j < i ==> (#[trigger] self.uris@[j])@ != uri@,
            decreases self.uris.len() - i,
        {
            if self.uris[i] == *uri {
                return Option::Some(i);
            }
            i = i + 1;
        }
        Option::None
    }

    /// Whether a set for `uri` at `version` would be sent now.
    pub fn should_send(&self, uri: &String, version: i32) -> (r: bool)
        requires
            self.wf(),
        ensures
            r == spec_should_send(self.latest(), uri@, version as int),
    {
        match self.find(uri) {
            Option::None => true,
            Option::Some(i) => self.versions[i] <= version,
        }
    }

    /// Offers the diagnostics computed for `uri` at `version`. Returns the
    /// notification to send, or `None` where a newer version was already sent.
    pub fn offer(&mut self, uri: String, version: i32, diagnostics: Vec<Diagnostic>) -> (r: Option<
        Publication,
    >)
        requires
            old(self).wf(),
        ensures
            final(self).wf(),
            r is Some == spec_should_send(old(self).latest(), uri@, version as int),
            r matches Option::Some(p) ==> p.uri@ == uri@ && p.version == Option::Some(version)
                && p.diagnostics@ == diagnostics@ && final(self).latest() == old(self).latest().insert(
                uri@,
                version as int,
            ) && final(self).observed() == old(self).observed().push((uri@, Option::Some(version as int))),
            r is None ==> final(self).latest() == old(self).latest() && final(self).observed() == old(
                self,
            ).observed(),
    {
        let ghost u = uri@;
        let ghost h0 = self.observed@;
        let ghost m0 = self.latest@;
        let ghost uris0 = self.uris@;
        match self.find(&uri) {
            Option::Some(i) => {
                if self.versions[i] > version {
                    return Option::None;
                }
                self.versions.set(i, version);
                proof {
                    assert forall|j: int| 0 <= j < self.uris@.len() && j != i implies (
                    #[trigger] self.uris@[j])@ != u by {
                        assert(uris0[j]@ != uris0[i as int]@);
                    }
                }
            },
            Option::None => {
                self.uris.push(uri.clone());
                self.versions.push(version);
                proof {
                    assert forall|j: int| 0 <= j < uris0.len() implies (#[trigger] uris0[j])@ != u by {
                        assert(m0.contains_key(uris0[j]@));
                    }
                }
            },
        }
        self.latest = Ghost(m0.insert(u, version as int));
        self.observed = Ghost(h0.push((u, Option::Some(version as int))));
        proof {
            let h = self.observed@;
            let n = h0.len() as int;
            assert(h[n] == (u, Option::Some(version as int)));
            assert forall|j: int| 0 <= j < self.uris@.len() implies #[trigger] self.latest@.contains_key(
                self.uris@[j]@,
            ) && self.latest@[self.uris@[j]@] == self.versions@[j] as int by {
                if j < uris0.len() {
                    assert(m0.contains_key(uris0[j]@));
                }
            }
            assert forall|x: Seq<char>| #[trigger] self.latest@.contains_key(x) implies exists|j: int|
                0 <= j < self.uris@.len() && (#[trigger] self.uris@[j])@ == x by {
                if x != u {
                    let j = choose|j: int| 0 <= j < uris0.len() && (#[trigger] uris0[j])@ == x;
                    assert(self.uris@[j]@ == x);
                } else if m0.contains_key(u) {
                    let j = choose|j: int| 0 <= j < uris0.len() && (#[trigger] uris0[j])@ == x;
                    assert(self.uris@[j]@ == x);
                } else {
                    assert(self.uris@[uris0.len() as int]@ == x);
                }
            }
            assert forall|a: int, b: int| 0 <= a < b < self.uris@.len() implies (
            #[trigger] self.uris@[a])@ != (#[trigger] self.uris@[b])@ by {
                if b < uris0.len() {
                    assert(uris0[a]@ != uris0[b]@);
                }
            }
            assert forall|i: int|
                0 <= i < h.len() && (#[trigger] h[i]).1 is Some && no_clear_between(
                    h,
                    h[i].0,
                    i,
                    h.len() as int,
                ) implies self.latest@.contains_key(h[i].0) && h[i].1->0 <= self.latest@[h[i].0] by {
                if i < n {
                    assert(h[i] == h0[i]);
                    assert forall|k: int| i < k < n implies !(#[trigger] h0[k].0 == h0[i].0
                        && h0[k].1 is None) by {
                        assert(h[k] == h0[k]);
                    }
                }
            }
            assert forall|i: int, j: int|
                0 <= i < j < h.len() && #[trigger] h[i].0 == #[trigger] h[j].0 && h[i].1 is Some
                    && h[j].1 is Some && no_clear_between(h, h[i].0, i, j) implies h[i].1->0
                <= h[j].1->0 by {
                assert(h[i] == h0[i]);
                if j < n {
                    assert(h[j] == h0[j]);
                    assert forall|k: int| i < k < j implies !(#[trigger] h0[k].0 == h0[i].0
                        && h0[k].1 is None) by {
                        assert(h[k] == h0[k]);
                    }
                } else {
                    assert forall|k: int| i < k < n implies !(#[trigger] h0[k].0 == h0[i].0
                        && h0[k].1 is None) by {
                        assert(h[k] == h0[k]);
                    }
                }
            }
        }
        Option::Some(Publication { uri, version: Option::Some(version), diagnostics })
    }

    /// Forgets `uri` and returns the empty set that clears its diagnostics at
    /// the client. A later set for `uri` is sent whatever its version.
    pub fn clear(&mut self, uri: String) -> (r: Publication)
        requires
            old(self).wf(),
        ensures
            final(self).wf(),
            r.uri@ == uri@,
            r.version is None,
            r.diagnostics@.len() == 0,
            final(self).latest() == old(self).latest().remove(uri@),
            final(self).observed() == old(self).observed().push((uri@, Option::<int>::None)),
    {
        let ghost u = uri@;
        let ghost h0 = self.observed@;
        let ghost m0 = self.latest@;
        let ghost uris0 = self.uris@;
        let ghost vs0 = self.versions@;
        match self.find(&uri) {
            Option::None => {
                assert(m0.remove(u) =~= m0);
            },
            Option::Some(i) => {
                self.uris.remove(i);
                self.versions.remove(i);
                proof {
                    assert forall|j: int| 0 <= j < self.uris@.len() implies (#[trigger] self.uris@[j])@
                        != u && self.uris@[j] == uris0[if j < i { j } else { j + 1 }] && self.versions@[j]
                        == vs0[if j < i { j } else { j + 1 }] by {
                        let j0 = if j < i { j } else { j + 1 };
                        assert(uris0[j0]@ != uris0[i as int]@);
                    }
                }
            },
        }
        self.latest = Ghost(m0.remove(u));
        self.observed = Ghost(h0.push((u, Option::None)));
        proof {
            let h = self.observed@;
            let n = h0.len() as int;
            assert(h[n] == (u, Option::<int>::None));
            assert forall|j: int| 0 <= j < self.uris@.len() implies #[trigger] self.latest@.contains_key(
                self.uris@[j]@,
            ) && self.latest@[self.uris@[j]@] == self.versions@[j] as int by {
                assert(self.uris@[j]@ != u || !m0.contains_key(u));
                if !m0.contains_key(u) {
                    assert(m0.contains_key(uris0[j]@));
                    assert(uris0[j]@ != u);
                } else {
                    let i = choose|i: int| 0 <= i < uris0.len() && (#[trigger] uris0[i])@ == u;
                    let jj = if j < i { j } else { j + 1 };
                    assert(m0.contains_key(uris0[jj]@));
                }
            }
            assert forall|x: Seq<char>| #[trigger] self.latest@.contains_key(x) implies exists|j: int|
                0 <= j < self.uris@.len() && (#[trigger] self.uris@[j])@ == x by {
                let j = choose|j: int| 0 <= j < uris0.len() && (#[trigger] uris0[j])@ == x;
                if !m0.contains_key(u) {
                    assert(self.uris@[j]@ == x);
                } else {
                    let i = choose|i: int| 0 <= i < uris0.len() && (#[trigger] uris0[i])@ == u;
                    assert(i != j);
                    if j < i {
                        assert(self.uris@[j]@ == x);
                    } else {
                        assert(self.uris@[j - 1]@ == x);
                    }
                }
            }
            assert forall|a: int, b: int| 0 <= a < b < self.uris@.len() implies (
            #[trigger] self.uris@[a])@ != (#[trigger] self.uris@[b])@ by {
                if !m0.contains_key(u) {
                    assert(uris0[a]@ != uris0[b]@);
                } else {
                    let i = choose|i: int| 0 <= i < uris0.len() && (#[trigger] uris0[i])@ == u;
                    let a0 = if a < i { a } else { a + 1 };
                    let b0 = if b < i { b } else { b + 1 };
                    assert(uris0[a0]@ != uris0[b0]@);
                }
            }
            assert forall|i: int|
                0 <= i < h.len() && (#[trigger] h[i]).1 is Some && no_clear_between(
                    h,
                    h[i].0,
                    i,
                    h.len() as int,
                ) implies self.latest@.contains_key(h[i].0) && h[i].1->0 <= self.latest@[h[i].0] by {
                assert(i < n);
                assert(h[i] == h0[i]);
                assert(!(h[n].0 == h[i].0 && h[n].1 is None));
                assert forall|k: int| i < k < n implies !(#[trigger] h0[k].0 == h0[i].0
                    && h0[k].1 is None) by {
                    assert(h[k] == h0[k]);
                }
            }
            assert forall|i: int, j: int|
                0 <= i < j < h.len() && #[trigger] h[i].0 == #[trigger] h[j].0 && h[i].1 is Some
                    && h[j].1 is Some && no_clear_between(h, h[i].0, i, j) implies h[i].1->0
                <= h[j].1->0 by {
                assert(h[i] == h0[i]);
                assert(h[j] == h0[j]);
                assert forall|k: int| i < k < j implies !(#[trigger] h0[k].0 == h0[i].0
                    && h0[k].1 is None) by {
                    assert(h[k] == h0[k]);
                }
            }
        }
        Publication { uri, version: Option::None, diagnostics: Vec::new() }
    }
}

/// For every URI, the versions of the diagnostic sets that the client has
/// been sent never decrease, except across a clearing notification (a close).
pub proof fn lemma_observed_versions_monotone(p: &Publisher)
    requires
        p.wf(),
    ensures
        monotone(p.observed()),
{
}

} // verus!
