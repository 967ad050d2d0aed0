//! Trust-on-first-use host-key verification: the lookup classification,
//! the challenge and verdict logic that gate the SSH handshake, and a
//! verified model of the known-hosts store semantics.
//!
//! The decision flow, entered once per handshake:
//! a host whose stored key matches is accepted silently; a host with a
//! different stored key, or with no stored key at all, raises a challenge
//! event and the handshake waits, for a bounded time, for the consumer's
//! decision; no decision — a timeout or a dropped reply channel — means
//! reject.  An accepted key for a previously unknown or changed host is
//! persisted back to the store.

use vstd::prelude::*;
use vstd::string::StringExecFns;
use crate::text::str_eq;

verus! {

/// Bound, in seconds, on the wait for a host-key decision.  An unanswered
/// challenge resolves to reject: the fail-closed default for a security
/// decision left unanswered.
pub const HOST_KEY_DECISION_TIMEOUT_SECS: u64 = 300;

/// What the known-hosts store says about the key a server presented.
#[derive(Debug, Clone, Copy, PartialEq, Eq, Structural)]
pub enum HostKeyStatus {
    /// The store holds exactly this key for this host and port.
    Known,
    /// The store holds a different key for this host and port: a potential
    /// man-in-the-middle signal.
    Changed,
    /// The store holds no key for this host and port, or the lookup itself
    /// failed in a way other than a key change.
    Unknown,
}

/// The decision the consumer supplied for a challenge: `None` when the
/// bounded wait expired or the reply channel was dropped.
pub type HostKeyDecision = Option<bool>;

/// What the handshake must do after the verdict.
#[derive(Debug, Clone, Copy, PartialEq, Eq, Structural)]
pub struct HostKeyVerdict {
    /// Whether the handshake may proceed.
    pub accept: bool,
    /// Whether the presented key must be written back to the store.
    pub persist: bool,
}

/// Whether a lookup status requires a challenge, and if so whether the
/// challenge reports a changed key: a known, unchanged key is accepted
/// silently with no consumer round-trip.
pub open spec fn spec_challenge(status: HostKeyStatus) -> Option<bool> {
    match status {
        HostKeyStatus::Known => Option::None,
        HostKeyStatus::Changed => Option::Some(true),
        HostKeyStatus::Unknown => Option::Some(false),
    }
}

/// The verdict for a lookup status and the consumer's decision: a known
/// key is accepted outright; otherwise only an explicit `Some(true)`
/// accepts, and exactly the accepted non-known keys are persisted.
pub open spec fn spec_verdict(status: HostKeyStatus, decision: HostKeyDecision) -> HostKeyVerdict {
    if status == HostKeyStatus::Known {
        HostKeyVerdict { accept: true, persist: false }
    } else {
        let accepted = decision == Option::Some(true);
        HostKeyVerdict { accept: accepted, persist: accepted }
    }
}

/// Decides whether a lookup status needs a consumer challenge: `None`
/// accepts silently; `Some(is_key_changed)` says a challenge event must be
/// emitted before the handshake can continue.
pub fn host_key_challenge(status: HostKeyStatus) -> (r: Option<bool>)
    ensures
        r == spec_challenge(status),
{
    match status {
        HostKeyStatus::Known => Option::None,
        HostKeyStatus::Changed => Option::Some(true),
        HostKeyStatus::Unknown => Option::Some(false),
    }
}

/// Resolves the verdict that gates the handshake.
pub fn host_key_verdict(status: HostKeyStatus, decision: HostKeyDecision) -> (r: HostKeyVerdict)
    ensures
        r == spec_verdict(status, decision),
{
    if matches!(status, HostKeyStatus::Known) {
        HostKeyVerdict { accept: true, persist: false }
    } else {
        let accepted = matches!(decision, Option::Some(true));
        HostKeyVerdict { accept: accepted, persist: accepted }
    }
}

/// Law: a silently accepted host is exactly a known, unchanged one; every
/// other status raises a challenge whose `is_key_changed` flag is true
/// exactly for a changed key.
pub proof fn lemma_challenge_exactly_for_unknown(status: HostKeyStatus)
    ensures
        spec_challenge(status) is None <==> status == HostKeyStatus::Known,
        spec_challenge(status) == Option::Some(true) <==> status == HostKeyStatus::Changed,
        spec_challenge(status) == Option::Some(false) <==> status == HostKeyStatus::Unknown,
{
}

/// Law: an unanswered challenge — the wait timed out or the reply channel
/// was dropped — rejects the handshake and persists nothing, for every
/// status that raised a challenge.
pub proof fn lemma_unanswered_challenge_rejects(status: HostKeyStatus)
    requires
        status != HostKeyStatus::Known,
    ensures
        !spec_verdict(status, Option::None).accept,
        !spec_verdict(status, Option::None).persist,
        !spec_verdict(status, Option::Some(false)).accept,
        !spec_verdict(status, Option::Some(false)).persist,
{
}

/// Law: a key is persisted exactly when the consumer explicitly accepted a
/// host that was not already known unchanged; and acceptance of such a
/// host happens exactly on an explicit yes.
pub proof fn lemma_persist_exactly_accepted_unknown(status: HostKeyStatus, decision: HostKeyDecision)
    ensures
        spec_verdict(status, decision).persist <==> (status != HostKeyStatus::Known && decision
            == Option::Some(true)),
        status != HostKeyStatus::Known ==> (spec_verdict(status, decision).accept <==> decision
            == Option::Some(true)),
{
}

/// One record of the known-hosts store: the key remembered for a host and
/// port.
#[derive(Debug, Clone)]
pub struct KnownHostEntry {
    pub host: String,
    pub port: u16,
    pub key: String,
}

/// A known-hosts store: a mapping from (host, port) to the single key that
/// was trusted for it.  This is the semantics the transport requires of
/// whatever store the driver consults — exact match, changed, or absent —
/// stated over an explicit list of records unique per (host, port).
pub struct KnownHostsStore {
    pub entries: Vec<KnownHostEntry>,
}

impl KnownHostsStore {
    /// Whether record `i` is for this host and port.
    pub open spec fn spec_entry_for(&self, i: int, host: Seq<char>, port: u16) -> bool {
        self.entries@[i].host@ == host && self.entries@[i].port == port
    }

    /// Each (host, port) has at most one record.
    pub open spec fn wf(&self) -> bool {
        forall|i: int, j: int|
            0 <= i < j < self.entries@.len() ==> !(#[trigger] self.spec_entry_for(
                i,
                self.entries@[j].host@,
                self.entries@[j].port,
            ))
    }

    /// The store holds some record for this host and port.
    pub open spec fn spec_has_host(&self, host: Seq<char>, port: u16) -> bool {
        exists|i: int| 0 <= i < self.entries@.len() && self.spec_entry_for(i, host, port)
    }

    /// The store holds exactly this key for this host and port.
    pub open spec fn spec_has_key(&self, host: Seq<char>, port: u16, key: Seq<char>) -> bool {
        exists|i: int|
            0 <= i < self.entries@.len() && self.spec_entry_for(i, host, port)
                && self.entries@[i].key@ == key
    }

    /// What a lookup of this host, port and presented key must answer.
    pub open spec fn spec_status(&self, host: Seq<char>, port: u16, key: Seq<char>) -> HostKeyStatus {
        if self.spec_has_key(host, port, key) {
            HostKeyStatus::Known
        } else if self.spec_has_host(host, port) {
            HostKeyStatus::Changed
        } else {
            HostKeyStatus::Unknown
        }
    }

    /// An empty store: no host is known.
    pub fn new() -> (r: Self)
        ensures
            r.entries@.len() == 0,
            r.wf(),
    {
        KnownHostsStore { entries: Vec::new() }
    }

    /// Looks up the key a server presented: `Known` on an exact match,
    /// `Changed` when a different key is on record for the host and port,
    /// `Unknown` when the host has no record.
    pub fn check(&self, host: &str, port: u16, key: &str) -> (r: HostKeyStatus)
        requires
            self.wf(),
        ensures
            r == self.spec_status(host@, port, key@),
    {
        let mut i: usize = 0;
        let n = self.entries.len();
        while i < n
            invariant
                self.wf(),
                n == self.entries@.len(),
                i <= n,
                forall|j: int| 0 <= j < i ==> !self.spec_entry_for(j, host@, port),
            decreases n - i,
        {
            let e = &self.entries[i];
            if str_eq(e.host.as_str(), host) && e.port == port {
                proof {
                    assert(self.spec_entry_for(i as int, host@, port));
                    lemma_sole_entry(*self, i as int, host@, port);
                }
                if str_eq(e.key.as_str(), key) {
                    return HostKeyStatus::Known;
                } else {
                    proof {
                        if self.spec_has_key(host@, port, key@) {
                            let j = choose|j: int|
                                0 <= j < self.entries@.len() && self.spec_entry_for(j, host@, port)
                                    && self.entries@[j].key@ == key@;
                            assert(j == i as int);
                        }
                    }
                    return HostKeyStatus::Changed;
                }
            }
            i = i + 1;
        }
        proof {
            if self.spec_has_host(host@, port) {
                let j = choose|j: int|
                    0 <= j < self.entries@.len() && self.spec_entry_for(j, host@, port);
                assert(!self.spec_entry_for(j, host@, port));
            }
            if self.spec_has_key(host@, port, key@) {
                let j = choose|j: int|
                    0 <= j < self.entries@.len() && self.spec_entry_for(j, host@, port)
                        && self.entries@[j].key@ == key@;
                assert(!self.spec_entry_for(j, host@, port));
            }
        }
        HostKeyStatus::Unknown
    }

    /// Records the key for a host and port: an existing record for that
    /// host and port is replaced, otherwise a record is added.  Afterwards
    /// a lookup of that host with that key answers `Known`, and every other
    /// host's record is untouched.
    pub fn learn(&mut self, host: &str, port: u16, key: &str)
        requires
            old(self).wf(),
        ensures
            final(self).wf(),
            final(self).spec_status(host@, port, key@) == HostKeyStatus::Known,
            forall|h: Seq<char>, p: u16, k: Seq<char>|
                !(h == host@ && p == port) ==> #[trigger] final(self).spec_status(h, p, k) == old(
                    self,
                ).spec_status(h, p, k),
    {
        let n = self.entries.len();
        let mut i: usize = 0;
        while i < n
            invariant
                old(self).wf(),
                n == self.entries@.len(),
                i <= n,
                forall|j: int| 0 <= j < i ==> !self.spec_entry_for(j, host@, port),
                old(self) == self,
            decreases n - i,
        {
            let matches_here = {
                let e = &self.entries[i];
                str_eq(e.host.as_str(), host) && e.port == port
            };
            if matches_here {
                let entry = KnownHostEntry {
                    host: String::from_str(host),
                    port,
                    key: String::from_str(key),
                };
                self.entries.set(i, entry);
                proof {
                    lemma_learn_replace(*old(self), *self, i as int, host@, port, key@);
                }
                return ;
            }
            i = i + 1;
        }
        let entry = KnownHostEntry { host: String::from_str(host), port, key: String::from_str(key) };
        self.entries.push(entry);
        proof {
            lemma_learn_append(*old(self), *self, host@, port, key@);
        }
    }
}

/// In a well-formed store, the record found for a host and port is the
/// only one.
proof fn lemma_sole_entry(store: KnownHostsStore, at: int, host: Seq<char>, port: u16)
    requires
        store.wf(),
        0 <= at < store.entries@.len(),
        store.spec_entry_for(at, host, port),
    ensures
        forall|j: int|
            0 <= j < store.entries@.len() && #[trigger] store.spec_entry_for(j, host, port) ==> j
                == at,
{
    assert forall|j: int|
        0 <= j < store.entries@.len() && #[trigger] store.spec_entry_for(j, host, port) implies j
        == at by {
        if j < at {
            assert(!store.spec_entry_for(j, store.entries@[at].host@, store.entries@[at].port));
        } else if at < j {
            assert(!store.spec_entry_for(at, store.entries@[j].host@, store.entries@[j].port));
        }
    }
}

/// After replacing the record at `at` — the only record for this host and
/// port — with the presented key, the store is still well-formed, answers
/// `Known` for it, and answers as before for every other host and port.
proof fn lemma_learn_replace(
    pre: KnownHostsStore,
    post: KnownHostsStore,
    at: int,
    host: Seq<char>,
    port: u16,
    key: Seq<char>,
)
    requires
        pre.wf(),
        0 <= at < pre.entries@.len(),
        post.entries@.len() == pre.entries@.len(),
        post.entries@[at].host@ == host,
        post.entries@[at].port == port,
        post.entries@[at].key@ == key,
        pre.spec_entry_for(at, host, port),
        forall|j: int|
            0 <= j < pre.entries@.len() && j != at ==> post.entries@[j] == pre.entries@[j],
    ensures
        post.wf(),
        post.spec_status(host, port, key) == HostKeyStatus::Known,
        forall|h: Seq<char>, p: u16, k: Seq<char>|
            !(h == host && p == port) ==> #[trigger] post.spec_status(h, p, k) == pre.spec_status(
                h,
                p,
                k,
            ),
{
    assert forall|i: int, j: int| 0 <= i < j < post.entries@.len() implies !(
    #[trigger] post.spec_entry_for(i, post.entries@[j].host@, post.entries@[j].port)) by {
        assert(pre.spec_entry_for(i, pre.entries@[i].host@, pre.entries@[i].port));
        if i == at {
            if post.spec_entry_for(i, post.entries@[j].host@, post.entries@[j].port) {
                assert(pre.spec_entry_for(at, pre.entries@[j].host@, pre.entries@[j].port));
            }
        } else if j == at {
            if post.spec_entry_for(i, post.entries@[j].host@, post.entries@[j].port) {
                assert(pre.spec_entry_for(i, host, port));
                assert(pre.spec_entry_for(at, host, port));
            }
        }
    }
    assert(post.spec_entry_for(at, host, port) && post.entries@[at].key@ == key);
    assert(post.spec_has_key(host, port, key));
    assert forall|h: Seq<char>, p: u16, k: Seq<char>|
        !(h == host && p == port) implies #[trigger] post.spec_status(h, p, k) == pre.spec_status(
        h,
        p,
        k,
    ) by {
        assert forall|i: int|
            0 <= i < post.entries@.len() implies (post.spec_entry_for(i, h, p)
            == pre.spec_entry_for(i, h, p) && (pre.spec_entry_for(i, h, p)
            ==> post.entries@[i].key@ == pre.entries@[i].key@)) by {
            if i == at {
                if pre.spec_entry_for(at, h, p) {
                    assert(pre.entries@[at].host@ == host && pre.entries@[at].port == port);
                }
            }
        }
        if pre.spec_has_key(h, p, k) {
            let i = choose|i: int|
                0 <= i < pre.entries@.len() && pre.spec_entry_for(i, h, p) && pre.entries@[i].key@
                    == k;
            assert(post.spec_entry_for(i, h, p) && post.entries@[i].key@ == k);
        }
        if post.spec_has_key(h, p, k) {
            let i = choose|i: int|
                0 <= i < post.entries@.len() && post.spec_entry_for(i, h, p)
                    && post.entries@[i].key@ == k;
            assert(pre.spec_entry_for(i, h, p) && pre.entries@[i].key@ == k);
        }
        if pre.spec_has_host(h, p) {
            let i = choose|i: int| 0 <= i < pre.entries@.len() && pre.spec_entry_for(i, h, p);
            assert(post.spec_entry_for(i, h, p));
        }
        if post.spec_has_host(h, p) {
            let i = choose|i: int| 0 <= i < post.entries@.len() && post.spec_entry_for(i, h, p);
            assert(pre.spec_entry_for(i, h, p));
        }
    }
}

/// After appending a record for a host and port that had none, the store
/// is still well-formed, answers `Known` for the appended key, and answers
/// as before for every other host and port.
proof fn lemma_learn_append(
    pre: KnownHostsStore,
    post: KnownHostsStore,
    host: Seq<char>,
    port: u16,
    key: Seq<char>,
)
    requires
        pre.wf(),
        forall|j: int| 0 <= j < pre.entries@.len() ==> !pre.spec_entry_for(j, host, port),
        post.entries@.len() == pre.entries@.len() + 1,
        post.entries@[post.entries@.len() - 1].host@ == host,
        post.entries@[post.entries@.len() - 1].port == port,
        post.entries@[post.entries@.len() - 1].key@ == key,
        forall|j: int| 0 <= j < pre.entries@.len() ==> post.entries@[j] == pre.entries@[j],
    ensures
        post.wf(),
        post.spec_status(host, port, key) == HostKeyStatus::Known,
        forall|h: Seq<char>, p: u16, k: Seq<char>|
            !(h == host && p == port) ==> #[trigger] post.spec_status(h, p, k) == pre.spec_status(
                h,
                p,
                k,
            ),
{
    let last = post.entries@.len() - 1;
    assert forall|i: int, j: int| 0 <= i < j < post.entries@.len() implies !(
    #[trigger] post.spec_entry_for(i, post.entries@[j].host@, post.entries@[j].port)) by {
        if j == last {
            if post.spec_entry_for(i, post.entries@[j].host@, post.entries@[j].port) {
                assert(pre.spec_entry_for(i, host, port));
            }
        } else {
            assert(pre.spec_entry_for(i, pre.entries@[i].host@, pre.entries@[i].port));
        }
    }
    assert(post.spec_entry_for(last, host, port) && post.entries@[last].key@ == key);
    assert(post.spec_has_key(host, port, key));
    assert forall|h: Seq<char>, p: u16, k: Seq<char>|
        !(h == host && p == port) implies #[trigger] post.spec_status(h, p, k) == pre.spec_status(
        h,
        p,
        k,
    ) by {
        if pre.spec_has_key(h, p, k) {
            let i = choose|i: int|
                0 <= i < pre.entries@.len() && pre.spec_entry_for(i, h, p) && pre.entries@[i].key@
                    == k;
            assert(post.spec_entry_for(i, h, p) && post.entries@[i].key@ == k);
        }
        if post.spec_has_key(h, p, k) {
            let i = choose|i: int|
                0 <= i < post.entries@.len() && post.spec_entry_for(i, h, p)
                    && post.entries@[i].key@ == k;
            assert(i != last);
            assert(pre.spec_entry_for(i, h, p) && pre.entries@[i].key@ == k);
        }
        if pre.spec_has_host(h, p) {
            let i = choose|i: int| 0 <= i < pre.entries@.len() && pre.spec_entry_for(i, h, p);
            assert(post.spec_entry_for(i, h, p));
        }
        if post.spec_has_host(h, p) {
            let i = choose|i: int| 0 <= i < post.entries@.len() && post.spec_entry_for(i, h, p);
            assert(i != last);
            assert(pre.spec_entry_for(i, h, p));
        }
    }
}

/// Law: a rejected challenge leaves the store untouched, so a host whose
/// key changed keeps the record it had — the verdict for any decision
/// other than an explicit yes carries no persistence, and only `learn`
/// ever changes the store.
pub proof fn lemma_rejected_key_change_keeps_store(
    store: KnownHostsStore,
    host: Seq<char>,
    port: u16,
    old_key: Seq<char>,
    new_key: Seq<char>,
    decision: HostKeyDecision,
)
    requires
        store.spec_status(host, port, new_key) == HostKeyStatus::Changed,
        store.spec_has_key(host, port, old_key),
        decision != Option::Some(true),
    ensures
        !spec_verdict(HostKeyStatus::Changed, decision).accept,
        !spec_verdict(HostKeyStatus::Changed, decision).persist,
        store.spec_has_key(host, port, old_key),
{
}

} // verus!
