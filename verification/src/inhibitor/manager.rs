//! The inhibitor registry. One instance is shared by every client
//! connection (the daemon guards it with a lock).

use super::inhibitor::{info_of, Inhibitor, InhibitorInfo, UtcTimestamp};
use super::reason::{InhibitMode, InhibitWhat};
use crate::errors::PowerError;
use crate::idle::timeout::{subsec_nanos, whole_secs};
use std::time::{Duration, SystemTime, SystemTimeError, UNIX_EPOCH};
use vstd::arithmetic::power::pow;
use std::collections::HashMap;
use vstd::prelude::*;
use vstd::std_specs::hash::spec_keys_iter;
use vstd::std_specs::iter::IteratorSpec;

verus! {

// ---- outside calls ------------------------------------------------------

#[verifier::external_type_specification]
#[verifier::external_body]
pub struct ExSystemTime(SystemTime);

#[verifier::external_type_specification]
#[verifier::external_body]
pub struct ExSystemTimeError(SystemTimeError);

/// `uuid::Uuid::new_v4()`, as its 128-bit value: a random identifier.
/// Nothing is claimed of the value.
#[verifier::external_body]
fn random_uuid() -> u128 {
    uuid::Uuid::new_v4().as_u128()
}

/// `std::time::SystemTime::now()`: the current reading of the wall clock.
/// Nothing is claimed of the value.
#[verifier::external_body]
fn wall_clock_now() -> SystemTime {
    SystemTime::now()
}

/// `SystemTime::duration_since(UNIX_EPOCH)`: the time since the Unix epoch,
/// or an error when the clock reads earlier than the epoch. Nothing is
/// claimed of which comes back, nor of the durations.
#[verifier::external_body]
fn since_unix_epoch(t: &SystemTime) -> Result<Duration, SystemTimeError> {
    t.duration_since(UNIX_EPOCH)
}

/// `SystemTimeError::duration`: how far before the epoch the clock read.
/// Nothing is claimed of the value.
#[verifier::external_body]
fn before_unix_epoch(e: &SystemTimeError) -> Duration {
    e.duration()
}

/// The current UTC wall-clock time. A clock that reads before the Unix epoch
/// gives a negative timestamp, as chrono's conversion from `SystemTime` does.
fn utc_now() -> (r: UtcTimestamp)
    ensures
        r.nanos < 1_000_000_000,
{
    let now = wall_clock_now();
    match since_unix_epoch(&now) {
        Ok(d) => UtcTimestamp::from_epoch_offset(false, whole_secs(&d), subsec_nanos(&d)),
        Err(e) => {
            let d = before_unix_epoch(&e);
            UtcTimestamp::from_epoch_offset(true, whole_secs(&d), subsec_nanos(&d))
        },
    }
}

/// The lowercase hexadecimal digit for `n` (`0 <= n < 16`).
pub open spec fn hex_digit(n: int) -> char {
    if n < 10 {
        (n + 48) as char
    } else {
        (n + 87) as char
    }
}

/// The `k`-th of the 32 hexadecimal digits of `id`, most significant first.
pub open spec fn nibble(id: u128, k: int) -> int {
    (id as int / pow(16, (31 - k) as nat)) % 16
}

/// The hyphenated form of a UUID: its 32 lowercase hexadecimal digits in
/// groups of 8-4-4-4-12 separated by `-`.
pub open spec fn uuid_hyphenated(id: u128) -> Seq<char> {
    Seq::new(
        36,
        |i: int|
            if i == 8 || i == 13 || i == 18 || i == 23 {
                '-'
            } else if i < 8 {
                hex_digit(nibble(id, i))
            } else if i < 13 {
                hex_digit(nibble(id, i - 1))
            } else if i < 18 {
                hex_digit(nibble(id, i - 2))
            } else if i < 23 {
                hex_digit(nibble(id, i - 3))
            } else {
                hex_digit(nibble(id, i - 4))
            },
    )
}

/// `uuid::Uuid::from_u128(id).to_string()`. Claimed: the text is the
/// hyphenated lowercase form (uuid's `Display` writes `LowerHex`, which
/// writes the hyphenated encoding).
#[verifier::external_body]
fn uuid_string(id: u128) -> (r: String)
    ensures
        r@ == uuid_hyphenated(id),
{
    uuid::Uuid::from_u128(id).to_string()
}

// ---- the model ----------------------------------------------------------

broadcast use vstd::std_specs::hash::group_hash_axioms;

/// Every inhibitor of `m` is filed under its own identifier.
pub open spec fn keyed_by_id(m: Map<u128, Inhibitor>) -> bool {
    forall|id: u128| #[trigger] m.contains_key(id) ==> m[id].id == id
}

/// `ks` names every identifier of `m` exactly once: an order in which the
/// map can be walked.
pub open spec fn walk_order(ks: Seq<u128>, m: Map<u128, Inhibitor>) -> bool {
    ks.no_duplicates() && ks.to_set() == m.dom()
}

/// The inhibitors of `m` in the order `ks` names them.
pub open spec fn walked(ks: Seq<u128>, m: Map<u128, Inhibitor>) -> Seq<Inhibitor> {
    ks.map_values(|k: u128| m[k])
}

/// `m` without the inhibitors held by client `client_id`.
pub open spec fn without_client(m: Map<u128, Inhibitor>, client_id: u128) -> Map<u128, Inhibitor> {
    Map::new(|id: u128| m.contains_key(id) && m[id].client_id != client_id, |id: u128| m[id])
}

/// `"who: why"` for every inhibitor of `s` that covers `target`, in order.
pub open spec fn blocker_texts(s: Seq<Inhibitor>, target: InhibitWhat) -> Seq<Seq<char>>
    decreases s.len(),
{
    if s.len() == 0 {
        Seq::empty()
    } else {
        let rest = blocker_texts(s.drop_last(), target);
        if s.last().what.covers_spec(target) {
            rest.push(s.last().who@ + ": "@ + s.last().why@)
        } else {
            rest
        }
    }
}

/// Releasing an inhibitor right after acquiring it leaves exactly what was
/// held before: with a fresh identifier nothing else is touched.
pub proof fn lemma_release_undoes_acquire(m: Map<u128, Inhibitor>, x: Inhibitor)
    requires
        !m.contains_key(x.id),
    ensures
        m.insert(x.id, x).remove(x.id) == m,
{
    assert(m.insert(x.id, x).remove(x.id) =~= m);
}

/// After a client disconnects, none of its inhibitors remain, and every
/// other client's inhibitors are kept as they were.
pub proof fn lemma_release_all_for_client(m: Map<u128, Inhibitor>, client_id: u128, id: u128)
    requires
        m.contains_key(id),
    ensures
        without_client(m, client_id).contains_key(id) <==> m[id].client_id != client_id,
        without_client(m, client_id).contains_key(id) ==> without_client(m, client_id)[id]
            == m[id],
{
}

/// The identifiers of `m`, each once, in the order the map walks them.
fn ids_of(m: &HashMap<u128, Inhibitor>) -> (r: Vec<u128>)
    ensures
        walk_order(r@, m@),
{
    let mut out: Vec<u128> = Vec::new();
    for k in it: m.keys()
        invariant
            out@.len() == it.index(),
            forall|j: int| 0 <= j < it.index() ==> out@[j] == *it.seq()[j],
    {
        out.push(*k);
    }
    proof {
        let s = spec_keys_iter(m).remaining();
        assert(out@ =~= s.unref());
    }
    out
}

// ---- the registry -------------------------------------------------------

pub struct InhibitorManager {
    inner: HashMap<u128, Inhibitor>,
}

impl InhibitorManager {
    /// The inhibitors currently held, by identifier.
    pub closed spec fn held(&self) -> Map<u128, Inhibitor> {
        self.inner@
    }

    pub open spec fn wf(&self) -> bool {
        keyed_by_id(self.held())
    }

    pub fn new() -> (m: Self)
        ensures
            m.wf(),
            m.held() == Map::<u128, Inhibitor>::empty(),
    {
        InhibitorManager { inner: HashMap::new() }
    }

    /// Registers a new inhibitor under a fresh random identifier and returns
    /// that identifier. (Should the identifier already be held, the new
    /// inhibitor replaces the old one, as the map insert does.)
    pub fn acquire(
        &mut self,
        client_id: u128,
        who: String,
        why: String,
        what: InhibitWhat,
        mode: InhibitMode,
    ) -> (id: u128)
        requires
            old(self).wf(),
        ensures
            final(self).wf(),
            final(self).held() == old(self).held().insert(id, final(self).held()[id]),
            final(self).held()[id].id == id,
            final(self).held()[id].client_id == client_id,
            final(self).held()[id].who == who,
            final(self).held()[id].why == why,
            final(self).held()[id].what == what,
            final(self).held()[id].mode == mode,
            final(self).held()[id].created_at.nanos < 1_000_000_000,
    {
        let id = random_uuid();
        let inhibitor = Inhibitor { id, client_id, who, why, what, mode, created_at: utc_now() };
        self.inner.insert(id, inhibitor);
        assert(self.inner@ =~= old(self).inner@.insert(id, self.inner@[id]));
        id
    }

    pub open spec fn not_found_text(id: u128) -> Seq<char> {
        "inhibitor "@ + uuid_hyphenated(id)
    }

    /// Releases the inhibitor with identifier `id`, or reports `NotFound`
    /// (naming it) when none is held.
    pub fn release(&mut self, id: u128) -> (r: Result<(), PowerError>)
        requires
            old(self).wf(),
        ensures
            final(self).wf(),
            old(self).held().contains_key(id) ==> r is Ok && final(self).held() == old(
                self,
            ).held().remove(id),
            !old(self).held().contains_key(id) ==> final(self).held() == old(self).held() && (
            r matches Err(PowerError::NotFound(m)) && m@ == Self::not_found_text(id)),
    {
        match self.inner.remove(&id) {
            Some(_) => Ok(()),
            None => {
                assert(self.inner@ =~= old(self).inner@);
                let m = String::from_str("inhibitor ").concat(uuid_string(id).as_str());
                Err(PowerError::NotFound(m))
            },
        }
    }

    /// Every inhibitor held, in the order the map walks them (which the map
    /// leaves open).
    pub fn list(&self) -> (r: Vec<InhibitorInfo>)
        ensures
            exists|ks: Seq<u128>|
                walk_order(ks, self.held()) && r@ == walked(ks, self.held()).map_values(
                    |i: Inhibitor| info_of(i),
                ),
    {
        let ids = ids_of(&self.inner);
        let ghost m = self.inner@;
        let mut out: Vec<InhibitorInfo> = Vec::new();
        let mut k: usize = 0;
        while k < ids.len()
            invariant
                m == self.inner@,
                walk_order(ids@, m),
                k <= ids@.len(),
                out@ == walked(ids@.take(k as int), m).map_values(|i: Inhibitor| info_of(i)),
            decreases ids@.len() - k,
        {
            let id = ids[k];
            assert(ids@.to_set().contains(ids@[k as int]));
            let i = self.inner.get(&id).unwrap();
            out.push(i.info());
            assert(walked(ids@.take(k + 1), m).map_values(|i: Inhibitor| info_of(i))
                =~= walked(ids@.take(k as int), m).map_values(|i: Inhibitor| info_of(i)).push(
                info_of(m[id]),
            ));
            k = k + 1;
        }
        assert(ids@.take(ids@.len() as int) =~= ids@);
        assert(walk_order(ids@, self.held()) && out@ == walked(ids@, self.held()).map_values(
            |i: Inhibitor| info_of(i),
        ));
        out
    }

    /// Human-readable `"who: why"` strings for every held inhibitor that
    /// covers `target`, in the order the map walks them. An empty result
    /// means the action may proceed.
    pub fn blockers(&self, target: InhibitWhat) -> (r: Vec<String>)
        ensures
            exists|ks: Seq<u128>|
                walk_order(ks, self.held()) && r@.map_values(|s: String| s@) == blocker_texts(
                    walked(ks, self.held()),
                    target,
                ),
    {
        let ids = ids_of(&self.inner);
        let ghost m = self.inner@;
        let mut out: Vec<String> = Vec::new();
        let mut k: usize = 0;
        assert(walked(ids@.take(0), m) =~= Seq::<Inhibitor>::empty());
        assert(out@.map_values(|s: String| s@) =~= Seq::<Seq<char>>::empty());
        while k < ids.len()
            invariant
                m == self.inner@,
                walk_order(ids@, m),
                k <= ids@.len(),
                out@.map_values(|s: String| s@) == blocker_texts(walked(ids@.take(k as int), m), target),
            decreases ids@.len() - k,
        {
            let id = ids[k];
            assert(ids@.to_set().contains(ids@[k as int]));
            let i = self.inner.get(&id).unwrap();
            assert(walked(ids@.take(k + 1), m).drop_last() =~= walked(ids@.take(k as int), m));
            assert(walked(ids@.take(k + 1), m).last() == m[id]);
            if i.what.covers(target) {
                let ghost before = out@.map_values(|s: String| s@);
                let text = i.who.clone().concat(": ").concat(i.why.as_str());
                out.push(text);
                assert(out@.map_values(|s: String| s@) =~= before.push(text@));
            }
            k = k + 1;
        }
        assert(ids@.take(ids@.len() as int) =~= ids@);
        assert(walk_order(ids@, self.held()) && out@.map_values(|s: String| s@) == blocker_texts(
            walked(ids@, self.held()),
            target,
        ));
        out
    }

    /// Releases every inhibitor held by `client_id`, so that the inhibitors
    /// of a crashed or exited client do not wedge the system forever.
    pub fn release_all_for_client(&mut self, client_id: u128)
        requires
            old(self).wf(),
        ensures
            final(self).wf(),
            final(self).held() == without_client(old(self).held(), client_id),
    {
        let ghost m = self.inner@;
        let ids = ids_of(&self.inner);
        let mut k: usize = 0;
        while k < ids.len()
            invariant
                walk_order(ids@, m),
                k <= ids@.len(),
                forall|id: u128|
                    #[trigger] self.inner@.contains_key(id) <==> m.contains_key(id) && !(
                    among_first(ids@, k as int, id) && m[id].client_id == client_id),
                forall|id: u128| #[trigger] self.inner@.contains_key(id) ==> self.inner@[id] == m[id],
            decreases ids@.len() - k,
        {
            let id = ids[k];
            assert(ids@.to_set().contains(ids@[k as int]));
            let holder = match self.inner.get(&id) {
                Some(i) => Some(i.client_id),
                None => None,
            };
            if holder == Some(client_id) {
                self.inner.remove(&id);
            }
            assert forall|x: u128| among_first(ids@, k + 1, x) <==> among_first(ids@, k as int, x)
                || x == id by {
                if among_first(ids@, k + 1, x) {
                    let j = choose|j: int| 0 <= j < k + 1 && #[trigger] ids@[j] == x;
                    if j < k {
                        assert(among_first(ids@, k as int, x));
                    }
                }
                if among_first(ids@, k as int, x) {
                    let j = choose|j: int| 0 <= j < k && #[trigger] ids@[j] == x;
                    assert(0 <= j < k + 1 && ids@[j] == x);
                }
                if x == id {
                    assert(ids@[k as int] == x);
                }
            }
            k = k + 1;
        }
        assert forall|id: u128| m.contains_key(id) implies among_first(
            ids@,
            ids@.len() as int,
            id,
        ) by {
            assert(ids@.to_set().contains(id));
            let j = choose|j: int| 0 <= j < ids@.len() && ids@[j] == id;
            assert(ids@[j] == id);
        }
        assert(self.inner@ =~= without_client(m, client_id));
    }
}

/// `id` is among the first `k` identifiers of `ids`.
pub open spec fn among_first(ids: Seq<u128>, k: int, id: u128) -> bool {
    exists|j: int| 0 <= j < k && #[trigger] ids[j] == id
}

impl Default for InhibitorManager {
    fn default() -> (m: Self)
        ensures
            m.wf(),
            m.held() == Map::<u128, Inhibitor>::empty(),
    {
        Self::new()
    }
}

} // verus!
