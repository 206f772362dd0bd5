//! The local view of the remote alerts: one record per identity.

use crate::alert::{Alert, AlertRecord, AlertView, RecordView};
use crate::time::Timestamp;
use vstd::prelude::*;

verus! {

/// `t` is the newest update time among the alerts of `m`: some alert carries
/// it, and no alert carries a later one.
pub open spec fn is_latest_update(m: Map<Seq<char>, AlertView>, t: Timestamp) -> bool {
    &&& exists|id: Seq<char>| #[trigger] m.contains_key(id) && m[id].updated_at == Some(t)
    &&& forall|id: Seq<char>| #[trigger]
        m.contains_key(id) ==> (m[id].updated_at matches Some(u) ==> u.at_most(t))
}

/// The newest update time among the alerts of `m`, or `None` where no alert
/// carries an update time.
pub open spec fn latest_update_of(m: Map<Seq<char>, AlertView>) -> Option<Timestamp> {
    if exists|t: Timestamp| is_latest_update(m, t) {
        Some(choose|t: Timestamp| is_latest_update(m, t))
    } else {
        None
    }
}

/// A map has at most one newest update time.
pub proof fn lemma_latest_update_unique(m: Map<Seq<char>, AlertView>, s: Timestamp, t: Timestamp)
    requires
        is_latest_update(m, s),
        is_latest_update(m, t),
    ensures
        s == t,
{
    let i = choose|id: Seq<char>| #[trigger] m.contains_key(id) && m[id].updated_at == Some(s);
    let j = choose|id: Seq<char>| #[trigger] m.contains_key(id) && m[id].updated_at == Some(t);
    assert(s.at_most(t));
    assert(t.at_most(s));
}

/// Where some alert carries the update time `t` and none carries a later one,
/// `t` is the map's latest update, whichever alerts carry it.
pub proof fn lemma_latest_update_is_maximum(m: Map<Seq<char>, AlertView>, t: Timestamp)
    requires
        is_latest_update(m, t),
    ensures
        latest_update_of(m) == Some(t),
{
    let c = choose|c: Timestamp| is_latest_update(m, c);
    lemma_latest_update_unique(m, c, t);
}

/// A map without any update time, the empty map among them, has no latest
/// update.
pub proof fn lemma_latest_update_absent(m: Map<Seq<char>, AlertView>)
    requires
        forall|id: Seq<char>| #[trigger] m.contains_key(id) ==> m[id].updated_at is None,
    ensures
        latest_update_of(m) is None,
{
}

spec fn holds(s: Seq<RecordView>, id: Seq<char>) -> bool {
    exists|i: int| 0 <= i < s.len() && (#[trigger] s[i]).id == id
}

spec fn position(s: Seq<RecordView>, id: Seq<char>) -> int {
    choose|i: int| 0 <= i < s.len() && (#[trigger] s[i]).id == id
}

spec fn distinct(s: Seq<RecordView>) -> bool {
    forall|i: int, j: int| 0 <= i < j < s.len() ==> (#[trigger] s[i]).id != (#[trigger] s[j]).id
}

spec fn as_map(s: Seq<RecordView>) -> Map<Seq<char>, AlertView> {
    Map::new(|id: Seq<char>| holds(s, id), |id: Seq<char>| s[position(s, id)].alert)
}

proof fn lemma_position(s: Seq<RecordView>, i: int)
    requires
        distinct(s),
        0 <= i < s.len(),
    ensures
        holds(s, s[i].id),
        position(s, s[i].id) == i,
        as_map(s).contains_key(s[i].id),
        as_map(s)[s[i].id] == s[i].alert,
{
}

proof fn lemma_as_map_push(s: Seq<RecordView>, r: RecordView)
    requires
        distinct(s),
        !holds(s, r.id),
    ensures
        distinct(s.push(r)),
        as_map(s.push(r)) == as_map(s).insert(r.id, r.alert),
{
    let t = s.push(r);
    assert(distinct(t)) by {
        assert forall|i: int, j: int| 0 <= i < j < t.len() implies (#[trigger] t[i]).id != (
        #[trigger] t[j]).id by {
            if j < s.len() {
                assert(s[i].id != s[j].id);
            } else {
                assert(s[i].id != r.id);
            }
        }
    }
    assert forall|id: Seq<char>| holds(t, id) <==> (holds(s, id) || id == r.id) by {
        if holds(t, id) {
            let i = position(t, id);
            if i < s.len() {
                assert(s[i].id == id);
            }
        }
        if holds(s, id) {
            let i = position(s, id);
            assert(t[i].id == id);
        }
        if id == r.id {
            assert(t[s.len() as int].id == id);
        }
    }
    assert forall|id: Seq<char>| holds(t, id) implies #[trigger] as_map(t)[id] == as_map(s).insert(
        r.id,
        r.alert,
    )[id] by {
        let i = position(t, id);
        lemma_position(t, i);
        if i < s.len() {
            assert(s[i] == t[i]);
            lemma_position(s, i);
        }
    }
    assert(as_map(t) =~= as_map(s).insert(r.id, r.alert));
}

proof fn lemma_as_map_update(s: Seq<RecordView>, i: int, r: RecordView)
    requires
        distinct(s),
        0 <= i < s.len(),
        s[i].id == r.id,
    ensures
        distinct(s.update(i, r)),
        as_map(s.update(i, r)) == as_map(s).insert(r.id, r.alert),
{
    let t = s.update(i, r);
    assert(distinct(t)) by {
        assert forall|a: int, b: int| 0 <= a < b < t.len() implies (#[trigger] t[a]).id != (
        #[trigger] t[b]).id by {
            assert(s[a].id != s[b].id);
        }
    }
    assert forall|id: Seq<char>| holds(t, id) <==> holds(s, id) by {
        if holds(t, id) {
            let k = position(t, id);
            assert(s[k].id == id);
        }
        if holds(s, id) {
            let k = position(s, id);
            assert(t[k].id == id);
        }
    }
    assert(holds(s, r.id)) by {
        assert(s[i].id == r.id);
    }
    assert forall|id: Seq<char>| holds(t, id) implies #[trigger] as_map(t)[id] == as_map(s).insert(
        r.id,
        r.alert,
    )[id] by {
        let k = position(t, id);
        lemma_position(t, k);
        if k != i {
            assert(s[k] == t[k]);
            lemma_position(s, k);
        }
    }
    assert(as_map(t) =~= as_map(s).insert(r.id, r.alert));
}

proof fn lemma_as_map_finite(s: Seq<RecordView>)
    requires
        distinct(s),
    ensures
        as_map(s).dom().finite(),
        as_map(s).dom().len() == s.len(),
    decreases s.len(),
{
    if s.len() == 0 {
        assert(as_map(s).dom() =~= Set::<Seq<char>>::empty());
    } else {
        let p = s.drop_last();
        let r = s.last();
        assert(distinct(p)) by {
            assert forall|i: int, j: int| 0 <= i < j < p.len() implies (#[trigger] p[i]).id != (
            #[trigger] p[j]).id by {
                assert(s[i].id != s[j].id);
            }
        }
        assert(!holds(p, r.id)) by {
            if holds(p, r.id) {
                let i = position(p, r.id);
                assert(s[i].id != s[s.len() - 1].id);
            }
        }
        lemma_as_map_finite(p);
        lemma_as_map_push(p, r);
        assert(p.push(r) =~= s);
        assert(as_map(s).dom() =~= as_map(p).dom().insert(r.id));
        assert(!as_map(p).dom().contains(r.id));
    }
}

/// The alerts known so far, one per identity. An identity maps to the version
/// of its alert that was inserted last; nothing is ever removed.
///
/// The records lie in a vector that is searched in order. A hash map keyed by
/// the identities would be faster, but the prover has no model of how `String`
/// keys hash, and so could tell nothing of what such a map holds.
pub struct AlertStore {
    entries: Vec<AlertRecord>,
}

impl View for AlertStore {
    type V = Map<Seq<char>, AlertView>;

    closed spec fn view(&self) -> Map<Seq<char>, AlertView> {
        as_map(self.entries.deep_view())
    }
}

impl AlertStore {
    #[verifier::type_invariant]
    spec fn one_record_per_identity(&self) -> bool {
        distinct(self.entries.deep_view())
    }

    /// A store that knows no alert.
    pub fn new() -> (store: AlertStore)
        ensures
            store@ == Map::<Seq<char>, AlertView>::empty(),
    {
        let store = AlertStore { entries: Vec::new() };
        assert(store@ =~= Map::<Seq<char>, AlertView>::empty());
        store
    }

    /// The number of alerts known.
    pub fn len(&self) -> (n: usize)
        ensures
            self@.dom().finite(),
            n == self@.dom().len(),
    {
        proof {
            use_type_invariant(self);
            lemma_as_map_finite(self.entries.deep_view());
        }
        self.entries.len()
    }

    /// Whether no alert is known.
    pub fn is_empty(&self) -> (b: bool)
        ensures
            b == (self@ == Map::<Seq<char>, AlertView>::empty()),
    {
        proof {
            use_type_invariant(self);
            let s = self.entries.deep_view();
            if s.len() > 0 {
                lemma_position(s, 0);
            } else {
                assert(self@ =~= Map::<Seq<char>, AlertView>::empty());
            }
        }
        self.entries.len() == 0
    }

    fn find(&self, id: &String) -> (at: Option<usize>)
        ensures
            match at {
                Some(i) => i < self.entries.len() && self.entries[i as int].id@ == id@,
                None => !holds(self.entries.deep_view(), id@),
            },
    {
        let mut i: usize = 0;
        while i < self.entries.len()
            invariant
                i <= self.entries.len(),
                forall|j: int| 0 <= j < i ==> self.entries[j].id@ != id@,
            decreases self.entries.len() - i,
        {
            if self.entries[i].id == *id {
                return Some(i);
            }
            i += 1;
        }
        proof {
            let s = self.entries.deep_view();
            if holds(s, id@) {
                let j = position(s, id@);
                assert(self.entries[j].id@ != id@);
            }
        }
        None
    }

    /// Whether an alert is known under `id`.
    pub fn contains(&self, id: &String) -> (b: bool)
        ensures
            b == self@.contains_key(id@),
    {
        match self.find(id) {
            Some(i) => {
                proof {
                    use_type_invariant(self);
                    lemma_position(self.entries.deep_view(), i as int);
                }
                true
            },
            None => false,
        }
    }

    /// The alert known under `id`, if there is one.
    pub fn get(&self, id: &String) -> (found: Option<&Alert>)
        ensures
            match found {
                Some(alert) => self@.contains_key(id@) && alert@ == self@[id@],
                None => !self@.contains_key(id@),
            },
    {
        match self.find(id) {
            Some(i) => {
                proof {
                    use_type_invariant(self);
                    lemma_position(self.entries.deep_view(), i as int);
                }
                Some(&self.entries[i].alert)
            },
            None => None,
        }
    }

    /// Records `alert` under `id`. A version known before is replaced as a
    /// whole, and every other identity keeps its alert. Returns whether the
    /// identity was unknown until now.
    pub fn insert(&mut self, id: String, alert: Alert) -> (is_new: bool)
        ensures
            final(self)@ == old(self)@.insert(id@, alert@),
            is_new == !old(self)@.contains_key(id@),
    {
        proof {
            use_type_invariant(&*self);
        }
        let at = self.find(&id);
        let ghost before = self.entries.deep_view();
        let ghost added = RecordView { id: id@, alert: alert@ };
        let mut entries: Vec<AlertRecord> = Vec::new();
        core::mem::swap(&mut self.entries, &mut entries);
        let is_new = match at {
            Some(i) => {
                proof {
                    lemma_position(before, i as int);
                    lemma_as_map_update(before, i as int, added);
                }
                entries.set(i, AlertRecord { id, alert });
                assert(entries.deep_view() =~= before.update(i as int, added));
                false
            },
            None => {
                proof {
                    lemma_as_map_push(before, added);
                }
                entries.push(AlertRecord { id, alert });
                assert(entries.deep_view() =~= before.push(added));
                true
            },
        };
        core::mem::swap(&mut self.entries, &mut entries);
        is_new
    }

    /// The newest update time among the known alerts: `None` for an empty
    /// store and for one whose alerts all lack an update time.
    pub fn latest_update(&self) -> (latest: Option<Timestamp>)
        ensures
            latest == latest_update_of(self@),
    {
        proof {
            use_type_invariant(self);
        }
        let ghost s = self.entries.deep_view();
        let mut best: Option<Timestamp> = None;
        let mut i: usize = 0;
        while i < self.entries.len()
            invariant
                i <= self.entries.len(),
                s == self.entries.deep_view(),
                match best {
                    Some(t) => {
                        &&& exists|j: int| 0 <= j < i && (#[trigger] s[j]).alert.updated_at == Some(t)
                        &&& forall|j: int|
                            0 <= j < i ==> ((#[trigger] s[j]).alert.updated_at matches Some(u)
                                ==> u.at_most(t))
                    },
                    None => forall|j: int| 0 <= j < i ==> (#[trigger] s[j]).alert.updated_at is None,
                },
            decreases self.entries.len() - i,
        {
            assert(s[i as int].alert.updated_at == self.entries[i as int].alert.updated_at);
            match self.entries[i].alert.updated_at {
                Some(u) => {
                    let newer = match best {
                        Some(t) => t.is_before(&u),
                        None => true,
                    };
                    if newer {
                        best = Some(u);
                    }
                },
                None => {},
            }
            i += 1;
        }
        proof {
            let m = self@;
            match best {
                Some(t) => {
                    let j = choose|j: int| 0 <= j < s.len() && (#[trigger] s[j]).alert.updated_at == Some(t);
                    lemma_position(s, j);
                    assert(m.contains_key(s[j].id) && m[s[j].id].updated_at == Some(t));
                    assert forall|id: Seq<char>| #[trigger] m.contains_key(id) implies (
                    m[id].updated_at matches Some(u) ==> u.at_most(t)) by {
                        let k = position(s, id);
                        assert(m[id] == s[k].alert);
                    }
                    lemma_latest_update_is_maximum(m, t);
                },
                None => {
                    assert forall|id: Seq<char>| #[trigger] m.contains_key(id) implies m[id].updated_at is None by {
                        let k = position(s, id);
                        assert(m[id] == s[k].alert);
                    }
                    lemma_latest_update_absent(m);
                },
            }
        }
        best
    }
}

} // verus!
