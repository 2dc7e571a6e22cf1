//! The zone graph: zones keyed by their identifier, each with its text, its
//! items and its connections to other zones by direction.
use vstd::prelude::*;
use crate::commands::{Direction, DirectionView};
use crate::text::same_text;

verus! {

pub type ZoneId = String;

pub type ItemId = String;

/// The value that the last pair with key `k` holds: later pairs shadow earlier ones.
pub open spec fn lookup<K, V>(s: Seq<(K, V)>, k: K) -> Option<V>
    decreases s.len(),
{
    if s.len() == 0 {
        None
    } else if s.last().0 == k {
        Some(s.last().1)
    } else {
        lookup(s.drop_last(), k)
    }
}

pub open spec fn keys_unique<K, V>(s: Seq<(K, V)>) -> bool {
    forall|i: int, j: int| 0 <= i < j < s.len() ==> #[trigger] s[i].0 != #[trigger] s[j].0
}

/// The map that a list of pairs stands for.
pub open spec fn pairs_map<K, V>(s: Seq<(K, V)>) -> Map<K, V> {
    Map::new(|k: K| lookup(s, k).is_some(), |k: K| lookup(s, k).unwrap())
}

proof fn lemma_lookup_push<K, V>(s: Seq<(K, V)>, key: K, val: V, k: K)
    ensures
        lookup(s.push((key, val)), k) == if k == key {
            Some(val)
        } else {
            lookup(s, k)
        },
{
    assert(s.push((key, val)).drop_last() =~= s);
}

proof fn lemma_lookup_none<K, V>(s: Seq<(K, V)>, k: K)
    requires
        lookup(s, k).is_none(),
    ensures
        forall|i: int| 0 <= i < s.len() ==> #[trigger] s[i].0 != k,
    decreases s.len(),
{
    if s.len() > 0 {
        lemma_lookup_none(s.drop_last(), k);
        assert forall|i: int| 0 <= i < s.len() implies #[trigger] s[i].0 != k by {
            if i < s.len() - 1 {
                assert(s[i] == s.drop_last()[i]);
            }
        }
    }
}

/// Where the last pair with key `k` stands at `i`, replacing its value changes the
/// lookup of `k` alone.
proof fn lemma_lookup_update<K, V>(s: Seq<(K, V)>, i: int, val: V, k: K)
    requires
        0 <= i < s.len(),
        forall|j: int| i < j < s.len() ==> #[trigger] s[j].0 != s[i].0,
    ensures
        lookup(s.update(i, (s[i].0, val)), k) == if k == s[i].0 {
            Some(val)
        } else {
            lookup(s, k)
        },
    decreases s.len(),
{
    let t = s.update(i, (s[i].0, val));
    if i == s.len() - 1 {
        assert(t.drop_last() =~= s.drop_last());
    } else {
        assert(t.drop_last() =~= s.drop_last().update(i, (s[i].0, val)));
        assert(s.last() == s[s.len() - 1]);
        lemma_lookup_update(s.drop_last(), i, val, k);
    }
}

/// The zones that a direction leads to from one zone; each direction at most once.
pub struct Connections {
    entries: Vec<(Direction, ZoneId)>,
}

impl View for Connections {
    type V = Map<DirectionView, Seq<char>>;

    closed spec fn view(&self) -> Map<DirectionView, Seq<char>> {
        pairs_map(self.pairs())
    }
}

impl Connections {
    pub closed spec fn pairs(&self) -> Seq<(DirectionView, Seq<char>)> {
        self.entries@.map_values(|e: (Direction, ZoneId)| (e.0@, e.1@))
    }

    /// Each direction appears in one entry at most.
    #[verifier::type_invariant]
    spec fn unique_directions(&self) -> bool {
        keys_unique(self.pairs())
    }

    /// No connections.
    pub fn new() -> (r: Connections)
        ensures
            r@ == Map::<DirectionView, Seq<char>>::empty(),
    {
        let r = Connections { entries: Vec::new() };
        assert(r.pairs() =~= Seq::<(DirectionView, Seq<char>)>::empty());
        assert(r@ =~= Map::<DirectionView, Seq<char>>::empty());
        r
    }

    /// The index of the entry that holds `d`, searching from the last entry.
    fn find(&self, d: &Direction) -> (r: Option<usize>)
        ensures
            match r {
                Some(i) => i < self.pairs().len() && self.pairs()[i as int].0 == d@ && lookup(
                    self.pairs(),
                    d@,
                ) == Some(self.pairs()[i as int].1) && forall|j: int|
                    i < j < self.pairs().len() ==> #[trigger] self.pairs()[j].0 != d@,
                None => lookup(self.pairs(), d@).is_none(),
            },
    {
        let ghost ps = self.pairs();
        let mut i = self.entries.len();
        assert(ps.take(i as int) =~= ps);
        while i > 0
            invariant
                i <= self.entries@.len(),
                ps == self.pairs(),
                ps.len() == self.entries@.len(),
                lookup(ps, d@) == lookup(ps.take(i as int), d@),
                forall|j: int| i <= j < ps.len() ==> #[trigger] ps[j].0 != d@,
            decreases i,
        {
            i = i - 1;
            assert(ps.take(i + 1).drop_last() =~= ps.take(i as int));
            assert(ps[i as int] == (self.entries@[i as int].0@, self.entries@[i as int].1@));
            if self.entries[i].0.same_as(d) {
                return Some(i);
            }
        }
        assert(ps.take(0) =~= Seq::<(DirectionView, Seq<char>)>::empty());
        None
    }

    /// The zone that `d` leads to.
    pub fn get(&self, d: &Direction) -> (r: Option<&ZoneId>)
        ensures
            match r {
                Some(t) => self@.contains_key(d@) && self@[d@] == t@,
                None => !self@.contains_key(d@),
            },
    {
        match self.find(d) {
            Some(i) => {
                assert(self.pairs()[i as int].1 == self.entries@[i as int].1@);
                Some(&self.entries[i].1)
            },
            None => None,
        }
    }

    /// Whether `d` leads anywhere.
    pub fn contains_key(&self, d: &Direction) -> (r: bool)
        ensures
            r == self@.contains_key(d@),
    {
        self.find(d).is_some()
    }

    /// The connections as pairs, in the order they were first made.
    pub fn to_vec(&self) -> (r: Vec<(Direction, ZoneId)>)
        ensures
            r@.map_values(|e: (Direction, ZoneId)| (e.0@, e.1@)) == self.pairs(),
    {
        let mut out: Vec<(Direction, ZoneId)> = Vec::new();
        let mut k: usize = 0;
        while k < self.entries.len()
            invariant
                k <= self.entries@.len(),
                out@.map_values(|e: (Direction, ZoneId)| (e.0@, e.1@)) =~= self.pairs().take(
                    k as int,
                ),
            decreases self.entries@.len() - k,
        {
            let d = self.entries[k].0.duplicate();
            let t = self.entries[k].1.clone();
            out.push((d, t));
            assert(self.pairs().take(k + 1) =~= self.pairs().take(k as int).push(
                self.pairs()[k as int],
            ));
            k = k + 1;
        }
        assert(self.pairs().take(k as int) =~= self.pairs());
        out
    }

    /// Makes `d` lead to `target`, in place of anything it led to before.
    pub fn insert(&mut self, d: Direction, target: ZoneId)
        ensures
            final(self)@ == old(self)@.insert(d@, target@),
    {
        proof {
            use_type_invariant(&*self);
        }
        let ghost ps = self.pairs();
        let ghost key = d@;
        let ghost val = target@;
        let found = self.find(&d);
        let mut entries: Vec<(Direction, ZoneId)> = Vec::new();
        std::mem::swap(&mut entries, &mut self.entries);
        assert(entries@.map_values(|e: (Direction, ZoneId)| (e.0@, e.1@)) == ps);
        match found {
            Some(i) => {
                entries.set(i, (d, target));
                let ghost now = entries@.map_values(|e: (Direction, ZoneId)| (e.0@, e.1@));
                assert(now =~= ps.update(i as int, (ps[i as int].0, val)));
                assert forall|k: DirectionView| #[trigger]
                    lookup(now, k) == if k == key {
                        Some(val)
                    } else {
                        lookup(ps, k)
                    } by {
                    lemma_lookup_update(ps, i as int, val, k);
                }
                assert(pairs_map(now) =~= pairs_map(ps).insert(key, val));
            },
            None => {
                entries.push((d, target));
                let ghost now = entries@.map_values(|e: (Direction, ZoneId)| (e.0@, e.1@));
                assert(now =~= ps.push((key, val)));
                proof {
                    lemma_lookup_none(ps, key);
                }
                assert forall|k: DirectionView| #[trigger]
                    lookup(now, k) == if k == key {
                        Some(val)
                    } else {
                        lookup(ps, k)
                    } by {
                    lemma_lookup_push(ps, key, val, k);
                }
                assert(pairs_map(now) =~= pairs_map(ps).insert(key, val));
            },
        }
        self.entries = entries;
    }
}

/// One zone of the world, as its definition file gives it.
pub struct ZoneAsset {
    /// Many zones may share a name.
    pub name: String,
    /// Shown when the player enters the zone.
    pub description: String,
    /// Shown when the player looks around, where present.
    pub examine: Option<String>,
    pub connections: Connections,
    /// The items lying in the zone, in order.
    pub items: Vec<ItemId>,
}

/// All zones of the world, keyed by identifier; each identifier at most once.
pub struct Zones {
    entries: Vec<(ZoneId, ZoneAsset)>,
}

impl View for Zones {
    type V = Map<Seq<char>, ZoneAsset>;

    closed spec fn view(&self) -> Map<Seq<char>, ZoneAsset> {
        pairs_map(self.pairs())
    }
}

impl Zones {
    pub closed spec fn pairs(&self) -> Seq<(Seq<char>, ZoneAsset)> {
        self.entries@.map_values(|e: (ZoneId, ZoneAsset)| (e.0@, e.1))
    }

    /// Each identifier appears in one entry at most.
    #[verifier::type_invariant]
    spec fn unique_ids(&self) -> bool {
        keys_unique(self.pairs())
    }

    /// No zones.
    pub fn new() -> (r: Zones)
        ensures
            r@ == Map::<Seq<char>, ZoneAsset>::empty(),
    {
        let r = Zones { entries: Vec::new() };
        assert(r.pairs() =~= Seq::<(Seq<char>, ZoneAsset)>::empty());
        assert(r@ =~= Map::<Seq<char>, ZoneAsset>::empty());
        r
    }

    /// The index of the entry that holds `id`, searching from the last entry.
    fn find(&self, id: &str) -> (r: Option<usize>)
        ensures
            match r {
                Some(i) => i < self.pairs().len() && self.pairs()[i as int].0 == id@ && lookup(
                    self.pairs(),
                    id@,
                ) == Some(self.pairs()[i as int].1) && forall|j: int|
                    i < j < self.pairs().len() ==> #[trigger] self.pairs()[j].0 != id@,
                None => lookup(self.pairs(), id@).is_none(),
            },
    {
        let ghost ps = self.pairs();
        let mut i = self.entries.len();
        assert(ps.take(i as int) =~= ps);
        while i > 0
            invariant
                i <= self.entries@.len(),
                ps == self.pairs(),
                ps.len() == self.entries@.len(),
                lookup(ps, id@) == lookup(ps.take(i as int), id@),
                forall|j: int| i <= j < ps.len() ==> #[trigger] ps[j].0 != id@,
            decreases i,
        {
            i = i - 1;
            assert(ps.take(i + 1).drop_last() =~= ps.take(i as int));
            assert(ps[i as int] == (self.entries@[i as int].0@, self.entries@[i as int].1));
            if same_text(self.entries[i].0.as_str(), id) {
                return Some(i);
            }
        }
        assert(ps.take(0) =~= Seq::<(Seq<char>, ZoneAsset)>::empty());
        None
    }

    /// The zone with identifier `id`.
    pub fn get(&self, id: &str) -> (r: Option<&ZoneAsset>)
        ensures
            match r {
                Some(z) => self@.contains_key(id@) && self@[id@] == *z,
                None => !self@.contains_key(id@),
            },
    {
        match self.find(id) {
            Some(i) => Some(&self.entries[i].1),
            None => None,
        }
    }

    /// Whether a zone has identifier `id`.
    pub fn contains_key(&self, id: &str) -> (r: bool)
        ensures
            r == self@.contains_key(id@),
    {
        self.find(id).is_some()
    }

    /// Adds `zone` under `id`, in place of any zone that had that identifier.
    pub fn insert(&mut self, id: ZoneId, zone: ZoneAsset)
        ensures
            final(self)@ == old(self)@.insert(id@, zone),
    {
        proof {
            use_type_invariant(&*self);
        }
        let ghost ps = self.pairs();
        let ghost key = id@;
        let ghost val = zone;
        let found = self.find(id.as_str());
        let mut entries: Vec<(ZoneId, ZoneAsset)> = Vec::new();
        std::mem::swap(&mut entries, &mut self.entries);
        assert(entries@.map_values(|e: (ZoneId, ZoneAsset)| (e.0@, e.1)) == ps);
        match found {
            Some(i) => {
                entries.set(i, (id, zone));
                let ghost now = entries@.map_values(|e: (ZoneId, ZoneAsset)| (e.0@, e.1));
                assert(now =~= ps.update(i as int, (ps[i as int].0, val)));
                assert forall|k: Seq<char>| #[trigger]
                    lookup(now, k) == if k == key {
                        Some(val)
                    } else {
                        lookup(ps, k)
                    } by {
                    lemma_lookup_update(ps, i as int, val, k);
                }
                assert(pairs_map(now) =~= pairs_map(ps).insert(key, val));
            },
            None => {
                entries.push((id, zone));
                let ghost now = entries@.map_values(|e: (ZoneId, ZoneAsset)| (e.0@, e.1));
                assert(now =~= ps.push((key, val)));
                proof {
                    lemma_lookup_none(ps, key);
                }
                assert forall|k: Seq<char>| #[trigger]
                    lookup(now, k) == if k == key {
                        Some(val)
                    } else {
                        lookup(ps, k)
                    } by {
                    lemma_lookup_push(ps, key, val, k);
                }
                assert(pairs_map(now) =~= pairs_map(ps).insert(key, val));
            },
        }
        self.entries = entries;
    }
}

/// Where the player is: the identifier of the current zone.
#[derive(Clone, Debug, PartialEq, Eq)]
pub struct Location(pub ZoneId);

/// One item that the player holds.
#[derive(Clone, Debug, PartialEq, Eq)]
pub struct InventoryEntry {
    pub asset_path: ItemId,
}

} // verus!
