//! The table of configured peers: aliases mapped to addresses, kept in
//! ascending alias order.
use vstd::prelude::*;
use crate::text::{text_lt, text_less, text_equal, lemma_text_lt_irreflexive, lemma_text_lt_total,
    lemma_text_lt_transitive};
use crate::types::DeviceEntry;

verus! {

/// An alias and an address, as texts.
pub type EntryText = (Seq<char>, Seq<char>);

/// The texts of an entry.
pub open spec fn entry_text(e: DeviceEntry) -> EntryText {
    (e.alias@, e.address@)
}

/// The texts of a run of entries.
pub open spec fn entries_text(es: Seq<DeviceEntry>) -> Seq<EntryText> {
    es.map_values(|e: DeviceEntry| entry_text(e))
}

proof fn lemma_entries_text_push(s: Seq<DeviceEntry>, x: DeviceEntry)
    ensures
        entries_text(s.push(x)) =~= entries_text(s).push(entry_text(x)),
{
    assert(s.push(x).map_values(|e: DeviceEntry| entry_text(e)) =~= s.map_values(
        |e: DeviceEntry| entry_text(e),
    ).push(entry_text(x)));
}

/// The aliases of `l` are strictly ascending.
pub open spec fn ascending(l: Seq<EntryText>) -> bool {
    forall|i: int, j: int|
        #![trigger l[i], l[j]]
        0 <= i < j < l.len() ==> text_lt(l[i].0, l[j].0)
}

/// The map a listing stands for: each listed alias to its listed address.
pub open spec fn listed_map(l: Seq<EntryText>) -> Map<Seq<char>, Seq<char>> {
    Map::new(
        |k: Seq<char>| exists|i: int| 0 <= i < l.len() && l[i].0 == k,
        |k: Seq<char>| l[choose|i: int| 0 <= i < l.len() && l[i].0 == k].1,
    )
}

/// An ascending listing lists the map it stands for.
pub proof fn lemma_ascending_lists(l: Seq<EntryText>)
    requires
        ascending(l),
    ensures
        lists(l, listed_map(l)),
{
    let m = listed_map(l);
    assert forall|i: int| 0 <= i < l.len() implies m.contains_key(#[trigger] l[i].0) && m[l[i].0]
        == l[i].1 by {
        assert(m.contains_key(l[i].0));
        let j = choose|j: int| 0 <= j < l.len() && l[j].0 == l[i].0;
        if j != i {
            if j < i {
                assert(text_lt(l[j].0, l[i].0));
            } else {
                assert(text_lt(l[i].0, l[j].0));
            }
            lemma_text_lt_irreflexive(l[i].0);
        }
    }
}

/// A map is the one its listing stands for.
pub proof fn lemma_listed_map_of_listing(l: Seq<EntryText>, m: Map<Seq<char>, Seq<char>>)
    requires
        lists(l, m),
    ensures
        ascending(l),
        listed_map(l) == m,
{
    lemma_ascending_lists(l);
    let n = listed_map(l);
    assert forall|k: Seq<char>| #[trigger] n.contains_key(k) <==> m.contains_key(k) by {
        if n.contains_key(k) {
            let i = choose|i: int| 0 <= i < l.len() && l[i].0 == k;
            assert(m.contains_key(l[i].0));
        }
        if m.contains_key(k) {
            let i = choose|i: int| 0 <= i < l.len() && l[i].0 == k;
            assert(n.contains_key(l[i].0));
        }
    }
    assert forall|k: Seq<char>| #[trigger] n.contains_key(k) implies n[k] == m[k] by {
        let i = choose|i: int| 0 <= i < l.len() && l[i].0 == k;
        assert(n[l[i].0] == l[i].1);
    }
    assert(n =~= m);
}

/// `l` lists the map `m`: in strictly ascending alias order, every listed
/// pair is in `m`, and every key of `m` is listed.
pub open spec fn lists(l: Seq<EntryText>, m: Map<Seq<char>, Seq<char>>) -> bool {
    &&& forall|i: int, j: int|
        #![trigger l[i], l[j]]
        0 <= i < j < l.len() ==> text_lt(l[i].0, l[j].0)
    &&& forall|i: int|
        0 <= i < l.len() ==> m.contains_key(#[trigger] l[i].0) && m[l[i].0] == l[i].1
    &&& forall|k: Seq<char>| #[trigger]
        m.contains_key(k) ==> exists|i: int| 0 <= i < l.len() && l[i].0 == k
}

/// The aliases listed before position `i` precede `k`, and the one at `i`
/// (if any) does not.
pub open spec fn insertion_point(l: Seq<EntryText>, k: Seq<char>, i: int) -> bool {
    &&& 0 <= i <= l.len()
    &&& forall|j: int| 0 <= j < i ==> text_lt(#[trigger] l[j].0, k)
    &&& i < l.len() ==> !text_lt(l[i].0, k)
}

/// The listing after putting `(k, v)` at its insertion point `i`.
pub open spec fn listing_with(l: Seq<EntryText>, k: Seq<char>, v: Seq<char>, i: int) -> Seq<
    EntryText,
> {
    if i < l.len() && l[i].0 == k {
        l.update(i, (k, v))
    } else {
        l.insert(i, (k, v))
    }
}

/// Putting a pair at its insertion point lists the map with that key set.
pub proof fn lemma_listing_with(
    l: Seq<EntryText>,
    m: Map<Seq<char>, Seq<char>>,
    k: Seq<char>,
    v: Seq<char>,
    i: int,
)
    requires
        lists(l, m),
        insertion_point(l, k, i),
    ensures
        lists(listing_with(l, k, v, i), m.insert(k, v)),
{
    let m2 = m.insert(k, v);
    if i < l.len() && l[i].0 == k {
        let l2 = l.update(i, (k, v));
        assert forall|a: int| 0 <= a < l2.len() implies m2.contains_key(#[trigger] l2[a].0)
            && m2[l2[a].0] == l2[a].1 by {
            if a != i {
                if a < i {
                    assert(text_lt(l[a].0, l[i].0));
                } else {
                    assert(text_lt(l[i].0, l[a].0));
                }
                lemma_text_lt_irreflexive(l[a].0);
            }
        }
        assert forall|key: Seq<char>| #[trigger] m2.contains_key(key) implies exists|a: int|
            0 <= a < l2.len() && l2[a].0 == key by {
            if key == k {
                assert(l2[i].0 == key);
            } else {
                let a = choose|a: int| 0 <= a < l.len() && l[a].0 == key;
                assert(l2[a].0 == key);
            }
        }
        assert forall|a: int, b: int|
            #![trigger l2[a], l2[b]]
            0 <= a < b < l2.len() implies text_lt(l2[a].0, l2[b].0) by {
            assert(l2[a].0 == l[a].0 && l2[b].0 == l[b].0);
        }
    } else {
        let l2 = l.insert(i, (k, v));
        // everything from position i on follows k
        assert forall|a: int| i <= a < l.len() implies text_lt(k, #[trigger] l[a].0) by {
            lemma_text_lt_total(l[i].0, k);
            if a > i {
                assert(text_lt(l[i].0, l[a].0));
                lemma_text_lt_transitive(k, l[i].0, l[a].0);
            }
        }
        assert forall|a: int| 0 <= a < l2.len() implies m2.contains_key(#[trigger] l2[a].0)
            && m2[l2[a].0] == l2[a].1 by {
            if a < i {
                lemma_text_lt_irreflexive(k);
                assert(text_lt(l[a].0, k));
            } else if a > i {
                assert(l2[a] == l[a - 1]);
                assert(text_lt(k, l[a - 1].0));
                lemma_text_lt_irreflexive(k);
            }
        }
        assert forall|key: Seq<char>| #[trigger] m2.contains_key(key) implies exists|a: int|
            0 <= a < l2.len() && l2[a].0 == key by {
            if key == k {
                assert(l2[i].0 == key);
            } else {
                let a = choose|a: int| 0 <= a < l.len() && l[a].0 == key;
                if a < i {
                    assert(l2[a].0 == key);
                } else {
                    assert(l2[a + 1].0 == key);
                }
            }
        }
        assert forall|a: int, b: int|
            #![trigger l2[a], l2[b]]
            0 <= a < b < l2.len() implies text_lt(l2[a].0, l2[b].0) by {
            if b < i {
                assert(text_lt(l[a].0, l[b].0));
            } else if b == i {
                assert(text_lt(l[a].0, k));
            } else if a < i {
                assert(text_lt(l[a].0, k));
                assert(text_lt(k, l[b - 1].0));
                lemma_text_lt_transitive(l[a].0, k, l[b - 1].0);
            } else if a == i {
                assert(text_lt(k, l[b - 1].0));
            } else {
                assert(text_lt(l[a - 1].0, l[b - 1].0));
            }
        }
    }
}

/// Peers by alias. Its view is the map from alias to address; `entries`
/// lists it in ascending alias order.
#[derive(Debug)]
pub struct DeviceTable {
    entries: Vec<DeviceEntry>,
}

impl View for DeviceTable {
    type V = Map<Seq<char>, Seq<char>>;

    closed spec fn view(&self) -> Map<Seq<char>, Seq<char>> {
        listed_map(entries_text(self.entries@))
    }
}

impl DeviceTable {
    #[verifier::type_invariant]
    spec fn well_formed(self) -> bool {
        ascending(entries_text(self.entries@))
    }

    /// The empty table.
    pub fn new() -> (r: DeviceTable)
        ensures
            r@ == Map::<Seq<char>, Seq<char>>::empty(),
    {
        let r = DeviceTable { entries: Vec::new() };
        assert(r@ =~= Map::<Seq<char>, Seq<char>>::empty());
        r
    }

    /// Whether the table has no entry.
    pub fn is_empty(&self) -> (r: bool)
        ensures
            r == (self@ == Map::<Seq<char>, Seq<char>>::empty()),
    {
        proof {
            use_type_invariant(self);
            lemma_ascending_lists(entries_text(self.entries@));
        }
        let ghost l = entries_text(self.entries@);
        if self.entries.len() == 0 {
            assert(self@ =~= Map::<Seq<char>, Seq<char>>::empty());
            true
        } else {
            assert(self@.contains_key(l[0].0));
            false
        }
    }

    /// The address of `alias`, if the table has it.
    pub fn get(&self, alias: &str) -> (r: Option<String>)
        ensures
            match r {
                Some(a) => self@.contains_key(alias@) && self@[alias@] == a@,
                None => !self@.contains_key(alias@),
            },
    {
        proof {
            use_type_invariant(self);
            lemma_ascending_lists(entries_text(self.entries@));
        }
        let ghost l = entries_text(self.entries@);
        let n = self.entries.len();
        let mut i: usize = 0;
        while i < n
            invariant
                n == self.entries.len(),
                l == entries_text(self.entries@),
                lists(l, self@),
                i <= n,
                forall|j: int| 0 <= j < i ==> #[trigger] l[j].0 != alias@,
            decreases n - i,
        {
            assert(l[i as int] == entry_text(self.entries@[i as int]));
            if text_equal(self.entries[i].alias.as_str(), alias) {
                assert(self@.contains_key(l[i as int].0));
                return Some(self.entries[i].address.clone());
            }
            i += 1;
        }
        None
    }

    /// The entries in ascending alias order.
    pub fn entries(&self) -> (r: Vec<DeviceEntry>)
        ensures
            lists(entries_text(r@), self@),
            self@.dom().finite(),
            r@.len() == self@.dom().len(),
    {
        proof {
            use_type_invariant(self);
            lemma_ascending_lists(entries_text(self.entries@));
        }
        let n = self.entries.len();
        let mut out: Vec<DeviceEntry> = Vec::new();
        let mut i: usize = 0;
        while i < n
            invariant
                n == self.entries.len(),
                i <= n,
                entries_text(out@) =~= entries_text(self.entries@).take(i as int),
            decreases n - i,
        {
            let e = self.entries[i].duplicate();
            proof {
                lemma_entries_text_push(out@, e);
                assert(entries_text(self.entries@)[i as int] == entry_text(self.entries@[i as int]));
            }
            out.push(e);
            i += 1;
        }
        assert(entries_text(self.entries@).take(n as int) =~= entries_text(self.entries@));
        proof {
            lemma_listing_size(entries_text(out@), self@);
        }
        out
    }

    /// A copy of the table.
    pub fn duplicate(&self) -> (r: DeviceTable)
        ensures
            r@ == self@,
    {
        proof {
            use_type_invariant(self);
        }
        let entries = self.entries();
        proof {
            lemma_listed_map_of_listing(entries_text(entries@), self@);
        }
        DeviceTable { entries }
    }

    /// Sets the address of `alias`, replacing any address it had.
    pub fn insert(&mut self, alias: String, address: String)
        ensures
            final(self)@ == old(self)@.insert(alias@, address@),
    {
        let t = self.inserted(alias, address);
        *self = t;
    }

    fn inserted(&self, alias: String, address: String) -> (r: DeviceTable)
        ensures
            r@ == self@.insert(alias@, address@),
    {
        proof {
            use_type_invariant(self);
            lemma_ascending_lists(entries_text(self.entries@));
        }
        let ghost l = entries_text(self.entries@);
        let ghost k = alias@;
        let ghost v = address@;
        let n = self.entries.len();
        let mut i: usize = 0;
        while i < n
            invariant
                n == self.entries.len(),
                l == entries_text(self.entries@),
                k == alias@,
                i <= n,
                forall|j: int| 0 <= j < i ==> text_lt(#[trigger] l[j].0, k),
            ensures
                i <= n,
                forall|j: int| 0 <= j < i ==> text_lt(#[trigger] l[j].0, k),
                i < n ==> !text_lt(l[i as int].0, k),
            decreases n - i,
        {
            assert(l[i as int] == entry_text(self.entries@[i as int]));
            if !text_less(self.entries[i].alias.as_str(), alias.as_str()) {
                break;
            }
            i += 1;
        }
        assert(i < n ==> l[i as int] == entry_text(self.entries@[i as int]));
        let replace = i < n && text_equal(self.entries[i].alias.as_str(), alias.as_str());
        proof {
            lemma_listing_with(l, self@, k, v, i as int);
        }
        let ghost target = listing_with(l, k, v, i as int);
        let mut out: Vec<DeviceEntry> = Vec::new();
        let mut j: usize = 0;
        while j < i
            invariant
                n == self.entries.len(),
                l == entries_text(self.entries@),
                j <= i <= n,
                entries_text(out@) =~= l.take(j as int),
            decreases i - j,
        {
            let e = self.entries[j].duplicate();
            proof {
                lemma_entries_text_push(out@, e);
                assert(l[j as int] == entry_text(self.entries@[j as int]));
            }
            out.push(e);
            j += 1;
        }
        let fresh = DeviceEntry { alias, address };
        proof {
            lemma_entries_text_push(out@, fresh);
        }
        out.push(fresh);
        let skip: usize = if replace { 1 } else { 0 };
        let mut j: usize = i + skip;
        while j < n
            invariant
                n == self.entries.len(),
                l == entries_text(self.entries@),
                i + skip <= j <= n,
                skip == (if replace { 1usize } else { 0usize }),
                replace == (i < n && l[i as int].0 == k),
                entries_text(out@) =~= l.take(i as int).push((k, v)) + l.subrange(
                    i + skip,
                    j as int,
                ),
            decreases n - j,
        {
            let e = self.entries[j].duplicate();
            proof {
                lemma_entries_text_push(out@, e);
                assert(l[j as int] == entry_text(self.entries@[j as int]));
            }
            out.push(e);
            j += 1;
        }
        proof {
            assert(entries_text(out@) =~= target);
        }
        proof {
            lemma_listed_map_of_listing(target, self@.insert(k, v));
        }
        DeviceTable { entries: out }
    }
}

} // verus!

verus! {

/// Reading a table after setting an alias gives the address just set, and
/// leaves every other alias as it was.
pub proof fn lemma_table_read_after_write(
    before: Map<Seq<char>, Seq<char>>,
    alias: Seq<char>,
    address: Seq<char>,
    other: Seq<char>,
)
    requires
        other != alias,
    ensures
        before.insert(alias, address).contains_key(alias),
        before.insert(alias, address)[alias] == address,
        before.insert(alias, address).contains_key(other) == before.contains_key(other),
        before.contains_key(other) ==> before.insert(alias, address)[other] == before[other],
{
}

/// A table has exactly one listing: two listings of the same map are the
/// same sequence, so the peers always come out in the same order.
pub proof fn lemma_listing_unique(l1: Seq<EntryText>, l2: Seq<EntryText>, m: Map<Seq<char>, Seq<char>>)
    requires
        lists(l1, m),
        lists(l2, m),
    ensures
        l1 == l2,
    decreases l1.len(),
{
    if l1.len() == 0 {
        if l2.len() > 0 {
            assert(m.contains_key(l2[0].0));
        }
        assert(l1 =~= l2);
    } else {
        assert(m.contains_key(l1[0].0));
        if l2.len() == 0 {
            assert(false);
        }
        // both listings start with the least key
        let a = l1[0].0;
        let b = l2[0].0;
        if a != b {
            let i = choose|i: int| 0 <= i < l2.len() && l2[i].0 == a;
            let j = choose|j: int| 0 <= j < l1.len() && l1[j].0 == b;
            assert(i > 0);
            assert(j > 0);
            assert(text_lt(b, a));
            assert(text_lt(a, b));
            lemma_text_lt_total(a, b);
        }
        let k = a;
        let m2 = m.remove(k);
        let t1 = l1.drop_first();
        let t2 = l2.drop_first();
        assert forall|i: int| 0 <= i < t1.len() implies m2.contains_key(#[trigger] t1[i].0)
            && m2[t1[i].0] == t1[i].1 by {
            assert(text_lt(l1[0].0, l1[i + 1].0));
            lemma_text_lt_irreflexive(k);
        }
        assert forall|key: Seq<char>| #[trigger] m2.contains_key(key) implies exists|i: int|
            0 <= i < t1.len() && t1[i].0 == key by {
            let i = choose|i: int| 0 <= i < l1.len() && l1[i].0 == key;
            assert(t1[i - 1].0 == key);
        }
        assert forall|i: int, j: int|
            #![trigger t1[i], t1[j]]
            0 <= i < j < t1.len() implies text_lt(t1[i].0, t1[j].0) by {
            assert(text_lt(l1[i + 1].0, l1[j + 1].0));
        }
        assert forall|i: int| 0 <= i < t2.len() implies m2.contains_key(#[trigger] t2[i].0)
            && m2[t2[i].0] == t2[i].1 by {
            assert(text_lt(l2[0].0, l2[i + 1].0));
            lemma_text_lt_irreflexive(k);
        }
        assert forall|key: Seq<char>| #[trigger] m2.contains_key(key) implies exists|i: int|
            0 <= i < t2.len() && t2[i].0 == key by {
            let i = choose|i: int| 0 <= i < l2.len() && l2[i].0 == key;
            assert(t2[i - 1].0 == key);
        }
        assert forall|i: int, j: int|
            #![trigger t2[i], t2[j]]
            0 <= i < j < t2.len() implies text_lt(t2[i].0, t2[j].0) by {
            assert(text_lt(l2[i + 1].0, l2[j + 1].0));
        }
        lemma_listing_unique(t1, t2, m2);
        assert(l1[0] == l2[0]);
        assert(l1 =~= seq![l1[0]] + t1);
        assert(l2 =~= seq![l2[0]] + t2);
    }
}

} // verus!

verus! {

/// A listed map is finite and has as many keys as its listing has pairs.
pub proof fn lemma_listing_size(l: Seq<EntryText>, m: Map<Seq<char>, Seq<char>>)
    requires
        lists(l, m),
    ensures
        m.dom().finite(),
        m.dom().len() == l.len(),
{
    let keys = l.map_values(|e: EntryText| e.0);
    assert forall|i: int, j: int| 0 <= i < keys.len() && 0 <= j < keys.len() && i != j implies keys[i]
        != keys[j] by {
        if i < j {
            assert(text_lt(l[i].0, l[j].0));
        } else {
            assert(text_lt(l[j].0, l[i].0));
        }
        lemma_text_lt_irreflexive(l[i].0);
    }
    assert(keys.no_duplicates());
    keys.unique_seq_to_set();
    assert forall|k: Seq<char>| m.dom().contains(k) <==> #[trigger] keys.to_set().contains(k) by {
        if m.dom().contains(k) {
            let i = choose|i: int| 0 <= i < l.len() && l[i].0 == k;
            assert(keys[i] == k);
        }
        if keys.to_set().contains(k) {
            let i = choose|i: int| 0 <= i < keys.len() && keys[i] == k;
            assert(m.contains_key(l[i].0));
        }
    }
    assert(m.dom() =~= keys.to_set());
    keys.lemma_cardinality_of_set();
}

impl DeviceTable {
    /// The number of peers.
    pub fn len(&self) -> (r: usize)
        ensures
            self@.dom().finite(),
            r == self@.dom().len(),
    {
        proof {
            use_type_invariant(self);
            lemma_ascending_lists(entries_text(self.entries@));
            lemma_listing_size(entries_text(self.entries@), self@);
        }
        self.entries.len()
    }
}

} // verus!
