//! The subscriptions of clients to the aircraft they want to follow.
//!
//! Each subscription is stored in a sparse list, and indexed by the ICAO
//! addresses, callsigns and squawks that its filter names: under each of
//! those, an index list holds the slots of the subscriptions that asked for
//! it, and the subscription remembers where it was entered, so that it can be
//! taken out again.

use std::collections::HashMap;
use std::hash::Hash;

use vstd::prelude::*;
use vstd::std_specs::hash::obeys_key_model;

use crate::{
    sparse_list::{
        spec_insert,
        spec_insert_reserved,
        spec_reserve,
        spec_wf,
        SparseList,
    },
    tracker::state::{
        icao_key,
        spec_icao_key,
    },
    types::{
        IcaoAddress,
        Squawk,
    },
};

verus! {

/// The number a client connection is known by.
pub type ClientId = usize;

/// The aircraft that a subscription asks for.
#[derive(Clone, Debug)]
pub struct AircraftQuery {
    pub icao: Vec<IcaoAddress>,
    pub callsign: Vec<String>,
    pub squawk: Vec<Squawk>,
}

/// An [`AircraftQuery`] with its callsigns as characters.
pub struct AircraftQueryView {
    pub icao: Seq<IcaoAddress>,
    pub callsign: Seq<Seq<char>>,
    pub squawk: Seq<Squawk>,
}

impl View for AircraftQuery {
    type V = AircraftQueryView;

    open spec fn view(&self) -> AircraftQueryView {
        AircraftQueryView {
            icao: self.icao@,
            callsign: self.callsign@.map_values(|s: String| s@),
            squawk: self.squawk@,
        }
    }
}

/// What a client subscribes to: aircraft, and areas, given as bounding boxes
/// of the type `B`.
#[derive(Clone, Debug)]
pub struct SubscriptionFilter<B> {
    pub aircraft: AircraftQuery,
    pub area: Vec<B>,
}

/// An error of the tracker.
#[derive(Debug)]
pub enum Error {
    ReactorDead,
    InvalidSubscriptionId { client_id: ClientId, id: u128 },
}

/// The text of a subscription id: the id as a UUID, in the form that
/// `uuid::Uuid` displays.
pub uninterp spec fn spec_uuid_text(id: u128) -> Seq<char>;

/// `uuid::Uuid::from_u128` and `Display`: the id as a UUID text.
///
/// Trusted: the text is what `uuid` displays for that id (named
/// `spec_uuid_text`), the same for the same id. The form itself (hyphenated
/// lower-case hex) is not stated.
#[verifier::external_body]
fn uuid_text(id: u128) -> (r: String)
    ensures
        r@ == spec_uuid_text(id),
{
    uuid::Uuid::from_u128(id).to_string()
}

impl Error {
    /// The text of the error, as the client is told it.
    pub open spec fn spec_message(&self) -> Seq<char> {
        match self {
            Error::ReactorDead => "reactor dead"@,
            Error::InvalidSubscriptionId { id, .. } => "invalid subscription: "@ + spec_uuid_text(
                *id,
            ),
        }
    }

    /// The text of the error: `reactor dead`, or `invalid subscription: `
    /// and the subscription id as a UUID.
    pub fn message(&self) -> (r: String)
        ensures
            r@ == self.spec_message(),
    {
        match self {
            Error::ReactorDead => "reactor dead".to_owned(),
            Error::InvalidSubscriptionId { id, .. } => {
                let mut chars: Vec<char> = Vec::new();
                crate::text::push_str(&mut chars, "invalid subscription: ");
                let id_text = uuid_text(*id);
                crate::text::push_str(&mut chars, id_text.as_str());
                crate::text::string_from_chars(&chars)
            },
        }
    }
}

/// A subscription: whose it is, where its messages go, and where it was
/// entered into the indices (the key and the slot in that key's index list).
#[derive(Debug)]
struct Subscription<S> {
    client_id: ClientId,
    id: u128,
    message_sender: S,
    by_icao_address: Vec<(IcaoAddress, usize)>,
    by_callsign: Vec<(String, usize)>,
    by_squawk: Vec<(Squawk, usize)>,
}

/// A subscription as plain values.
pub struct SubscriptionView<S> {
    pub client_id: ClientId,
    pub id: u128,
    pub message_sender: S,
    pub by_icao_address: Seq<(IcaoAddress, usize)>,
    pub by_callsign: Seq<(Seq<char>, usize)>,
    pub by_squawk: Seq<(Squawk, usize)>,
}

impl<S> View for Subscription<S> {
    type V = SubscriptionView<S>;

    closed spec fn view(&self) -> SubscriptionView<S> {
        SubscriptionView {
            client_id: self.client_id,
            id: self.id,
            message_sender: self.message_sender,
            by_icao_address: self.by_icao_address@,
            by_callsign: self.by_callsign@.map_values(|e: (String, usize)| (e.0@, e.1)),
            by_squawk: self.by_squawk@,
        }
    }
}

/// An index list (a sparse list of subscription slots) as plain values: its
/// slots and its free list.
pub struct IndexList {
    pub items: Seq<Option<usize>>,
    pub free: Seq<usize>,
}

pub open spec fn spec_list_of(l: SparseList<usize>) -> IndexList {
    IndexList { items: l@, free: l.free_slots() }
}

pub open spec fn spec_empty_list() -> IndexList {
    IndexList { items: Seq::empty(), free: Seq::empty() }
}

/// Entering `value` into the index list under `key`; a key that is not in
/// the index starts with an empty list. The result also has the slot of the
/// entry in that list.
pub open spec fn spec_map_add<K>(m: Map<K, IndexList>, key: K, value: usize) -> (Map<K, IndexList>, usize) {
    let l = if m.contains_key(key) {
        m[key]
    } else {
        spec_empty_list()
    };
    let (items, free, i) = spec_insert(l.items, l.free, value);
    (m.insert(key, IndexList { items, free }), i)
}

/// Entering `value` under each of `keys`, in order; the result also has the
/// slots of the entries.
pub open spec fn spec_map_add_all<K>(m: Map<K, IndexList>, keys: Seq<K>, value: usize) -> (
    Map<K, IndexList>,
    Seq<usize>,
)
    decreases keys.len(),
{
    if keys.len() == 0 {
        (m, Seq::empty())
    } else {
        let (m1, slots) = spec_map_add_all(m, keys.drop_last(), value);
        let (m2, i) = spec_map_add(m1, keys.last(), value);
        (m2, slots.push(i))
    }
}

proof fn lemma_map_add_all_slots<K>(m: Map<K, IndexList>, keys: Seq<K>, value: usize)
    ensures
        spec_map_add_all(m, keys, value).1.len() == keys.len(),
    decreases keys.len(),
{
    if keys.len() > 0 {
        lemma_map_add_all_slots(m, keys.drop_last(), value);
    }
}

/// The first entry of a list of keyed entries with a key, if there is one.
pub open spec fn spec_find<V>(entries: Seq<(Seq<char>, V)>, key: Seq<char>) -> Option<int> {
    if exists|j: int| spec_first_with_key(entries, key, j) {
        Some(choose|j: int| spec_first_with_key(entries, key, j))
    } else {
        None
    }
}

/// Entry `j` is the first with a key.
pub open spec fn spec_first_with_key<V>(entries: Seq<(Seq<char>, V)>, key: Seq<char>, j: int) -> bool {
    &&& 0 <= j < entries.len()
    &&& entries[j].0 == key
    &&& forall|u: int| 0 <= u < j ==> #[trigger] entries[u].0 != key
}

/// Entering `value` into the index list of the first entry with `key`, or
/// into a new entry at the end when no entry has that key.
pub open spec fn spec_entries_add(entries: Seq<(Seq<char>, IndexList)>, key: Seq<char>, value: usize) -> (
    Seq<(Seq<char>, IndexList)>,
    usize,
) {
    match spec_find(entries, key) {
        Some(j) => {
            let (items, free, i) = spec_insert(entries[j].1.items, entries[j].1.free, value);
            (entries.update(j, (key, IndexList { items, free })), i)
        },
        None => {
            let (items, free, i) = spec_insert(Seq::<Option<usize>>::empty(), Seq::empty(), value);
            (entries.push((key, IndexList { items, free })), i)
        },
    }
}

/// Entering `value` under each of `keys`, in order, into keyed entries.
pub open spec fn spec_entries_add_all(
    entries: Seq<(Seq<char>, IndexList)>,
    keys: Seq<Seq<char>>,
    value: usize,
) -> (Seq<(Seq<char>, IndexList)>, Seq<usize>)
    decreases keys.len(),
{
    if keys.len() == 0 {
        (entries, Seq::empty())
    } else {
        let (e1, slots) = spec_entries_add_all(entries, keys.drop_last(), value);
        let (e2, i) = spec_entries_add(e1, keys.last(), value);
        (e2, slots.push(i))
    }
}

/// The subscriptions as plain values: the subscription slots and free
/// slots, the slots by client and subscription id, and the three indices.
/// The index of callsigns is a list of entries in the order the callsigns
/// were first entered.
pub struct SubscriptionsModel<S> {
    pub subscriptions: Seq<Option<SubscriptionView<S>>>,
    pub free_slots: Seq<usize>,
    pub by_subscriber_id: Seq<(ClientId, u128, usize)>,
    pub by_icao_address: Map<u64, IndexList>,
    pub by_callsign: Seq<(Seq<char>, IndexList)>,
    pub by_squawk: Map<u16, IndexList>,
}

pub open spec fn spec_lists_wf<K>(m: Map<K, IndexList>) -> bool {
    forall|k: K| #[trigger] m.contains_key(k) ==> spec_wf(m[k].items, m[k].free)
}

pub open spec fn spec_entries_wf(entries: Seq<(Seq<char>, IndexList)>) -> bool {
    forall|j: int| 0 <= j < entries.len() ==> spec_wf(#[trigger] entries[j].1.items, entries[j].1.free)
}

/// The index lists are consistent. No subscription is ever registered by
/// its client and id (subscribing does not do it), so that list is empty.
pub open spec fn spec_subscriptions_wf<S>(m: SubscriptionsModel<S>) -> bool {
    &&& spec_wf(m.subscriptions, m.free_slots)
    &&& m.by_subscriber_id.len() == 0
    &&& spec_lists_wf(m.by_icao_address)
    &&& spec_entries_wf(m.by_callsign)
    &&& spec_lists_wf(m.by_squawk)
}

/// There is room for a subscription that enters `n` keys: the list of
/// subscriptions and every index list can still grow by that much.
pub open spec fn spec_room<S>(m: SubscriptionsModel<S>, n: int) -> bool {
    &&& n < usize::MAX
    &&& m.subscriptions.len() < usize::MAX
    &&& forall|k: u64| #[trigger]
        m.by_icao_address.contains_key(k) ==> m.by_icao_address[k].items.len() + n < usize::MAX
    &&& forall|j: int|
        0 <= j < m.by_callsign.len() ==> #[trigger] m.by_callsign[j].1.items.len() + n < usize::MAX
    &&& forall|k: u16| #[trigger]
        m.by_squawk.contains_key(k) ==> m.by_squawk[k].items.len() + n < usize::MAX
}

/// The number of keys that a query enters into the indices.
pub open spec fn spec_query_size(query: AircraftQueryView) -> int {
    (query.icao.len() + query.callsign.len() + query.squawk.len()) as int
}

/// Subscribing: the subscription takes the slot that the list of
/// subscriptions reserves, and that slot is entered under every ICAO
/// address, callsign and squawk of the query, in order; the subscription
/// remembers each key with the slot of its entry.
pub open spec fn spec_subscribe<S>(
    m: SubscriptionsModel<S>,
    client_id: ClientId,
    id: u128,
    query: AircraftQueryView,
    message_sender: S,
) -> SubscriptionsModel<S> {
    let (free, index) = spec_reserve(m.subscriptions, m.free_slots);
    let (by_icao_address, icao_slots) = spec_map_add_all(
        m.by_icao_address,
        query.icao.map_values(|a: IcaoAddress| spec_icao_key(a)),
        index,
    );
    let (by_callsign, callsign_slots) = spec_entries_add_all(m.by_callsign, query.callsign, index);
    let (by_squawk, squawk_slots) = spec_map_add_all(
        m.by_squawk,
        query.squawk.map_values(|s: Squawk| s.code),
        index,
    );
    let subscription = SubscriptionView {
        client_id,
        id,
        message_sender,
        by_icao_address: Seq::new(query.icao.len(), |j: int| (query.icao[j], icao_slots[j])),
        by_callsign: Seq::new(query.callsign.len(), |j: int| (query.callsign[j], callsign_slots[j])),
        by_squawk: Seq::new(query.squawk.len(), |j: int| (query.squawk[j], squawk_slots[j])),
    };
    SubscriptionsModel {
        subscriptions: spec_insert_reserved(m.subscriptions, index, subscription),
        free_slots: free,
        by_subscriber_id: m.by_subscriber_id,
        by_icao_address,
        by_callsign,
        by_squawk,
    }
}

/// Enters `value` into the index list under `key`, and returns the slot of
/// the entry.
fn add_to_index<K: Hash + Eq + Copy>(index: &mut HashMap<K, SparseList<usize>>, key: K, value: usize) -> (i: usize)
    requires
        obeys_key_model::<K>(),
        spec_lists_wf(old(index)@.map_values(|l: SparseList<usize>| spec_list_of(l))),
        old(index)@.contains_key(key) ==> old(index)@[key]@.len() < usize::MAX,
    ensures
        (final(index)@.map_values(|l: SparseList<usize>| spec_list_of(l)), i) == spec_map_add(
            old(index)@.map_values(|l: SparseList<usize>| spec_list_of(l)),
            key,
            value,
        ),
        spec_lists_wf(final(index)@.map_values(|l: SparseList<usize>| spec_list_of(l))),
{
    broadcast use vstd::std_specs::hash::group_hash_axioms;

    let ghost before = old(index)@;
    let mut list = match index.remove(&key) {
        Some(l) => l,
        None => SparseList::new(),
    };
    proof {
        if before.contains_key(key) {
            let mapped = before.map_values(|l: SparseList<usize>| spec_list_of(l));
            assert(mapped.contains_key(key));
            assert(spec_list_of(before[key]) == mapped[key]);
            assert(list == before[key]);
        }
    }
    let i = list.insert(value);
    index.insert(key, list);
    proof {

        let f = |l: SparseList<usize>| spec_list_of(l);
        assert(index@.map_values(f) =~= before.map_values(f).insert(key, spec_list_of(list)));
    }
    i
}

/// The first entry with a callsign, if any.
fn find_callsign(entries: &Vec<(String, SparseList<usize>)>, callsign: &String) -> (r: Option<usize>)
    ensures
        match r {
            Some(j) => spec_find(
                entries@.map_values(|e: (String, SparseList<usize>)| (e.0@, spec_list_of(e.1))),
                callsign@,
            ) == Some(j as int),
            None => spec_find(
                entries@.map_values(|e: (String, SparseList<usize>)| (e.0@, spec_list_of(e.1))),
                callsign@,
            ) is None,
        },
{
    let ghost view = entries@.map_values(
        |e: (String, SparseList<usize>)| (e.0@, spec_list_of(e.1)),
    );
    let mut t: usize = 0;
    while t < entries.len()
        invariant
            t <= entries@.len(),
            view == entries@.map_values(|e: (String, SparseList<usize>)| (e.0@, spec_list_of(e.1))),
            forall|u: int| 0 <= u < t ==> #[trigger] view[u].0 != callsign@,
        decreases entries@.len() - t,
    {
        if entries[t].0 == *callsign {
            assert(view[t as int].0 == callsign@);
            assert(spec_first_with_key(view, callsign@, t as int));
            proof {
                let c = choose|j: int| spec_first_with_key(view, callsign@, j);
                if c < t {
                    assert(view[c].0 != callsign@);
                } else if c > t {
                    assert(view[t as int].0 != callsign@);
                }
            }
            return Some(t);
        }
        t += 1;
    }
    assert forall|j: int| 0 <= j < view.len() implies #[trigger] view[j].0 != callsign@ by {}
    assert(!exists|j: int| spec_first_with_key(view, callsign@, j));
    None
}

/// Enters `value` under the key of each address, in order, and returns each
/// address with the slot of its entry.
fn index_icao_addresses(
    index: &mut HashMap<u64, SparseList<usize>>,
    addresses: &Vec<IcaoAddress>,
    value: usize,
) -> (entered: Vec<(IcaoAddress, usize)>)
    requires
        spec_lists_wf(old(index)@.map_values(|l: SparseList<usize>| spec_list_of(l))),
        forall|k: u64| #[trigger]
            old(index)@.contains_key(k) ==> old(index)@[k]@.len() + addresses@.len() < usize::MAX,
    ensures
        ({
            let (m, slots) = spec_map_add_all(
                old(index)@.map_values(|l: SparseList<usize>| spec_list_of(l)),
                addresses@.map_values(|a: IcaoAddress| spec_icao_key(a)),
                value,
            );
            &&& final(index)@.map_values(|l: SparseList<usize>| spec_list_of(l)) == m
            &&& entered@ == Seq::new(addresses@.len(), |j: int| (addresses@[j], slots[j]))
        }),
        spec_lists_wf(final(index)@.map_values(|l: SparseList<usize>| spec_list_of(l))),
{
    broadcast use vstd::std_specs::hash::group_hash_axioms;

    let ghost f = |l: SparseList<usize>| spec_list_of(l);
    let ghost m0 = old(index)@.map_values(f);
    let ghost keys = addresses@.map_values(|a: IcaoAddress| spec_icao_key(a));
    proof {
        assert forall|k: u64| #[trigger] m0.contains_key(k) implies m0[k].items.len() + addresses@.len()
            < usize::MAX by {
            assert(old(index)@.contains_key(k));
        }
    }
    let mut entered: Vec<(IcaoAddress, usize)> = Vec::new();
    let mut j: usize = 0;
    while j < addresses.len()
        invariant
            j <= addresses@.len(),
            f == (|l: SparseList<usize>| spec_list_of(l)),
            keys == addresses@.map_values(|a: IcaoAddress| spec_icao_key(a)),
            index@.map_values(f) == spec_map_add_all(m0, keys.take(j as int), value).0,
            entered@ == Seq::new(
                j as nat,
                |t: int| (addresses@[t], spec_map_add_all(m0, keys.take(j as int), value).1[t]),
            ),
            spec_lists_wf(index@.map_values(f)),
            forall|k: u64| #[trigger]
                index@.map_values(f).contains_key(k) ==> index@.map_values(f)[k].items.len() <= (
                if m0.contains_key(k) {
                    m0[k].items.len() as int
                } else {
                    0
                }) + j,
            forall|k: u64| #[trigger] m0.contains_key(k) ==> m0[k].items.len() + addresses@.len() < usize::MAX,
        decreases addresses@.len() - j,
    {
        let address = addresses[j];
        let key = icao_key(address);
        let ghost before = index@.map_values(f);
        let ghost fold = spec_map_add_all(m0, keys.take(j as int), value);
        proof {
            lemma_map_add_all_slots(m0, keys.take(j as int), value);
            if index@.contains_key(key) {
                assert(before.contains_key(key));
                assert(before[key] == spec_list_of(index@[key]));
            }
        }
        let i = add_to_index(index, key, value);
        entered.push((address, i));
        proof {
            assert(keys.take(j as int + 1).drop_last() =~= keys.take(j as int));
            assert(keys.take(j as int + 1).last() == key);
            let fold2 = spec_map_add_all(m0, keys.take(j as int + 1), value);
            assert(fold2.1 == fold.1.push(i));
            assert(entered@ =~= Seq::new(
                (j + 1) as nat,
                |t: int| (addresses@[t], fold2.1[t]),
            ));
        }
        j += 1;
    }
    proof {
        assert(keys.take(addresses@.len() as int) =~= keys);
    }
    entered
}

/// Enters `value` under the code of each squawk, in order, and returns each
/// squawk with the slot of its entry.
fn index_squawks(
    index: &mut HashMap<u16, SparseList<usize>>,
    squawks: &Vec<Squawk>,
    value: usize,
) -> (entered: Vec<(Squawk, usize)>)
    requires
        spec_lists_wf(old(index)@.map_values(|l: SparseList<usize>| spec_list_of(l))),
        forall|k: u16| #[trigger]
            old(index)@.contains_key(k) ==> old(index)@[k]@.len() + squawks@.len() < usize::MAX,
    ensures
        ({
            let (m, slots) = spec_map_add_all(
                old(index)@.map_values(|l: SparseList<usize>| spec_list_of(l)),
                squawks@.map_values(|s: Squawk| s.code),
                value,
            );
            &&& final(index)@.map_values(|l: SparseList<usize>| spec_list_of(l)) == m
            &&& entered@ == Seq::new(squawks@.len(), |j: int| (squawks@[j], slots[j]))
        }),
        spec_lists_wf(final(index)@.map_values(|l: SparseList<usize>| spec_list_of(l))),
{
    broadcast use vstd::std_specs::hash::group_hash_axioms;

    let ghost f = |l: SparseList<usize>| spec_list_of(l);
    let ghost m0 = old(index)@.map_values(f);
    let ghost keys = squawks@.map_values(|s: Squawk| s.code);
    proof {
        assert forall|k: u16| #[trigger] m0.contains_key(k) implies m0[k].items.len() + squawks@.len()
            < usize::MAX by {
            assert(old(index)@.contains_key(k));
        }
    }
    let mut entered: Vec<(Squawk, usize)> = Vec::new();
    let mut j: usize = 0;
    while j < squawks.len()
        invariant
            j <= squawks@.len(),
            f == (|l: SparseList<usize>| spec_list_of(l)),
            keys == squawks@.map_values(|s: Squawk| s.code),
            index@.map_values(f) == spec_map_add_all(m0, keys.take(j as int), value).0,
            entered@ == Seq::new(
                j as nat,
                |t: int| (squawks@[t], spec_map_add_all(m0, keys.take(j as int), value).1[t]),
            ),
            spec_lists_wf(index@.map_values(f)),
            forall|k: u16| #[trigger]
                index@.map_values(f).contains_key(k) ==> index@.map_values(f)[k].items.len() <= (
                if m0.contains_key(k) {
                    m0[k].items.len() as int
                } else {
                    0
                }) + j,
            forall|k: u16| #[trigger] m0.contains_key(k) ==> m0[k].items.len() + squawks@.len() < usize::MAX,
        decreases squawks@.len() - j,
    {
        let squawk = squawks[j];
        let key = squawk.code;
        let ghost before = index@.map_values(f);
        let ghost fold = spec_map_add_all(m0, keys.take(j as int), value);
        proof {
            lemma_map_add_all_slots(m0, keys.take(j as int), value);
            if index@.contains_key(key) {
                assert(before.contains_key(key));
                assert(before[key] == spec_list_of(index@[key]));
            }
        }
        let i = add_to_index(index, key, value);
        entered.push((squawk, i));
        proof {
            assert(keys.take(j as int + 1).drop_last() =~= keys.take(j as int));
            assert(keys.take(j as int + 1).last() == key);
            let fold2 = spec_map_add_all(m0, keys.take(j as int + 1), value);
            assert(fold2.1 == fold.1.push(i));
            assert(entered@ =~= Seq::new(
                (j + 1) as nat,
                |t: int| (squawks@[t], fold2.1[t]),
            ));
        }
        j += 1;
    }
    proof {
        assert(keys.take(squawks@.len() as int) =~= keys);
    }
    entered
}

/// The keyed entries of the index of callsigns as plain values.
pub open spec fn spec_entries_view(entries: Seq<(String, SparseList<usize>)>) -> Seq<(Seq<char>, IndexList)> {
    entries.map_values(|e: (String, SparseList<usize>)| (e.0@, spec_list_of(e.1)))
}

proof fn lemma_entries_add_all_slots(entries: Seq<(Seq<char>, IndexList)>, keys: Seq<Seq<char>>, value: usize)
    ensures
        spec_entries_add_all(entries, keys, value).1.len() == keys.len(),
    decreases keys.len(),
{
    if keys.len() > 0 {
        lemma_entries_add_all_slots(entries, keys.drop_last(), value);
    }
}

/// Enters `value` into the index list of the first entry with `key`, or
/// into a new entry at the end; returns the slot of the entry.
fn add_to_entries(entries: &mut Vec<(String, SparseList<usize>)>, key: &String, value: usize) -> (i: usize)
    requires
        spec_entries_wf(spec_entries_view(old(entries)@)),
        forall|j: int|
            0 <= j < old(entries)@.len() ==> #[trigger] old(entries)@[j].1@.len() < usize::MAX,
    ensures
        (spec_entries_view(final(entries)@), i) == spec_entries_add(
            spec_entries_view(old(entries)@),
            key@,
            value,
        ),
        spec_entries_wf(spec_entries_view(final(entries)@)),
{
    let ghost before = spec_entries_view(old(entries)@);
    match find_callsign(entries, key) {
        Some(j) => {
            proof {
                assert(spec_wf(before[j as int].1.items, before[j as int].1.free));
                assert(old(entries)@[j as int].1@.len() < usize::MAX);
            }
            let i = entries[j].1.insert(value);
            proof {
                assert(spec_entries_view(entries@) =~= before.update(
                    j as int,
                    (key@, spec_list_of(entries@[j as int].1)),
                ));
                assert forall|t: int| 0 <= t < entries@.len() implies spec_wf(
                    #[trigger] spec_entries_view(entries@)[t].1.items,
                    spec_entries_view(entries@)[t].1.free,
                ) by {
                    if t != j {
                        assert(spec_entries_view(entries@)[t] == before[t]);
                    }
                }
            }
            i
        },
        None => {
            let mut list = SparseList::new();
            let i = list.insert(value);
            entries.push((key.clone(), list));
            proof {
                assert(spec_entries_view(entries@) =~= before.push((key@, spec_list_of(list))));
                assert forall|t: int| 0 <= t < entries@.len() implies spec_wf(
                    #[trigger] spec_entries_view(entries@)[t].1.items,
                    spec_entries_view(entries@)[t].1.free,
                ) by {
                    if t < before.len() {
                        assert(spec_entries_view(entries@)[t] == before[t]);
                    }
                }
            }
            i
        },
    }
}

/// Enters `value` under each callsign, in order, and returns each callsign
/// with the slot of its entry.
fn index_callsigns(
    entries: &mut Vec<(String, SparseList<usize>)>,
    callsigns: &Vec<String>,
    value: usize,
) -> (entered: Vec<(String, usize)>)
    requires
        spec_entries_wf(spec_entries_view(old(entries)@)),
        forall|j: int|
            0 <= j < old(entries)@.len() ==> #[trigger] old(entries)@[j].1@.len() + callsigns@.len()
                < usize::MAX,
    ensures
        ({
            let (e, slots) = spec_entries_add_all(
                spec_entries_view(old(entries)@),
                callsigns@.map_values(|s: String| s@),
                value,
            );
            &&& spec_entries_view(final(entries)@) == e
            &&& entered@.map_values(|e: (String, usize)| (e.0@, e.1)) == Seq::new(
                callsigns@.len(),
                |j: int| (callsigns@[j]@, slots[j]),
            )
        }),
        spec_entries_wf(spec_entries_view(final(entries)@)),
{
    let ghost e0 = spec_entries_view(old(entries)@);
    let ghost keys = callsigns@.map_values(|s: String| s@);
    let mut entered: Vec<(String, usize)> = Vec::new();
    let mut j: usize = 0;
    while j < callsigns.len()
        invariant
            j <= callsigns@.len(),
            e0 == spec_entries_view(old(entries)@),
            keys == callsigns@.map_values(|s: String| s@),
            spec_entries_view(entries@) == spec_entries_add_all(e0, keys.take(j as int), value).0,
            entered@.map_values(|e: (String, usize)| (e.0@, e.1)) == Seq::new(
                j as nat,
                |t: int| (callsigns@[t]@, spec_entries_add_all(e0, keys.take(j as int), value).1[t]),
            ),
            spec_entries_wf(spec_entries_view(entries@)),
            e0.len() <= entries@.len(),
            forall|t: int|
                0 <= t < entries@.len() ==> #[trigger] entries@[t].1@.len() <= (if t < e0.len() {
                    e0[t].1.items.len() as int
                } else {
                    0
                }) + j,
            forall|t: int|
                0 <= t < e0.len() ==> #[trigger] e0[t].1.items.len() + callsigns@.len() < usize::MAX,
        decreases callsigns@.len() - j,
    {
        let callsign = &callsigns[j];
        let ghost before = entries@;
        let ghost entered_before = entered@;
        let ghost fold = spec_entries_add_all(e0, keys.take(j as int), value);
        proof {
            lemma_entries_add_all_slots(e0, keys.take(j as int), value);
            assert forall|t: int| 0 <= t < before.len() implies #[trigger] before[t].1@.len()
                < usize::MAX by {
                if t < e0.len() {
                    assert(e0[t].1.items.len() + callsigns@.len() < usize::MAX);
                }
            }
        }
        let i = add_to_entries(entries, callsign, value);
        entered.push((callsign.clone(), i));
        proof {
            assert(keys.take(j as int + 1).drop_last() =~= keys.take(j as int));
            assert(keys.take(j as int + 1).last() == callsign@);
            let fold2 = spec_entries_add_all(e0, keys.take(j as int + 1), value);
            assert(fold2.1 == fold.1.push(i));
            let g = |e: (String, usize)| (e.0@, e.1);
            assert(entered_before.map_values(g).len() == j);
            assert(entered_before.len() == j);
            assert(entered@.len() == j + 1);
            assert forall|t: int| 0 <= t < j implies #[trigger] entered@.map_values(g)[t] == (
            callsigns@[t]@, fold2.1[t]) by {
                assert(entered@[t] == entered_before[t]);
                assert(entered_before.map_values(g)[t] == (callsigns@[t]@, fold.1[t]));
            }
            assert(entered@.map_values(g) =~= Seq::new(
                (j + 1) as nat,
                |t: int| (callsigns@[t]@, fold2.1[t]),
            ));
            let ev = spec_entries_view(entries@);
            let bv = spec_entries_view(before);
            assert(ev == spec_entries_add(bv, callsign@, value).0);
            match spec_find(bv, callsign@) {
                Some(jj) => {
                    assert(ev.len() == bv.len());
                    assert(ev[jj].1.items.len() <= bv[jj].1.items.len() + 1);
                    assert forall|t: int| 0 <= t < ev.len() && t != jj implies ev[t] == bv[t] by {}
                },
                None => {
                    assert(ev.len() == bv.len() + 1);
                    assert(ev[bv.len() as int].1.items.len() == 1);
                    assert forall|t: int| 0 <= t < bv.len() implies ev[t] == bv[t] by {}
                },
            }
            assert forall|t: int| 0 <= t < entries@.len() implies #[trigger] entries@[t].1@.len() <= (
            if t < e0.len() {
                e0[t].1.items.len() as int
            } else {
                0
            }) + j + 1 by {
                assert(ev[t].1.items == entries@[t].1@);
                if t < before.len() {
                    assert(bv[t].1.items == before[t].1@);
                }
            }
        }
        j += 1;
    }
    proof {
        assert(keys.take(callsigns@.len() as int) =~= keys);
    }
    entered
}

/// The subscriptions of all clients.
#[derive(Debug)]
pub struct Subscriptions<S> {
    subscriptions: SparseList<Subscription<S>>,
    /// key is (client id, client-chosen subscription id)
    by_subscriber_id: Vec<(ClientId, u128, usize)>,
    by_icao_address: HashMap<u64, SparseList<usize>>,
    by_callsign: Vec<(String, SparseList<usize>)>,
    by_squawk: HashMap<u16, SparseList<usize>>,
}

/// A slot of the list of subscriptions as plain values.
pub open spec fn spec_slot_view<S>(slot: Option<Subscription<S>>) -> Option<SubscriptionView<S>> {
    match slot {
        Some(s) => Some(s@),
        None => None,
    }
}

impl<S> View for Subscriptions<S> {
    type V = SubscriptionsModel<S>;

    closed spec fn view(&self) -> SubscriptionsModel<S> {
        SubscriptionsModel {
            subscriptions: self.subscriptions@.map_values(
                |slot: Option<Subscription<S>>| spec_slot_view(slot),
            ),
            free_slots: self.subscriptions.free_slots(),
            by_subscriber_id: self.by_subscriber_id@,
            by_icao_address: self.by_icao_address@.map_values(|l: SparseList<usize>| spec_list_of(l)),
            by_callsign: spec_entries_view(self.by_callsign@),
            by_squawk: self.by_squawk@.map_values(|l: SparseList<usize>| spec_list_of(l)),
        }
    }
}

impl<S> Subscriptions<S> {
    pub closed spec fn wf(&self) -> bool {
        &&& self.subscriptions.wf()
        &&& spec_subscriptions_wf(self@)
    }

    /// No subscriptions.
    pub fn new() -> (r: Self)
        ensures
            r@.subscriptions == Seq::<Option<SubscriptionView<S>>>::empty(),
            r@.free_slots == Seq::<usize>::empty(),
            r@.by_subscriber_id == Seq::<(ClientId, u128, usize)>::empty(),
            r@.by_icao_address == Map::<u64, IndexList>::empty(),
            r@.by_callsign == Seq::<(Seq<char>, IndexList)>::empty(),
            r@.by_squawk == Map::<u16, IndexList>::empty(),
            r.wf(),
    {
        let r = Subscriptions {
            subscriptions: SparseList::new(),
            by_subscriber_id: Vec::new(),
            by_icao_address: HashMap::new(),
            by_callsign: Vec::new(),
            by_squawk: HashMap::new(),
        };
        proof {
            assert(r@.subscriptions =~= Seq::<Option<SubscriptionView<S>>>::empty());
            assert(r@.by_icao_address =~= Map::<u64, IndexList>::empty());
            assert(r@.by_callsign =~= Seq::<(Seq<char>, IndexList)>::empty());
            assert(r@.by_squawk =~= Map::<u16, IndexList>::empty());
        }
        r
    }

    /// The position of a subscription in the list by client and id.
    fn find_subscriber(&self, client_id: ClientId, id: u128) -> (r: Option<usize>)
        ensures
            match r {
                Some(j) => j < self.by_subscriber_id@.len() && self.by_subscriber_id@[j as int].0
                    == client_id && self.by_subscriber_id@[j as int].1 == id,
                None => forall|j: int|
                    0 <= j < self.by_subscriber_id@.len() ==> !(#[trigger] self.by_subscriber_id@[j].0
                        == client_id && self.by_subscriber_id@[j].1 == id),
            },
    {
        let mut j: usize = 0;
        while j < self.by_subscriber_id.len()
            invariant
                j <= self.by_subscriber_id@.len(),
                forall|u: int|
                    0 <= u < j ==> !(#[trigger] self.by_subscriber_id@[u].0 == client_id
                        && self.by_subscriber_id@[u].1 == id),
            decreases self.by_subscriber_id@.len() - j,
        {
            let entry = &self.by_subscriber_id[j];
            if entry.0 == client_id && entry.1 == id {
                return Some(j);
            }
            j += 1;
        }
        None
    }

    /// Subscribes a client to the aircraft of a filter. Areas are not
    /// supported: the filter must name none.
    ///
    /// The subscription is not registered under its client and id, so it
    /// cannot be found again by them (see [`Self::unsubscribe`]).
    pub fn subscribe<B>(
        &mut self,
        client_id: ClientId,
        id: u128,
        filter: SubscriptionFilter<B>,
        message_sender: S,
    ) -> (r: Result<(), Error>)
        requires
            old(self).wf(),
            filter.area@.len() == 0,
            spec_room(old(self)@, spec_query_size(filter.aircraft@)),
        ensures
            r is Ok,
            final(self)@ == spec_subscribe(old(self)@, client_id, id, filter.aircraft@, message_sender),
            final(self).wf(),
    {
        if let Some(_index) = self.find_subscriber(client_id, id) {
            self.unsubscribe(client_id, id)?;
        }
        let ghost m0 = self@;

        let index = self.subscriptions.reserve();
        proof {
            assert forall|k: u64| #[trigger] self.by_icao_address@.contains_key(k) implies self.by_icao_address@[k]@.len()
                + filter.aircraft.icao@.len() < usize::MAX by {
                assert(m0.by_icao_address.contains_key(k));
                assert(m0.by_icao_address[k] == spec_list_of(self.by_icao_address@[k]));
            }
            assert forall|k: u16| #[trigger] self.by_squawk@.contains_key(k) implies self.by_squawk@[k]@.len()
                + filter.aircraft.squawk@.len() < usize::MAX by {
                assert(m0.by_squawk.contains_key(k));
                assert(m0.by_squawk[k] == spec_list_of(self.by_squawk@[k]));
            }
            assert forall|j: int| 0 <= j < self.by_callsign@.len() implies #[trigger] self.by_callsign@[j].1@.len()
                + filter.aircraft.callsign@.len() < usize::MAX by {
                assert(m0.by_callsign[j] == (self.by_callsign@[j].0@, spec_list_of(self.by_callsign@[j].1)));
                assert(m0.by_callsign[j].1.items.len() + spec_query_size(filter.aircraft@) < usize::MAX);
            }
        }
        let by_icao_address = index_icao_addresses(
            &mut self.by_icao_address,
            &filter.aircraft.icao,
            index,
        );
        let by_callsign = index_callsigns(&mut self.by_callsign, &filter.aircraft.callsign, index);
        let by_squawk = index_squawks(&mut self.by_squawk, &filter.aircraft.squawk, index);
        let subscription = Subscription {
            client_id,
            id,
            message_sender,
            by_icao_address,
            by_callsign,
            by_squawk,
        };
        let ghost old_slots = self.subscriptions@;
        proof {
            let free = old(self).subscriptions.free_slots();
            if free.len() > 0 {
                assert forall|k: int| 0 <= k < free.len() - 1 implies #[trigger] free[k] != index by {
                    assert(free[k] != free[free.len() - 1]);
                }
                assert(!self.subscriptions.free_slots().contains(index));
            } else {
                assert(!self.subscriptions.free_slots().contains(index)) by {
                    assert(self.subscriptions.free_slots().len() == 0);
                }
            }
        }
        self.subscriptions.insert_reserved(index, subscription);
        proof {
            let sv = |slot: Option<Subscription<S>>| spec_slot_view(slot);
            assert(self.subscriptions@.map_values(sv) =~= spec_insert_reserved(
                old_slots.map_values(sv),
                index,
                subscription@,
            ));
            assert(subscription@.by_icao_address =~= Seq::new(
                filter.aircraft@.icao.len(),
                |j: int| (filter.aircraft@.icao[j], spec_map_add_all(
                    m0.by_icao_address,
                    filter.aircraft@.icao.map_values(|a: IcaoAddress| spec_icao_key(a)),
                    index,
                ).1[j]),
            ));
            assert(spec_reserve(m0.subscriptions, m0.free_slots) == spec_reserve(
                old(self).subscriptions@,
                old(self).subscriptions.free_slots(),
            ));
            assert(old_slots.map_values(sv) == m0.subscriptions);
            let expected = spec_subscribe(m0, client_id, id, filter.aircraft@, subscription.message_sender);
            assert(subscription@.by_callsign =~= Seq::new(
                filter.aircraft@.callsign.len(),
                |j: int| (filter.aircraft@.callsign[j], spec_entries_add_all(
                    m0.by_callsign,
                    filter.aircraft@.callsign,
                    index,
                ).1[j]),
            ));
            assert(subscription@.by_squawk =~= Seq::new(
                filter.aircraft@.squawk.len(),
                |j: int| (filter.aircraft@.squawk[j], spec_map_add_all(
                    m0.by_squawk,
                    filter.aircraft@.squawk.map_values(|s: Squawk| s.code),
                    index,
                ).1[j]),
            ));
            assert(self@.subscriptions == expected.subscriptions);
            assert(self@.free_slots == expected.free_slots);
            assert(self@.by_icao_address == expected.by_icao_address);
            assert(self@.by_callsign == expected.by_callsign);
            assert(self@.by_squawk == expected.by_squawk);
            assert(self@ == expected);
            let m = self@;
            assert forall|k: int| 0 <= k < m.free_slots.len() implies #[trigger] m.free_slots[k] < m.subscriptions.len()
                && m.subscriptions[m.free_slots[k] as int] is None by {
                assert(self.subscriptions@[m.free_slots[k] as int] is None);
            }
        }
        Ok(())
    }

    /// Unsubscribes a client's subscription.
    ///
    /// Subscriptions are never registered under their client and id, so none
    /// is found: this always fails with
    /// [`Error::InvalidSubscriptionId`] and changes nothing.
    pub fn unsubscribe(&mut self, client_id: ClientId, id: u128) -> (r: Result<(), Error>)
        requires
            old(self).wf(),
        ensures
            r == Err::<(), Error>(Error::InvalidSubscriptionId { client_id, id }),
            final(self)@ == old(self)@,
            final(self).wf(),
    {
        let found = self.find_subscriber(client_id, id);
        assert(found is None);
        Err(Error::InvalidSubscriptionId { client_id, id })
    }
}

impl<S> Default for Subscriptions<S> {
    fn default() -> (r: Self)
        ensures
            r@.subscriptions == Seq::<Option<SubscriptionView<S>>>::empty(),
            r@.by_icao_address == Map::<u64, IndexList>::empty(),
            r@.by_callsign == Seq::<(Seq<char>, IndexList)>::empty(),
            r@.by_squawk == Map::<u16, IndexList>::empty(),
            r.wf(),
    {
        Self::new()
    }
}

/// Entering a value under keys, one after the other, keeps every earlier
/// entry: afterwards, each key's index list holds the value in the slot that
/// its entry got, and the lists stay consistent.
pub proof fn lemma_map_add_all_entries<K>(m: Map<K, IndexList>, keys: Seq<K>, value: usize)
    requires
        spec_lists_wf(m),
        forall|k: K| #[trigger] m.contains_key(k) ==> m[k].items.len() + keys.len() < usize::MAX,
        keys.len() < usize::MAX,
    ensures
        ({
            let (m2, slots) = spec_map_add_all(m, keys, value);
            &&& spec_lists_wf(m2)
            &&& slots.len() == keys.len()
            &&& forall|k: K| #[trigger]
                m2.contains_key(k) ==> m2[k].items.len() <= (if m.contains_key(k) {
                    m[k].items.len() as int
                } else {
                    0
                }) + keys.len()
            &&& forall|j: int|
                0 <= j < keys.len() ==> {
                    &&& m2.contains_key(#[trigger] keys[j])
                    &&& slots[j] < m2[keys[j]].items.len()
                    &&& m2[keys[j]].items[slots[j] as int] == Some(value)
                }
        }),
    decreases keys.len(),
{
    if keys.len() > 0 {
        let rest = keys.drop_last();
        lemma_map_add_all_entries(m, rest, value);
        let (m1, slots1) = spec_map_add_all(m, rest, value);
        let key = keys.last();
        let l = if m1.contains_key(key) {
            m1[key]
        } else {
            spec_empty_list()
        };
        assert(spec_wf(l.items, l.free));
        crate::sparse_list::law_insert_then_get(l.items, l.free, value);
        let (m2, slots) = spec_map_add_all(m, keys, value);
        let (items, free, i) = spec_insert(l.items, l.free, value);
        assert(m2 == m1.insert(key, IndexList { items, free }));
        assert(slots == slots1.push(i));
        assert forall|j: int| 0 <= j < keys.len() implies {
            &&& m2.contains_key(#[trigger] keys[j])
            &&& slots[j] < m2[keys[j]].items.len()
            &&& m2[keys[j]].items[slots[j] as int] == Some(value)
        } by {
            if j < keys.len() - 1 {
                assert(keys[j] == rest[j]);
                assert(slots[j] == slots1[j]);
                if keys[j] == key {
                    assert(m1[key].items[slots1[j] as int] == Some(value));
                }
            }
        }
    }
}

/// Subscribing enters the new subscription's slot under every ICAO address
/// and every squawk of its query, and the subscription remembers where:
/// for each address (squawk) it asked for, the index list of that address
/// (squawk) holds the subscription's slot in the slot the subscription
/// recorded.
pub proof fn law_subscribe_indexes_addresses_and_squawks<S>(
    m: SubscriptionsModel<S>,
    client_id: ClientId,
    id: u128,
    query: AircraftQueryView,
    message_sender: S,
)
    requires
        spec_subscriptions_wf(m),
        spec_room(m, spec_query_size(query)),
    ensures
        ({
            let m2 = spec_subscribe(m, client_id, id, query, message_sender);
            let index = spec_reserve(m.subscriptions, m.free_slots).1;
            let s = m2.subscriptions[index as int]->0;
            &&& index < m2.subscriptions.len()
            &&& m2.subscriptions[index as int] is Some
            &&& s.client_id == client_id && s.id == id
            &&& s.by_icao_address.len() == query.icao.len()
            &&& forall|j: int|
                0 <= j < query.icao.len() ==> {
                    let key = spec_icao_key(#[trigger] query.icao[j]);
                    &&& s.by_icao_address[j].0 == query.icao[j]
                    &&& m2.by_icao_address.contains_key(key)
                    &&& m2.by_icao_address[key].items[s.by_icao_address[j].1 as int] == Some(index)
                }
            &&& s.by_squawk.len() == query.squawk.len()
            &&& forall|j: int|
                0 <= j < query.squawk.len() ==> {
                    let key = (#[trigger] query.squawk[j]).code;
                    &&& s.by_squawk[j].0 == query.squawk[j]
                    &&& m2.by_squawk.contains_key(key)
                    &&& m2.by_squawk[key].items[s.by_squawk[j].1 as int] == Some(index)
                }
        }),
{
    let (free, index) = spec_reserve(m.subscriptions, m.free_slots);
    let icao_keys = query.icao.map_values(|a: IcaoAddress| spec_icao_key(a));
    let squawk_keys = query.squawk.map_values(|s: Squawk| s.code);
    lemma_map_add_all_entries(m.by_icao_address, icao_keys, index);
    lemma_map_add_all_entries(m.by_squawk, squawk_keys, index);
    let m2 = spec_subscribe(m, client_id, id, query, message_sender);
    let s = m2.subscriptions[index as int]->0;
    if m.free_slots.len() > 0 {
        assert(m.free_slots[m.free_slots.len() - 1] < m.subscriptions.len());
    }
    assert forall|j: int| 0 <= j < query.icao.len() implies {
        let key = spec_icao_key(#[trigger] query.icao[j]);
        &&& s.by_icao_address[j].0 == query.icao[j]
        &&& m2.by_icao_address.contains_key(key)
        &&& m2.by_icao_address[key].items[s.by_icao_address[j].1 as int] == Some(index)
    } by {
        assert(icao_keys[j] == spec_icao_key(query.icao[j]));
    }
    assert forall|j: int| 0 <= j < query.squawk.len() implies {
        let key = (#[trigger] query.squawk[j]).code;
        &&& s.by_squawk[j].0 == query.squawk[j]
        &&& m2.by_squawk.contains_key(key)
        &&& m2.by_squawk[key].items[s.by_squawk[j].1 as int] == Some(index)
    } by {
        assert(squawk_keys[j] == query.squawk[j].code);
    }
}

} // verus!
