//! Objects that users pin to the sidebar, kept per user.
//!
//! A user's pins are an ordered list; a pin is identified by the pair of the
//! object's id and its kind, so the same id may be pinned once per kind.
use vstd::prelude::*;

verus! {

/// The kind of media object a user can pin to the sidebar.
#[derive(Clone, Copy, Debug, PartialEq, Eq, Structural)]
pub enum PinnedKind {
    Playlist,
    Album,
    Artist,
    Track,
}

/// What identifies a pin: the object's id and its kind.
pub struct PinKey {
    pub id: Seq<char>,
    pub kind: PinnedKind,
}

/// A single user-pinned object.
#[derive(Clone, Debug, PartialEq, Eq)]
pub struct PinnedObject {
    pub id: String,
    pub kind: PinnedKind,
}

impl View for PinnedObject {
    type V = PinKey;

    open spec fn view(&self) -> PinKey {
        PinKey { id: self.id@, kind: self.kind }
    }
}

/// The pins of a list of objects, in order.
pub open spec fn pins_of(objects: Seq<PinnedObject>) -> Seq<PinKey> {
    objects.map_values(|o: PinnedObject| o@)
}

/// The abstract state of all pins: user id to that user's pins, in order.
pub type PinMap = Map<Seq<char>, Seq<PinKey>>;

/// The pins of `user`; a user without an entry has none.
pub open spec fn user_pins(m: PinMap, user: Seq<char>) -> Seq<PinKey> {
    if m.contains_key(user) {
        m[user]
    } else {
        Seq::empty()
    }
}

/// Whether `user` has pinned `key`.
pub open spec fn spec_is_pinned(m: PinMap, user: Seq<char>, key: PinKey) -> bool {
    user_pins(m, user).contains(key)
}

/// Pinning appends the pin to the user's list, unless it is already there.
pub open spec fn spec_pin(m: PinMap, user: Seq<char>, key: PinKey) -> PinMap {
    if spec_is_pinned(m, user, key) {
        m
    } else {
        m.insert(user, user_pins(m, user).push(key))
    }
}

/// Whether a pin survives unpinning the object `id` of kind `kind`.
pub open spec fn survives_unpin(pin: PinKey, id: Seq<char>, kind: PinnedKind) -> bool {
    !(pin.id == id && pin.kind == kind)
}

/// Whether a pin survives pruning the objects of `kind` down to `valid_ids`.
pub open spec fn survives_prune(pin: PinKey, kind: PinnedKind, valid_ids: Seq<Seq<char>>) -> bool {
    pin.kind != kind || valid_ids.contains(pin.id)
}

/// The user's list after keeping only the pins that satisfy `keep`; a user
/// left without pins loses the entry. A user without an entry is left as is.
pub open spec fn spec_retain(m: PinMap, user: Seq<char>, keep: spec_fn(PinKey) -> bool) -> PinMap {
    if !m.contains_key(user) {
        m
    } else if m[user].filter(keep).len() == 0 {
        m.remove(user)
    } else {
        m.insert(user, m[user].filter(keep))
    }
}

/// Whether keeping only the pins that satisfy `keep` drops any of the user's pins.
pub open spec fn retain_drops(m: PinMap, user: Seq<char>, keep: spec_fn(PinKey) -> bool) -> bool {
    m.contains_key(user) && m[user].filter(keep).len() != m[user].len()
}

pub open spec fn unpin_filter(id: Seq<char>, kind: PinnedKind) -> spec_fn(PinKey) -> bool {
    |pin: PinKey| survives_unpin(pin, id, kind)
}

pub open spec fn prune_filter(kind: PinnedKind, valid_ids: Seq<Seq<char>>) -> spec_fn(PinKey) -> bool {
    |pin: PinKey| survives_prune(pin, kind, valid_ids)
}

/// Unpinning removes every pin of the object `id` of kind `kind` from the user's list.
pub open spec fn spec_unpin(m: PinMap, user: Seq<char>, id: Seq<char>, kind: PinnedKind) -> PinMap {
    spec_retain(m, user, unpin_filter(id, kind))
}

/// Pruning removes the user's pins of `kind` whose ids are not among `valid_ids`.
pub open spec fn spec_prune(
    m: PinMap,
    user: Seq<char>,
    kind: PinnedKind,
    valid_ids: Seq<Seq<char>>,
) -> PinMap {
    spec_retain(m, user, prune_filter(kind, valid_ids))
}

/// Per-user map of pinned objects: user id to the user's pins, in pin order.
pub struct PinnedObjectsByUser {
    entries: Vec<(String, Vec<PinnedObject>)>,
}

/// Whether some entry belongs to `user`.
pub open spec fn has_user(entries: Seq<(String, Vec<PinnedObject>)>, user: Seq<char>) -> bool {
    exists|i: int| 0 <= i < entries.len() && (#[trigger] entries[i]).0@ == user
}

/// The index of the entry of `user`, where there is one.
pub open spec fn user_index(entries: Seq<(String, Vec<PinnedObject>)>, user: Seq<char>) -> int {
    choose|i: int| 0 <= i < entries.len() && (#[trigger] entries[i]).0@ == user
}

/// The map that a list of entries stands for.
pub open spec fn entries_view(entries: Seq<(String, Vec<PinnedObject>)>) -> PinMap {
    Map::new(
        |user: Seq<char>| has_user(entries, user),
        |user: Seq<char>| pins_of(entries[user_index(entries, user)].1@),
    )
}

/// No two entries belong to the same user.
pub open spec fn distinct_users(entries: Seq<(String, Vec<PinnedObject>)>) -> bool {
    forall|i: int, j: int|
        0 <= i < entries.len() && 0 <= j < entries.len() && i != j ==> (#[trigger] entries[i]).0@
            != (#[trigger] entries[j]).0@
}

proof fn lemma_lookup(entries: Seq<(String, Vec<PinnedObject>)>, i: int)
    requires
        distinct_users(entries),
        0 <= i < entries.len(),
    ensures
        entries_view(entries).contains_key(entries[i].0@),
        entries_view(entries)[entries[i].0@] == pins_of(entries[i].1@),
{
    let user = entries[i].0@;
    assert(has_user(entries, user));
    let j = user_index(entries, user);
    assert(entries[j].0@ == user);
}

proof fn lemma_update(
    entries: Seq<(String, Vec<PinnedObject>)>,
    i: int,
    entry: (String, Vec<PinnedObject>),
)
    requires
        distinct_users(entries),
        0 <= i < entries.len(),
        entry.0@ == entries[i].0@,
    ensures
        distinct_users(entries.update(i, entry)),
        entries_view(entries.update(i, entry)) == entries_view(entries).insert(
            entry.0@,
            pins_of(entry.1@),
        ),
{
    let e2 = entries.update(i, entry);
    assert(distinct_users(e2)) by {
        assert forall|a: int, b: int|
            0 <= a < e2.len() && 0 <= b < e2.len() && a != b implies (#[trigger] e2[a]).0@
            != (#[trigger] e2[b]).0@ by {
            assert(entries[a].0@ != entries[b].0@);
        }
    }
    let v1 = entries_view(entries);
    let v2 = entries_view(e2);
    let expected = v1.insert(entry.0@, pins_of(entry.1@));
    assert forall|user: Seq<char>| #[trigger] v2.contains_key(user) <==> expected.contains_key(user) by {
        if has_user(e2, user) {
            let j = choose|j: int| 0 <= j < e2.len() && (#[trigger] e2[j]).0@ == user;
            if j != i {
                assert(entries[j].0@ == user);
            }
        }
        if has_user(entries, user) {
            let j = choose|j: int| 0 <= j < entries.len() && (#[trigger] entries[j]).0@ == user;
            assert(e2[j].0@ == user);
        }
        if user == entry.0@ {
            assert(e2[i].0@ == user);
        }
    }
    assert forall|user: Seq<char>| #[trigger] v2.contains_key(user) implies v2[user]
        == expected[user] by {
        let j = user_index(e2, user);
        assert(e2[j].0@ == user);
        if user == entry.0@ {
            assert(e2[i].0@ == user);
        } else {
            assert(j != i);
            assert(entries[j].0@ == user);
            lemma_lookup(entries, j);
        }
    }
    assert(v2 =~= expected);
}

proof fn lemma_remove(entries: Seq<(String, Vec<PinnedObject>)>, i: int)
    requires
        distinct_users(entries),
        0 <= i < entries.len(),
    ensures
        distinct_users(entries.remove(i)),
        entries_view(entries.remove(i)) == entries_view(entries).remove(entries[i].0@),
{
    let e2 = entries.remove(i);
    let removed = entries[i].0@;
    assert forall|a: int| 0 <= a < e2.len() implies #[trigger] e2[a] == entries[if a < i {
        a
    } else {
        a + 1
    }] by {}
    assert(distinct_users(e2)) by {
        assert forall|a: int, b: int|
            0 <= a < e2.len() && 0 <= b < e2.len() && a != b implies (#[trigger] e2[a]).0@
            != (#[trigger] e2[b]).0@ by {
            let a1 = if a < i { a } else { a + 1 };
            let b1 = if b < i { b } else { b + 1 };
            assert(entries[a1].0@ != entries[b1].0@);
        }
    }
    let v1 = entries_view(entries);
    let v2 = entries_view(e2);
    let expected = v1.remove(removed);
    assert forall|user: Seq<char>| #[trigger] v2.contains_key(user) <==> expected.contains_key(user) by {
        if has_user(e2, user) {
            let j = choose|j: int| 0 <= j < e2.len() && (#[trigger] e2[j]).0@ == user;
            let j1 = if j < i { j } else { j + 1 };
            assert(entries[j1].0@ == user);
            assert(j1 != i);
        }
        if has_user(entries, user) && user != removed {
            let j = choose|j: int| 0 <= j < entries.len() && (#[trigger] entries[j]).0@ == user;
            assert(j != i);
            let j2 = if j < i { j } else { j - 1 };
            assert(e2[j2].0@ == user);
        }
    }
    assert forall|user: Seq<char>| #[trigger] v2.contains_key(user) implies v2[user]
        == expected[user] by {
        let j = user_index(e2, user);
        assert(e2[j].0@ == user);
        let j1 = if j < i { j } else { j + 1 };
        assert(entries[j1].0@ == user);
        lemma_lookup(entries, j1);
    }
    assert(v2 =~= expected);
}

proof fn lemma_push(entries: Seq<(String, Vec<PinnedObject>)>, entry: (String, Vec<PinnedObject>))
    requires
        distinct_users(entries),
        !has_user(entries, entry.0@),
    ensures
        distinct_users(entries.push(entry)),
        entries_view(entries.push(entry)) == entries_view(entries).insert(
            entry.0@,
            pins_of(entry.1@),
        ),
{
    let e2 = entries.push(entry);
    let n = entries.len() as int;
    assert(distinct_users(e2)) by {
        assert forall|a: int, b: int|
            0 <= a < e2.len() && 0 <= b < e2.len() && a != b implies (#[trigger] e2[a]).0@
            != (#[trigger] e2[b]).0@ by {
            if a < n && b < n {
                assert(entries[a].0@ != entries[b].0@);
            } else if a < n {
                assert(entries[a].0@ == e2[a].0@);
            } else {
                assert(entries[b].0@ == e2[b].0@);
            }
        }
    }
    let v1 = entries_view(entries);
    let v2 = entries_view(e2);
    let expected = v1.insert(entry.0@, pins_of(entry.1@));
    assert forall|user: Seq<char>| #[trigger] v2.contains_key(user) <==> expected.contains_key(user) by {
        if has_user(e2, user) {
            let j = choose|j: int| 0 <= j < e2.len() && (#[trigger] e2[j]).0@ == user;
            if j < n {
                assert(entries[j].0@ == user);
            }
        }
        if has_user(entries, user) {
            let j = choose|j: int| 0 <= j < entries.len() && (#[trigger] entries[j]).0@ == user;
            assert(e2[j].0@ == user);
        }
        if user == entry.0@ {
            assert(e2[n].0@ == user);
        }
    }
    assert forall|user: Seq<char>| #[trigger] v2.contains_key(user) implies v2[user]
        == expected[user] by {
        let j = user_index(e2, user);
        assert(e2[j].0@ == user);
        if j < n {
            assert(entries[j].0@ == user);
            lemma_lookup(entries, j);
        } else {
            assert(e2[n].0@ == user);
        }
    }
    assert(v2 =~= expected);
}

/// A copy of a pinned object.
fn copy_object(object: &PinnedObject) -> (copy: PinnedObject)
    ensures
        copy@ == object@,
{
    PinnedObject { id: object.id.clone(), kind: object.kind }
}

impl PinnedObject {
    /// A pin of the object `id` of kind `kind`.
    pub fn new(id: &str, kind: PinnedKind) -> (object: Self)
        ensures
            object.id@ == id@,
            object.kind == kind,
    {
        PinnedObject { id: id.to_owned(), kind }
    }
}

impl View for PinnedObjectsByUser {
    type V = PinMap;

    closed spec fn view(&self) -> PinMap {
        entries_view(self.entries@)
    }
}

impl PinnedObjectsByUser {
    /// Well-formedness: each user has at most one entry.
    pub closed spec fn wf(&self) -> bool {
        distinct_users(self.entries@)
    }

    /// A map in which no user has pinned anything.
    pub fn new() -> (map: Self)
        ensures
            map.wf(),
            map@ == PinMap::empty(),
    {
        let map = PinnedObjectsByUser { entries: Vec::new() };
        assert(map@ =~= PinMap::empty());
        map
    }

    /// The index of the entry of `user`.
    fn find_user(&self, user: &String) -> (index: Option<usize>)
        requires
            self.wf(),
        ensures
            match index {
                Some(i) => i < self.entries@.len() && self.entries@[i as int].0@ == user@,
                None => !has_user(self.entries@, user@),
            },
    {
        let n = self.entries.len();
        let mut i: usize = 0;
        while i < n
            invariant
                n == self.entries@.len(),
                i <= n,
                forall|j: int| 0 <= j < i ==> (#[trigger] self.entries@[j]).0@ != user@,
            decreases n - i,
        {
            if self.entries[i].0 == *user {
                return Some(i);
            }
            i = i + 1;
        }
        None
    }
    /// Whether no user has pinned anything.
    pub fn is_empty(&self) -> (empty: bool)
        requires
            self.wf(),
        ensures
            empty == (self@ == PinMap::empty()),
    {
        if self.entries.len() == 0 {
            assert(self@ =~= PinMap::empty());
            true
        } else {
            proof {
                lemma_lookup(self.entries@, 0);
                assert(!PinMap::empty().contains_key(self.entries@[0].0@));
            }
            false
        }
    }

    /// Whether `user_id` has an entry.
    pub fn contains_key(&self, user_id: &str) -> (found: bool)
        requires
            self.wf(),
        ensures
            found == self@.contains_key(user_id@),
    {
        let user = user_id.to_owned();
        match self.find_user(&user) {
            Some(i) => {
                proof {
                    lemma_lookup(self.entries@, i as int);
                }
                true
            },
            None => false,
        }
    }

    /// The pinned objects of `user_id`, in pin order, where the user has an entry.
    pub fn get(&self, user_id: &str) -> (objects: Option<&Vec<PinnedObject>>)
        requires
            self.wf(),
        ensures
            match objects {
                Some(v) => self@.contains_key(user_id@) && pins_of(v@) == self@[user_id@],
                None => !self@.contains_key(user_id@),
            },
    {
        let user = user_id.to_owned();
        match self.find_user(&user) {
            Some(i) => {
                proof {
                    lemma_lookup(self.entries@, i as int);
                }
                Some(&self.entries[i].1)
            },
            None => None,
        }
    }

    /// Sets the pinned objects of `user_id`, replacing any it had.
    pub fn insert(&mut self, user_id: String, objects: Vec<PinnedObject>)
        requires
            old(self).wf(),
        ensures
            final(self).wf(),
            final(self)@ == old(self)@.insert(user_id@, pins_of(objects@)),
    {
        match self.find_user(&user_id) {
            Some(i) => {
                proof {
                    lemma_update(self.entries@, i as int, (user_id, objects));
                }
                self.entries.set(i, (user_id, objects));
            },
            None => {
                proof {
                    lemma_push(self.entries@, (user_id, objects));
                }
                self.entries.push((user_id, objects));
            },
        }
    }

    /// The entries of the map, one per user, in no particular order.
    pub fn entries(&self) -> (entries: &Vec<(String, Vec<PinnedObject>)>)
        requires
            self.wf(),
        ensures
            distinct_users(entries@),
            entries_view(entries@) == self@,
    {
        &self.entries
    }
}

/// Whether `objects` holds a pin of the object `id` of kind `kind`.
fn holds_pin(objects: &Vec<PinnedObject>, id: &String, kind: PinnedKind) -> (found: bool)
    ensures
        found == pins_of(objects@).contains(PinKey { id: id@, kind }),
{
    let ghost key = PinKey { id: id@, kind };
    let n = objects.len();
    let mut j: usize = 0;
    while j < n
        invariant
            n == objects@.len(),
            j <= n,
            key == (PinKey { id: id@, kind }),
            forall|k: int| 0 <= k < j ==> pins_of(objects@)[k] != key,
        decreases n - j,
    {
        let same_id = objects[j].id == *id;
        assert(same_id == (objects@[j as int].id@ == id@));
        let same_kind = objects[j].kind == kind;
        assert(same_kind == (objects@[j as int].kind == kind));
        assert(pins_of(objects@)[j as int] == objects@[j as int]@);
        if same_id && same_kind {
            assert(pins_of(objects@)[j as int] == key);
            return true;
        }
        j = j + 1;
    }
    false
}

/// Whether `id` is one of `ids`.
fn is_listed(ids: &[String], id: &String) -> (found: bool)
    ensures
        found == ids_of(ids@).contains(id@),
{
    let n = ids.len();
    let mut j: usize = 0;
    while j < n
        invariant
            n == ids@.len(),
            j <= n,
            forall|k: int| 0 <= k < j ==> ids_of(ids@)[k] != id@,
        decreases n - j,
    {
        if ids[j] == *id {
            assert(ids_of(ids@)[j as int] == id@);
            return true;
        }
        j = j + 1;
    }
    false
}

/// The ids of a list of strings.
pub open spec fn ids_of(ids: Seq<String>) -> Seq<Seq<char>> {
    ids.map_values(|s: String| s@)
}

/// The objects of `objects` that survive unpinning `id` of kind `kind`, in order.
fn without_pin(objects: &Vec<PinnedObject>, id: &String, kind: PinnedKind) -> (kept: Vec<PinnedObject>)
    ensures
        pins_of(kept@) == pins_of(objects@).filter(unpin_filter(id@, kind)),
{
    let ghost keep = unpin_filter(id@, kind);
    let ghost all = pins_of(objects@);
    let mut kept: Vec<PinnedObject> = Vec::new();
    let n = objects.len();
    let mut j: usize = 0;
    while j < n
        invariant
            n == objects@.len(),
            j <= n,
            all == pins_of(objects@),
            keep == unpin_filter(id@, kind),
            pins_of(kept@) == all.take(j as int).filter(keep),
        decreases n - j,
    {
        let ghost next = all.take(j + 1);
        proof {
            reveal(Seq::filter);
        }
        assert(next.drop_last() =~= all.take(j as int));
        assert(next.last() == objects@[j as int]@);
        assert(next.filter(keep) == if keep(next.last()) {
            next.drop_last().filter(keep).push(next.last())
        } else {
            next.drop_last().filter(keep)
        });
        let same_id = objects[j].id == *id;
        let same_kind = objects[j].kind == kind;
        assert(pins_of(objects@)[j as int] == objects@[j as int]@);
        assert(keep(objects@[j as int]@) == !(same_id && same_kind));
        if !(same_id && same_kind) {
            let ghost before = kept@;
            kept.push(copy_object(&objects[j]));
            assert(pins_of(kept@) =~= pins_of(before).push(objects@[j as int]@));
        }
        j = j + 1;
    }
    assert(all.take(n as int) =~= all);
    kept
}

/// The objects of `objects` that survive pruning `kind` down to `valid_ids`, in order.
fn pruned(objects: &Vec<PinnedObject>, kind: PinnedKind, valid_ids: &[String]) -> (kept: Vec<PinnedObject>)
    ensures
        pins_of(kept@) == pins_of(objects@).filter(prune_filter(kind, ids_of(valid_ids@))),
{
    let ghost keep = prune_filter(kind, ids_of(valid_ids@));
    let ghost all = pins_of(objects@);
    let mut kept: Vec<PinnedObject> = Vec::new();
    let n = objects.len();
    let mut j: usize = 0;
    while j < n
        invariant
            n == objects@.len(),
            j <= n,
            all == pins_of(objects@),
            keep == prune_filter(kind, ids_of(valid_ids@)),
            pins_of(kept@) == all.take(j as int).filter(keep),
        decreases n - j,
    {
        let ghost next = all.take(j + 1);
        proof {
            reveal(Seq::filter);
        }
        assert(next.drop_last() =~= all.take(j as int));
        assert(next.last() == objects@[j as int]@);
        assert(next.filter(keep) == if keep(next.last()) {
            next.drop_last().filter(keep).push(next.last())
        } else {
            next.drop_last().filter(keep)
        });
        let other_kind = objects[j].kind != kind;
        let listed = is_listed(valid_ids, &objects[j].id);
        assert(pins_of(objects@)[j as int] == objects@[j as int]@);
        assert(keep(objects@[j as int]@) == (other_kind || listed));
        if other_kind || listed {
            let ghost before = kept@;
            kept.push(copy_object(&objects[j]));
            assert(pins_of(kept@) =~= pins_of(before).push(objects@[j as int]@));
        }
        j = j + 1;
    }
    assert(all.take(n as int) =~= all);
    kept
}

/// Pins `object` for `user_id`, at the end of the user's list. Returns
/// whether it was added: an object that is already pinned is left alone.
pub fn pin_in_map(map: &mut PinnedObjectsByUser, user_id: &str, object: &PinnedObject) -> (added: bool)
    requires
        old(map).wf(),
    ensures
        final(map).wf(),
        added == !spec_is_pinned(old(map)@, user_id@, object@),
        final(map)@ == spec_pin(old(map)@, user_id@, object@),
{
    let user = user_id.to_owned();
    match map.find_user(&user) {
        None => {
            let mut objects: Vec<PinnedObject> = Vec::new();
            objects.push(copy_object(object));
            proof {
                lemma_push(map.entries@, (user, objects));
                assert(pins_of(objects@) =~= Seq::<PinKey>::empty().push(object@));
            }
            map.entries.push((user, objects));
            true
        },
        Some(i) => {
            proof {
                lemma_lookup(map.entries@, i as int);
            }
            if holds_pin(&map.entries[i].1, &object.id, object.kind) {
                return false;
            }
            let mut objects = copy_objects(&map.entries[i].1);
            let ghost before = objects@;
            objects.push(copy_object(object));
            proof {
                assert(pins_of(objects@) =~= pins_of(before).push(object@));
                lemma_update(map.entries@, i as int, (user, objects));
            }
            map.entries.set(i, (user, objects));
            true
        },
    }
}

/// A copy of a list of pinned objects.
fn copy_objects(objects: &Vec<PinnedObject>) -> (copy: Vec<PinnedObject>)
    ensures
        pins_of(copy@) == pins_of(objects@),
{
    let mut copy: Vec<PinnedObject> = Vec::new();
    let n = objects.len();
    let mut j: usize = 0;
    while j < n
        invariant
            n == objects@.len(),
            j <= n,
            pins_of(copy@) =~= pins_of(objects@).take(j as int),
        decreases n - j,
    {
        let ghost before = copy@;
        copy.push(copy_object(&objects[j]));
        assert(pins_of(copy@) =~= pins_of(before).push(objects@[j as int]@));
        assert(pins_of(objects@).take(j + 1) =~= pins_of(objects@).take(j as int).push(
            objects@[j as int]@,
        ));
        j = j + 1;
    }
    copy
}

/// Unpins the object `id` of kind `kind` for `user_id`. A user left
/// without pins loses the entry. Returns whether any pin was removed.
pub fn unpin_from_map(map: &mut PinnedObjectsByUser, user_id: &str, id: &str, kind: PinnedKind) -> (changed: bool)
    requires
        old(map).wf(),
    ensures
        final(map).wf(),
        final(map)@ == spec_unpin(old(map)@, user_id@, id@, kind),
        changed == retain_drops(old(map)@, user_id@, unpin_filter(id@, kind)),
{
    let user = user_id.to_owned();
    let id = id.to_owned();
    match map.find_user(&user) {
        None => false,
        Some(i) => {
            proof {
                lemma_lookup(map.entries@, i as int);
            }
            let kept = without_pin(&map.entries[i].1, &id, kind);
            let changed = kept.len() != map.entries[i].1.len();
            if kept.len() == 0 {
                proof {
                    lemma_remove(map.entries@, i as int);
                }
                map.entries.remove(i);
            } else {
                proof {
                    lemma_update(map.entries@, i as int, (user, kept));
                }
                map.entries.set(i, (user, kept));
            }
            changed
        },
    }
}

/// Drops the pins of `user_id` for objects of `kind` whose ids are not
/// among `valid_ids`. A user left without pins loses the entry. Returns
/// whether any pin was removed.
pub fn prune_user_pins(
    map: &mut PinnedObjectsByUser,
    user_id: &str,
    kind: PinnedKind,
    valid_ids: &[String],
) -> (changed: bool)
    requires
        old(map).wf(),
    ensures
        final(map).wf(),
        final(map)@ == spec_prune(old(map)@, user_id@, kind, ids_of(valid_ids@)),
        changed == retain_drops(old(map)@, user_id@, prune_filter(kind, ids_of(valid_ids@))),
{
    let user = user_id.to_owned();
    match map.find_user(&user) {
        None => false,
        Some(i) => {
            proof {
                lemma_lookup(map.entries@, i as int);
            }
            let kept = pruned(&map.entries[i].1, kind, valid_ids);
            let changed = kept.len() != map.entries[i].1.len();
            if kept.len() == 0 {
                proof {
                    lemma_remove(map.entries@, i as int);
                }
                map.entries.remove(i);
            } else {
                proof {
                    lemma_update(map.entries@, i as int, (user, kept));
                }
                map.entries.set(i, (user, kept));
            }
            changed
        },
    }
}

/// The objects that `user_id` has pinned, in pin order; none for a user without an entry.
pub fn get_pinned_objects(map: &PinnedObjectsByUser, user_id: &str) -> (objects: Vec<PinnedObject>)
    requires
        map.wf(),
    ensures
        pins_of(objects@) == user_pins(map@, user_id@),
{
    match map.get(user_id) {
        Some(objects) => copy_objects(objects),
        None => {
            let objects: Vec<PinnedObject> = Vec::new();
            assert(pins_of(objects@) =~= Seq::<PinKey>::empty());
            objects
        },
    }
}

/// Whether `user_id` has pinned the object `id` of kind `kind`.
pub fn is_object_pinned(map: &PinnedObjectsByUser, user_id: &str, id: &str, kind: PinnedKind) -> (pinned: bool)
    requires
        map.wf(),
    ensures
        pinned == spec_is_pinned(map@, user_id@, PinKey { id: id@, kind }),
{
    let id = id.to_owned();
    match map.get(user_id) {
        Some(objects) => holds_pin(objects, &id, kind),
        None => false,
    }
}

/// Every user with an entry has at least one pin.
pub open spec fn lists_nonempty(m: PinMap) -> bool {
    forall|user: Seq<char>| #[trigger] m.contains_key(user) ==> m[user].len() > 0
}

/// No user has the same pin twice.
pub open spec fn pins_unique(m: PinMap) -> bool {
    forall|user: Seq<char>| #[trigger] m.contains_key(user) ==> m[user].no_duplicates()
}

proof fn lemma_filter_contains(s: Seq<PinKey>, keep: spec_fn(PinKey) -> bool, pin: PinKey)
    ensures
        s.filter(keep).contains(pin) <==> (s.contains(pin) && keep(pin)),
    decreases s.len(),
{
    reveal(Seq::filter);
    if s.len() > 0 {
        let rest = s.drop_last();
        lemma_filter_contains(rest, keep, pin);
        assert(s =~= rest.push(s.last()));
        if s.contains(pin) && pin != s.last() {
            let i = choose|i: int| 0 <= i < s.len() && s[i] == pin;
            assert(rest[i] == pin);
        }
        if rest.contains(pin) {
            let i = choose|i: int| 0 <= i < rest.len() && rest[i] == pin;
            assert(s[i] == pin);
        }
        if keep(s.last()) {
            let f = rest.filter(keep);
            assert(f.push(s.last())[f.len() as int] == s.last());
            if f.contains(pin) {
                let i = choose|i: int| 0 <= i < f.len() && f[i] == pin;
                assert(f.push(s.last())[i] == pin);
            }
            if f.push(s.last()).contains(pin) && pin != s.last() {
                let i = choose|i: int| 0 <= i < f.len() + 1 && f.push(s.last())[i] == pin;
                assert(f[i] == pin);
            }
        }
        assert(s[s.len() - 1] == s.last());
    }
}

proof fn lemma_filter_keeps_all(s: Seq<PinKey>, keep: spec_fn(PinKey) -> bool)
    requires
        forall|i: int| 0 <= i < s.len() ==> keep(#[trigger] s[i]),
    ensures
        s.filter(keep) == s,
    decreases s.len(),
{
    reveal(Seq::filter);
    if s.len() > 0 {
        let rest = s.drop_last();
        assert forall|i: int| 0 <= i < rest.len() implies keep(#[trigger] rest[i]) by {
            assert(s[i] == rest[i]);
        }
        lemma_filter_keeps_all(rest, keep);
        assert(keep(s[s.len() - 1]));
        assert(rest.push(s.last()) =~= s);
    }
}

proof fn lemma_filter_unique(s: Seq<PinKey>, keep: spec_fn(PinKey) -> bool)
    requires
        s.no_duplicates(),
    ensures
        s.filter(keep).no_duplicates(),
    decreases s.len(),
{
    reveal(Seq::filter);
    if s.len() > 0 {
        let rest = s.drop_last();
        assert(rest.no_duplicates()) by {
            assert forall|i: int, j: int|
                0 <= i < rest.len() && 0 <= j < rest.len() && i != j implies rest[i] != rest[j] by {
                assert(s[i] == rest[i] && s[j] == rest[j]);
            }
        }
        lemma_filter_unique(rest, keep);
        let f = rest.filter(keep);
        if keep(s.last()) {
            assert(!rest.contains(s.last())) by {
                if rest.contains(s.last()) {
                    let i = choose|i: int| 0 <= i < rest.len() && rest[i] == s.last();
                    assert(s[i] == s[s.len() - 1]);
                }
            }
            lemma_filter_contains(rest, keep, s.last());
            let g = f.push(s.last());
            assert forall|i: int, j: int| 0 <= i < g.len() && 0 <= j < g.len() && i != j implies g[i]
                != g[j] by {
                if i < f.len() && j < f.len() {
                    assert(g[i] == f[i] && g[j] == f[j]);
                } else if i < f.len() {
                    assert(g[i] == f[i]);
                    assert(f.contains(f[i]));
                } else {
                    assert(g[j] == f[j]);
                    assert(f.contains(f[j]));
                }
            }
        }
    }
}

proof fn lemma_retain_invariants(m: PinMap, user: Seq<char>, keep: spec_fn(PinKey) -> bool)
    ensures
        lists_nonempty(m) ==> lists_nonempty(spec_retain(m, user, keep)),
        pins_unique(m) ==> pins_unique(spec_retain(m, user, keep)),
        forall|other: Seq<char>|
            other != user ==> #[trigger] user_pins(spec_retain(m, user, keep), other) == user_pins(
                m,
                other,
            ),
{
    if pins_unique(m) && m.contains_key(user) {
        lemma_filter_unique(m[user], keep);
    }
}

/// Pinning an object makes it pinned for that user.
pub proof fn lemma_pin_then_pinned(m: PinMap, user: Seq<char>, key: PinKey)
    ensures
        spec_is_pinned(spec_pin(m, user, key), user, key),
{
    if !spec_is_pinned(m, user, key) {
        let l = user_pins(m, user).push(key);
        assert(l[l.len() - 1] == key);
    }
}

/// Pinning twice is the same as pinning once, and the second pin reports no change.
pub proof fn lemma_pin_idempotent(m: PinMap, user: Seq<char>, key: PinKey)
    ensures
        spec_pin(spec_pin(m, user, key), user, key) == spec_pin(m, user, key),
        spec_is_pinned(spec_pin(m, user, key), user, key),
{
    lemma_pin_then_pinned(m, user, key);
}

/// After unpinning an object it is no longer pinned for that user.
pub proof fn lemma_unpin_then_not_pinned(m: PinMap, user: Seq<char>, id: Seq<char>, kind: PinnedKind)
    ensures
        !spec_is_pinned(spec_unpin(m, user, id, kind), user, PinKey { id, kind }),
{
    if m.contains_key(user) {
        lemma_filter_contains(m[user], unpin_filter(id, kind), PinKey { id, kind });
    }
}

/// Unpinning an object leaves every other pin of the user as it was: the kind
/// is part of a pin's identity.
pub proof fn lemma_unpin_keeps_other_pins(
    m: PinMap,
    user: Seq<char>,
    id: Seq<char>,
    kind: PinnedKind,
    other: PinKey,
)
    requires
        other != (PinKey { id, kind }),
    ensures
        spec_is_pinned(spec_unpin(m, user, id, kind), user, other) == spec_is_pinned(m, user, other),
{
    if m.contains_key(user) {
        lemma_filter_contains(m[user], unpin_filter(id, kind), other);
        let f = m[user].filter(unpin_filter(id, kind));
        if f.len() == 0 {
            assert(!f.contains(other));
        }
    }
}

/// Pruning touches only pins of the pruned kind: those whose id is valid stay,
/// the others go; pins of other kinds stay as they were.
pub proof fn lemma_prune_is_kind_scoped(
    m: PinMap,
    user: Seq<char>,
    kind: PinnedKind,
    valid_ids: Seq<Seq<char>>,
    pin: PinKey,
)
    ensures
        pin.kind != kind ==> spec_is_pinned(spec_prune(m, user, kind, valid_ids), user, pin)
            == spec_is_pinned(m, user, pin),
        pin.kind == kind ==> spec_is_pinned(spec_prune(m, user, kind, valid_ids), user, pin) == (
        spec_is_pinned(m, user, pin) && valid_ids.contains(pin.id)),
{
    if m.contains_key(user) {
        lemma_filter_contains(m[user], prune_filter(kind, valid_ids), pin);
        let f = m[user].filter(prune_filter(kind, valid_ids));
        if f.len() == 0 {
            assert(!f.contains(pin));
        }
    }
}

/// Pinning, unpinning and pruning for one user leave every other user's pins as they were.
pub proof fn lemma_other_users_untouched(
    m: PinMap,
    user: Seq<char>,
    other: Seq<char>,
    key: PinKey,
    kind: PinnedKind,
    valid_ids: Seq<Seq<char>>,
)
    requires
        other != user,
    ensures
        user_pins(spec_pin(m, user, key), other) == user_pins(m, other),
        user_pins(spec_unpin(m, user, key.id, key.kind), other) == user_pins(m, other),
        user_pins(spec_prune(m, user, kind, valid_ids), other) == user_pins(m, other),
{
    lemma_retain_invariants(m, user, unpin_filter(key.id, key.kind));
    lemma_retain_invariants(m, user, prune_filter(kind, valid_ids));
}

/// Pinning, unpinning and pruning never leave a user with an empty list,
/// and never give a user the same pin twice.
pub proof fn lemma_ops_keep_map_tidy(
    m: PinMap,
    user: Seq<char>,
    key: PinKey,
    kind: PinnedKind,
    valid_ids: Seq<Seq<char>>,
)
    requires
        lists_nonempty(m),
        pins_unique(m),
    ensures
        lists_nonempty(spec_pin(m, user, key)),
        pins_unique(spec_pin(m, user, key)),
        lists_nonempty(spec_unpin(m, user, key.id, key.kind)),
        pins_unique(spec_unpin(m, user, key.id, key.kind)),
        lists_nonempty(spec_prune(m, user, kind, valid_ids)),
        pins_unique(spec_prune(m, user, kind, valid_ids)),
{
    lemma_retain_invariants(m, user, unpin_filter(key.id, key.kind));
    lemma_retain_invariants(m, user, prune_filter(kind, valid_ids));
    if !spec_is_pinned(m, user, key) {
        let l = user_pins(m, user);
        let l2 = l.push(key);
        let m2 = spec_pin(m, user, key);
        assert forall|u: Seq<char>| #[trigger] m2.contains_key(u) implies m2[u].no_duplicates() by {
            if u == user {
                assert forall|i: int, j: int|
                    0 <= i < l2.len() && 0 <= j < l2.len() && i != j implies l2[i] != l2[j] by {
                    if i < l.len() && j < l.len() {
                        assert(l2[i] == l[i] && l2[j] == l[j]);
                    } else if i < l.len() {
                        assert(l2[i] == l[i]);
                    } else {
                        assert(l2[j] == l[j]);
                    }
                }
            }
        }
    }
}

/// Unpinning an object that was just pinned gives back the map as it was,
/// when the object was not pinned before and no user had an empty list.
pub proof fn lemma_unpin_undoes_pin(m: PinMap, user: Seq<char>, key: PinKey)
    requires
        !spec_is_pinned(m, user, key),
        lists_nonempty(m),
    ensures
        spec_unpin(spec_pin(m, user, key), user, key.id, key.kind) == m,
{
    let keep = unpin_filter(key.id, key.kind);
    let l = user_pins(m, user);
    let l2 = l.push(key);
    assert forall|i: int| 0 <= i < l.len() implies keep(#[trigger] l[i]) by {
        if !keep(l[i]) {
            assert(l[i] == key);
        }
    }
    lemma_filter_keeps_all(l, keep);
    reveal(Seq::filter);
    assert(l2.drop_last() =~= l);
    assert(l2.filter(keep) == l);
    let m2 = spec_pin(m, user, key);
    assert(m2[user] == l2);
    if m.contains_key(user) {
        assert(spec_unpin(m2, user, key.id, key.kind) =~= m);
    } else {
        assert(spec_unpin(m2, user, key.id, key.kind) =~= m);
    }
}

} // verus!
