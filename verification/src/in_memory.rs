//! A key/value area that lives in memory, with the operations of the
//! state store: create-or-replace, read, delete, and the listing of a
//! namespace and of the namespaces.

use vstd::prelude::*;
use crate::ids::{parsed_uuid, RequestId, UserId};
use crate::storage::{context_namespace_user, tasks_in_namespace, unique_tasks};
use crate::text::views_of;

verus! {

/// One record: a value under a namespace and a key.
struct Entry {
    prefix: String,
    key: String,
    value: String,
}

/// The address of a record: its namespace and its key.
pub type Address = (Seq<char>, Seq<char>);

/// A store in memory. It holds at most one value under each namespace and
/// key, and a namespace exists as long as it holds a record.
pub struct InMemoryStorage {
    entries: Vec<Entry>,
}

/// The store under the name that tells where it keeps its records.
pub type MemoryBasedStorage = InMemoryStorage;

/// `index` is a place in `entries` that holds the record at `address`.
spec fn holds_at(entries: Seq<Entry>, address: Address, index: int) -> bool {
    0 <= index < entries.len() && entries[index].prefix@ == address.0 && entries[index].key@
        == address.1
}

/// Two records lie at the same address.
spec fn same_address(one: Entry, other: Entry) -> bool {
    one.prefix@ == other.prefix@ && one.key@ == other.key@
}

/// No two of `entries` have the same address.
spec fn distinct(entries: Seq<Entry>) -> bool {
    forall|i: int, j: int|
        0 <= i < entries.len() && 0 <= j < entries.len() && i != j ==> !same_address(
            #[trigger] entries[i],
            #[trigger] entries[j],
        )
}

impl View for InMemoryStorage {
    type V = Map<Address, Seq<char>>;

    /// The value under each address that has one.
    closed spec fn view(&self) -> Map<Address, Seq<char>> {
        Map::new(
            |address: Address| exists|index: int| holds_at(self.entries@, address, index),
            |address: Address|
                self.entries@[choose|index: int| holds_at(self.entries@, address, index)].value@,
        )
    }
}

/// The namespace `prefix` holds contexts of `user`, and one of its keys
/// reads as the identifier of `request`.
pub open spec fn task_under(
    store: Map<Address, Seq<char>>,
    prefix: Seq<char>,
    user: UserId,
    request: RequestId,
) -> bool {
    &&& context_namespace_user(prefix) == Some(user)
    &&& exists|key: Seq<char>|
        #![trigger store.contains_key((prefix, key))]
        store.contains_key((prefix, key)) && parsed_uuid(key) == Some(request.0)
}

/// `store` holds a context of `request` for `user`.
pub open spec fn is_task(store: Map<Address, Seq<char>>, user: UserId, request: RequestId) -> bool {
    exists|prefix: Seq<char>| task_under(store, prefix, user, request)
}

/// `name` is among `names`.
pub open spec fn listed(names: Seq<String>, name: Seq<char>) -> bool {
    exists|k: int| 0 <= k < names.len() && (#[trigger] names[k])@ == name
}

/// One of the first `count` of `entries` lies in the namespace `name`.
spec fn named_before(entries: Seq<Entry>, count: int, name: Seq<char>) -> bool {
    exists|e: int| 0 <= e < count && (#[trigger] entries[e]).prefix@ == name
}

/// The keys of `store` under the namespace `prefix`.
pub open spec fn keys_under(store: Map<Address, Seq<char>>, prefix: Seq<char>) -> Set<Seq<char>> {
    Set::new(|key: Seq<char>| store.contains_key((prefix, key)))
}

/// The namespaces of `store`: those that hold a record.
pub open spec fn namespaces_of(store: Map<Address, Seq<char>>) -> Set<Seq<char>> {
    Set::new(|prefix: Seq<char>| exists|key: Seq<char>| store.contains_key((prefix, key)))
}

impl InMemoryStorage {
    /// The invariant of the store: no address occurs twice.
    pub closed spec fn wf(&self) -> bool {
        distinct(self.entries@)
    }

    proof fn lemma_view_at(&self, index: int)
        requires
            self.wf(),
            0 <= index < self.entries@.len(),
        ensures
            self@.contains_key((self.entries@[index].prefix@, self.entries@[index].key@)),
            self@[(self.entries@[index].prefix@, self.entries@[index].key@)]
                == self.entries@[index].value@,
    {
        let address = (self.entries@[index].prefix@, self.entries@[index].key@);
        assert(holds_at(self.entries@, address, index));
    }

    /// An empty store.
    pub fn new() -> (storage: Self)
        ensures
            storage.wf(),
            storage@ == Map::<Address, Seq<char>>::empty(),
    {
        InMemoryStorage { entries: Vec::new() }
    }

    /// Where the record under `prefix` and `key` lies, if there is one.
    fn find(&self, prefix: &String, key: &String) -> (found: Option<usize>)
        requires
            self.wf(),
        ensures
            match found {
                Some(index) => holds_at(self.entries@, (prefix@, key@), index as int),
                None => !self@.contains_key((prefix@, key@)),
            },
    {
        let mut i: usize = 0;
        while i < self.entries.len()
            invariant
                i <= self.entries.len(),
                forall|earlier: int|
                    0 <= earlier < i ==> !holds_at(self.entries@, (prefix@, key@), earlier),
            decreases self.entries.len() - i,
        {
            if self.entries[i].prefix == *prefix && self.entries[i].key == *key {
                return Some(i);
            }
            i += 1;
        }
        None
    }

    /// Creates or replaces the value under `prefix` and `key`.
    pub fn save(&mut self, prefix: &str, key: &str, value: &str)
        requires
            old(self).wf(),
        ensures
            final(self).wf(),
            final(self)@ == old(self)@.insert((prefix@, key@), value@),
    {
        let prefix = String::from_str(prefix);
        let key = String::from_str(key);
        let value = String::from_str(value);
        let ghost address = (prefix@, key@);
        match self.find(&prefix, &key) {
            Some(index) => {
                self.entries[index].value = value;
                proof {
                    assert forall|other: Address|
                        self@.contains_key(other) == old(self)@.insert(
                            address,
                            value@,
                        ).contains_key(other) by {
                        if self@.contains_key(other) {
                            let i = choose|i: int| holds_at(self.entries@, other, i);
                            assert(holds_at(old(self).entries@, other, i));
                        }
                        if old(self)@.contains_key(other) {
                            let i = choose|i: int| holds_at(old(self).entries@, other, i);
                            assert(holds_at(self.entries@, other, i));
                        }
                    }
                }
            },
            None => {
                self.entries.push(Entry { prefix, key, value });
                proof {
                    let last = old(self).entries@.len() as int;
                    assert forall|i: int, j: int|
                        0 <= i < self.entries@.len() && 0 <= j < self.entries@.len() && i
                            != j implies !same_address(
                        #[trigger] self.entries@[i],
                        #[trigger] self.entries@[j],
                    ) by {
                        if same_address(self.entries@[i], self.entries@[j]) {
                            if i == last && j < last {
                                assert(holds_at(old(self).entries@, address, j));
                            } else if j == last && i < last {
                                assert(holds_at(old(self).entries@, address, i));
                            }
                        }
                    }
                    assert forall|other: Address|
                        self@.contains_key(other) == old(self)@.insert(
                            address,
                            value@,
                        ).contains_key(other) by {
                        if self@.contains_key(other) {
                            let i = choose|i: int| holds_at(self.entries@, other, i);
                            if i < last {
                                assert(holds_at(old(self).entries@, other, i));
                            }
                        }
                        if old(self)@.contains_key(other) {
                            let i = choose|i: int| holds_at(old(self).entries@, other, i);
                            assert(holds_at(self.entries@, other, i));
                        }
                        if other == address {
                            assert(holds_at(self.entries@, other, last));
                        }
                    }
                }
            },
        }
    }

    /// The value under `prefix` and `key`, if there is one.
    pub fn get(&self, prefix: &str, key: &str) -> (value: Option<String>)
        requires
            self.wf(),
        ensures
            match value {
                Some(text) => self@.contains_key((prefix@, key@)) && self@[(prefix@, key@)]
                    == text@,
                None => !self@.contains_key((prefix@, key@)),
            },
    {
        let prefix = String::from_str(prefix);
        let key = String::from_str(key);
        match self.find(&prefix, &key) {
            Some(index) => Some(self.entries[index].value.clone()),
            None => None,
        }
    }

    /// Deletes the value under `prefix` and `key`. Deleting what is not
    /// there changes nothing.
    pub fn delete(&mut self, prefix: &str, key: &str)
        requires
            old(self).wf(),
        ensures
            final(self).wf(),
            final(self)@ == old(self)@.remove((prefix@, key@)),
    {
        let prefix = String::from_str(prefix);
        let key = String::from_str(key);
        let ghost address = (prefix@, key@);
        match self.find(&prefix, &key) {
            Some(index) => {
                self.entries.remove(index);
                proof {
                    let gone = index as int;
                    assert forall|other: Address|
                        self@.contains_key(other) == old(self)@.remove(address).contains_key(
                            other,
                        ) by {
                        if self@.contains_key(other) {
                            let i = choose|i: int| holds_at(self.entries@, other, i);
                            let oi = if i < gone { i } else { i + 1 };
                            assert(holds_at(old(self).entries@, other, oi));
                        }
                        if old(self)@.contains_key(other) && other != address {
                            let oi = choose|i: int| holds_at(old(self).entries@, other, i);
                            let i = if oi < gone { oi } else { oi - 1 };
                            assert(holds_at(self.entries@, other, i));
                        }
                    }
                }
            },
            None => {},
        }
    }

    /// The records of the namespace `prefix`, each as its key and its
    /// value; `None` where the namespace holds none. No key occurs twice.
    pub fn get_all(&self, prefix: &str) -> (records: Option<Vec<(String, String)>>)
        requires
            self.wf(),
        ensures
            match records {
                Some(list) => {
                    &&& list.len() > 0
                    &&& forall|i: int|
                        0 <= i < list.len() ==> self@.contains_key((prefix@, (#[trigger] list[i]).0@))
                            && self@[(prefix@, list[i].0@)] == list[i].1@
                    &&& forall|key: Seq<char>|
                        self@.contains_key((prefix@, key)) ==> exists|i: int|
                            0 <= i < list.len() && (#[trigger] list[i]).0@ == key
                    &&& forall|i: int, j: int|
                        0 <= i < j < list.len() ==> (#[trigger] list[i]).0@ != (#[trigger] list[j]).0@
                },
                None => keys_under(self@, prefix@) == Set::<Seq<char>>::empty(),
            },
    {
        let prefix = String::from_str(prefix);
        let mut list: Vec<(String, String)> = Vec::new();
        let ghost mut origin: Seq<int> = Seq::empty();
        let mut i: usize = 0;
        while i < self.entries.len()
            invariant
                self.wf(),
                i <= self.entries.len(),
                origin.len() == list.len(),
                forall|k: int|
                    0 <= k < list.len() ==> 0 <= #[trigger] origin[k] < i && self.entries@[origin[k]].prefix@
                        == prefix@ && self.entries@[origin[k]].key@ == list[k].0@
                        && self.entries@[origin[k]].value@ == list[k].1@,
                forall|k: int, l: int| 0 <= k < l < list.len() ==> origin[k] < origin[l],
                forall|e: int|
                    0 <= e < i && self.entries@[e].prefix@ == prefix@ ==> exists|k: int|
                        0 <= k < list.len() && #[trigger] origin[k] == e,
            decreases self.entries.len() - i,
        {
            if self.entries[i].prefix == prefix {
                list.push((self.entries[i].key.clone(), self.entries[i].value.clone()));
                proof {
                    let ghost before = origin;
                    origin = origin.push(i as int);
                    assert forall|e: int|
                        0 <= e < i + 1 && self.entries@[e].prefix@ == prefix@ implies exists|k: int|
                        0 <= k < list.len() && #[trigger] origin[k] == e by {
                        if e < i {
                            let k = choose|k: int| 0 <= k < before.len() && #[trigger] before[k] == e;
                            assert(origin[k] == e);
                        } else {
                            assert(origin[list.len() - 1] == e);
                        }
                    }
                }
            }
            i += 1;
        }
        if list.len() == 0 {
            None
        } else {
            proof {
                assert forall|k: int| 0 <= k < list.len() implies self@.contains_key(
                    (prefix@, (#[trigger] list[k]).0@),
                ) && self@[(prefix@, list[k].0@)] == list[k].1@ by {
                    self.lemma_view_at(origin[k]);
                }
                assert forall|k: int, l: int| 0 <= k < l < list.len() implies (#[trigger] list[k]).0@
                    != (#[trigger] list[l]).0@ by {
                    assert(origin[k] < origin[l]);
                }
            }
            Some(list)
        }
    }

    /// The names of the namespaces, each once.
    pub fn get_prefixes(&self) -> (names: Vec<String>)
        requires
            self.wf(),
        ensures
            forall|i: int| 0 <= i < names.len() ==> namespaces_of(self@).contains(#[trigger] names[i]@),
            forall|prefix: Seq<char>|
                namespaces_of(self@).contains(prefix) ==> listed(names@, prefix),
            forall|i: int, j: int|
                0 <= i < j < names.len() ==> (#[trigger] names[i])@ != (#[trigger] names[j])@,
    {
        let mut names: Vec<String> = Vec::new();
        let mut i: usize = 0;
        while i < self.entries.len()
            invariant
                self.wf(),
                i <= self.entries.len(),
                forall|k: int|
                    0 <= k < names.len() ==> named_before(self.entries@, i as int, (#[trigger] names[k])@),
                forall|e: int|
                    0 <= e < i ==> listed(names@, (#[trigger] self.entries@[e]).prefix@),
                forall|k: int, l: int|
                    0 <= k < l < names.len() ==> (#[trigger] names[k])@ != (#[trigger] names[l])@,
            decreases self.entries.len() - i,
        {
            let mut known = false;
            let mut k: usize = 0;
            while k < names.len()
                invariant
                    k <= names.len(),
                    i < self.entries.len(),
                    known == listed(names@.take(k as int), self.entries@[i as int].prefix@),
                decreases names.len() - k,
            {
                if names[k] == self.entries[i].prefix {
                    known = true;
                }
                proof {
                    let name = self.entries@[i as int].prefix@;
                    let longer = names@.take(k + 1);
                    if names[k as int]@ == name {
                        assert(longer[k as int]@ == name);
                    }
                }
                k += 1;
            }
            proof {
                assert(names@.take(names.len() as int) == names@);
            }
            let ghost before = names@;
            if !known {
                names.push(self.entries[i].prefix.clone());
            }
            proof {
                assert forall|e: int| 0 <= e < i + 1 implies listed(
                    names@,
                    (#[trigger] self.entries@[e]).prefix@,
                ) by {
                    let name = self.entries@[e].prefix@;
                    if listed(before, name) {
                        let k = choose|k: int| 0 <= k < before.len() && (#[trigger] before[k])@ == name;
                        assert(names@[k]@ == name);
                    } else {
                        assert(names@[names.len() - 1]@ == name);
                    }
                }
            }
            i += 1;
        }
        proof {
            assert forall|k: int| 0 <= k < names.len() implies namespaces_of(self@).contains(
                #[trigger] names[k]@,
            ) by {
                let e = choose|e: int|
                    0 <= e < self.entries@.len() && (#[trigger] self.entries@[e]).prefix@
                        == names[k]@;
                self.lemma_view_at(e);
            }
        }
        names
    }

    /// The tasks that the store stands for: one for each context it
    /// holds, that is for each record in a namespace of contexts whose
    /// key reads as the identifier of a request.
    pub fn get_all_tasks(&self) -> (tasks: Vec<(UserId, RequestId)>)
        requires
            self.wf(),
        ensures
            forall|user: UserId, request: RequestId|
                #[trigger] tasks@.contains((user, request)) <==> is_task(self@, user, request),
            forall|i: int, j: int| 0 <= i < j < tasks.len() ==> tasks[i] != tasks[j],
    {
        let names = self.get_prefixes();
        let mut tasks: Vec<(UserId, RequestId)> = Vec::new();
        let mut n: usize = 0;
        while n < names.len()
            invariant
                self.wf(),
                n <= names.len(),
                forall|i: int|
                    0 <= i < names.len() ==> namespaces_of(self@).contains(#[trigger] names[i]@),
                forall|user: UserId, request: RequestId|
                    #[trigger] tasks@.contains((user, request)) <==> exists|i: int|
                        0 <= i < n && task_under(self@, (#[trigger] names[i])@, user, request),
            decreases names.len() - n,
        {
            let name = names[n].as_str();
            let mut keys: Vec<String> = Vec::new();
            match self.get_all(name) {
                Some(records) => {
                    let mut r: usize = 0;
                    while r < records.len()
                        invariant
                            r <= records.len(),
                            keys.len() == r,
                            forall|i: int| 0 <= i < r ==> (#[trigger] keys[i])@ == records[i].0@,
                        decreases records.len() - r,
                    {
                        keys.push(records[r].0.clone());
                        r += 1;
                    }
                    proof {
                        assert forall|key: Seq<char>| self@.contains_key((name@, key)) <==> exists|
                            i: int,
                        | 0 <= i < keys.len() && #[trigger] views_of(keys@)[i] == key by {
                            if self@.contains_key((name@, key)) {
                                let i = choose|i: int|
                                    0 <= i < records.len() && (#[trigger] records[i]).0@ == key;
                                assert(views_of(keys@)[i] == key);
                            }
                        }
                    }
                },
                None => {
                    proof {
                        assert forall|key: Seq<char>| !self@.contains_key((name@, key)) by {
                            assert(!keys_under(self@, name@).contains(key));
                        }
                    }
                },
            }
            let found = tasks_in_namespace(name, &keys);
            let ghost before = tasks@;
            let ghost texts = views_of(keys@);
            let mut f: usize = 0;
            while f < found.len()
                invariant
                    f <= found.len(),
                    tasks@ == before + found@.take(f as int),
                decreases found.len() - f,
            {
                tasks.push(found[f]);
                f += 1;
            }
            proof {
                assert forall|user: UserId, request: RequestId|
                    #[trigger] found@.contains((user, request)) <==> task_under(
                        self@,
                        name@,
                        user,
                        request,
                    ) by {
                    crate::storage::lemma_requests_among_are_read(
                        texts,
                        texts.len() as int,
                        request,
                    );
                    let among = crate::storage::requests_among(texts, texts.len() as int);
                    if task_under(self@, name@, user, request) {
                        let at = choose|at: int| 0 <= at < among.len() && among[at] == request;
                        assert(found@[at] == (user, request));
                    }
                }
                assert forall|user: UserId, request: RequestId|
                    #[trigger] tasks@.contains((user, request)) <==> exists|i: int|
                        0 <= i < n + 1 && task_under(self@, (#[trigger] names[i])@, user, request) by {
                    let task = (user, request);
                    if tasks@.contains(task) {
                        let at = choose|at: int| 0 <= at < tasks@.len() && tasks@[at] == task;
                        if at < before.len() {
                            assert(before[at] == task);
                        } else {
                            assert(found@.contains(task));
                        }
                    }
                    if exists|i: int|
                        0 <= i < n + 1 && task_under(self@, (#[trigger] names[i])@, user, request) {
                        let i = choose|i: int|
                            0 <= i < n + 1 && task_under(self@, (#[trigger] names[i])@, user, request);
                        if i < n {
                            assert(before.contains(task));
                            let at = choose|at: int| 0 <= at < before.len() && before[at] == task;
                            assert(tasks@[at] == task);
                        } else {
                            assert(found@.contains(task));
                            let at = choose|at: int| 0 <= at < found@.len() && found@[at] == task;
                            assert(tasks@[before.len() + at] == task);
                        }
                    }
                }
            }
            n += 1;
        }
        let found = tasks;
        let tasks = unique_tasks(&found);
        proof {
            crate::storage::lemma_first_occurrences_are_the_tasks_once(
                found@,
                found.len() as int,
            );
            assert forall|user: UserId, request: RequestId|
                #[trigger] tasks@.contains((user, request)) <==> found@.contains(
                    (user, request),
                ) by {}
            assert forall|user: UserId, request: RequestId|
                #[trigger] tasks@.contains((user, request)) <==> is_task(self@, user, request) by {
                if is_task(self@, user, request) {
                    let prefix = choose|prefix: Seq<char>| task_under(self@, prefix, user, request);
                    assert(listed(names@, prefix));
                }
            }
        }
        tasks
    }
}

} // verus!
