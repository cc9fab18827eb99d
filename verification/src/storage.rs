//! The key/value area that holds the records of requests, and the names
//! under which they are kept.
//!
//! A record lives under a namespace and a key. Each user has three
//! namespaces, for contexts, states and statuses; the key is the
//! canonical text of the request's identifier.

use vstd::prelude::*;
use crate::adapters::StateStorageError;
use crate::ids::{hyphenated, parsed_uuid, RequestId, UserId};
use crate::text::{
    before_suffix, decimal, decimal_text, digits_value, ends_with, has_suffix, is_digit,
    parse_u64, parsed_u64,
};

verus! {

/// The namespace of the contexts of `user`.
pub open spec fn context_namespace_spec(user: UserId) -> Seq<char> {
    decimal(user.0 as nat) + "-ctx"@
}

/// The namespace of the states of `user`.
pub open spec fn state_namespace_spec(user: UserId) -> Seq<char> {
    decimal(user.0 as nat) + "-state"@
}

/// The namespace of the statuses of `user`.
pub open spec fn status_namespace_spec(user: UserId) -> Seq<char> {
    decimal(user.0 as nat) + "-status"@
}

/// The user whose contexts the namespace `name` holds: `name` ends in
/// `-ctx`, and what stands before that ending reads as the user's number.
/// `None` of every other name.
pub open spec fn context_namespace_user(name: Seq<char>) -> Option<UserId> {
    if has_suffix(name, "-ctx"@) {
        match parsed_u64(before_suffix(name, "-ctx"@)) {
            Some(user) => Some(UserId(user)),
            None => None,
        }
    } else {
        None
    }
}

/// The requests among the first `count` of `keys`: each key that reads as
/// an identifier gives one, in order; the others are passed over.
pub open spec fn requests_among(keys: Seq<Seq<char>>, count: int) -> Seq<RequestId>
    decreases count,
{
    if count <= 0 {
        Seq::empty()
    } else {
        let earlier = requests_among(keys, count - 1);
        match parsed_uuid(keys[count - 1]) {
            Some(value) => earlier.push(RequestId(value)),
            None => earlier,
        }
    }
}

/// The tasks that a namespace named `name` with the keys `keys` stands
/// for: one for each request among the keys, for the user of the
/// namespace; none where the namespace holds no contexts.
pub open spec fn tasks_in_namespace_spec(name: Seq<char>, keys: Seq<Seq<char>>) -> Seq<
    (UserId, RequestId),
> {
    match context_namespace_user(name) {
        Some(user) => requests_among(keys, keys.len() as int).map_values(
            |request: RequestId| (user, request),
        ),
        None => Seq::empty(),
    }
}

/// A request is among the first `count` of `keys` exactly if one of those
/// keys reads as its identifier.
pub proof fn lemma_requests_among_are_read(keys: Seq<Seq<char>>, count: int, request: RequestId)
    requires
        0 <= count <= keys.len(),
    ensures
        requests_among(keys, count).contains(request) <==> exists|i: int|
            0 <= i < count && parsed_uuid(#[trigger] keys[i]) == Some(request.0),
    decreases count,
{
    if count > 0 {
        lemma_requests_among_are_read(keys, count - 1, request);
        let earlier = requests_among(keys, count - 1);
        let all = requests_among(keys, count);
        if exists|i: int| 0 <= i < count && parsed_uuid(#[trigger] keys[i]) == Some(request.0) {
            let i = choose|i: int|
                0 <= i < count && parsed_uuid(#[trigger] keys[i]) == Some(request.0);
            if i < count - 1 {
                let at = choose|at: int| 0 <= at < earlier.len() && earlier[at] == request;
                assert(all[at] == request);
            } else {
                assert(all[all.len() - 1] == request);
            }
        }
    }
}

/// The name of the namespace that holds the contexts of `user`.
pub fn context_namespace(user: &UserId) -> (name: String)
    ensures
        name@ == context_namespace_spec(*user),
{
    decimal_text(user.0).concat("-ctx")
}

/// The name of the namespace that holds the states of `user`.
pub fn state_namespace(user: &UserId) -> (name: String)
    ensures
        name@ == state_namespace_spec(*user),
{
    decimal_text(user.0).concat("-state")
}

/// The name of the namespace that holds the statuses of `user`.
pub fn status_namespace(user: &UserId) -> (name: String)
    ensures
        name@ == status_namespace_spec(*user),
{
    decimal_text(user.0).concat("-status")
}

/// The key of the records of `request`.
pub fn request_key(request: &RequestId) -> (key: String)
    ensures
        key@ == hyphenated(request.0),
        parsed_uuid(key@) == Some(request.0),
{
    request.to_text()
}

/// Reads the user out of the name of a namespace of contexts.
pub fn user_of_context_namespace(name: &str) -> (user: Option<UserId>)
    ensures
        user == context_namespace_user(name@),
{
    if ends_with(name, "-ctx") {
        let length = name.unicode_len();
        let ending = "-ctx".unicode_len();
        match parse_u64(name.substring_char(0, length - ending)) {
            Some(user) => Some(UserId(user)),
            None => None,
        }
    } else {
        None
    }
}

/// The tasks that one namespace stands for, given its name and its keys.
pub fn tasks_in_namespace(name: &str, keys: &Vec<String>) -> (tasks: Vec<(UserId, RequestId)>)
    ensures
        tasks@ == tasks_in_namespace_spec(name@, crate::text::views_of(keys@)),
{
    let ghost texts = crate::text::views_of(keys@);
    let mut tasks: Vec<(UserId, RequestId)> = Vec::new();
    let user = match user_of_context_namespace(name) {
        Some(user) => user,
        None => { return tasks; },
    };
    let mut i: usize = 0;
    while i < keys.len()
        invariant
            i <= keys.len(),
            texts == crate::text::views_of(keys@),
            context_namespace_user(name@) == Some(user),
            tasks@ == requests_among(texts, i as int).map_values(
                |request: RequestId| (user, request),
            ),
        decreases keys.len() - i,
    {
        match RequestId::parse(keys[i].as_str()) {
            Some(request) => {
                tasks.push((user, request));
            },
            None => {},
        }
        i += 1;
    }
    tasks
}

/// `index` is the first place in `keys` whose key does not read as an
/// identifier.
pub open spec fn is_first_foreign_key(keys: Seq<Seq<char>>, index: int) -> bool {
    &&& 0 <= index < keys.len()
    &&& parsed_uuid(keys[index]) is None
    &&& forall|earlier: int| 0 <= earlier < index ==> parsed_uuid(#[trigger] keys[earlier]) is Some
}

/// Reads the requests out of the keys of a namespace of statuses. Every
/// key has to read as an identifier: the first that does not is an error,
/// which names it.
pub fn request_ids(keys: &Vec<String>) -> (ids: Result<Vec<RequestId>, StateStorageError>)
    ensures
        match ids {
            Ok(list) => list.len() == keys.len() && forall|i: int|
                0 <= i < keys.len() ==> parsed_uuid((#[trigger] keys[i])@) == Some(list[i].0),
            Err(error) => exists|i: int|
                is_first_foreign_key(crate::text::views_of(keys@), i) && error@
                    == "invalid request identifier: "@ + (#[trigger] keys[i])@,
        },
{
    let ghost texts = crate::text::views_of(keys@);
    let mut list: Vec<RequestId> = Vec::new();
    let mut i: usize = 0;
    while i < keys.len()
        invariant
            i <= keys.len(),
            list.len() == i,
            texts == crate::text::views_of(keys@),
            forall|j: int| 0 <= j < i ==> parsed_uuid((#[trigger] keys[j])@) == Some(list[j].0),
        decreases keys.len() - i,
    {
        match RequestId::parse(keys[i].as_str()) {
            Some(request) => {
                list.push(request);
            },
            None => {
                let mut message = String::from_str("invalid request identifier: ");
                message.append(keys[i].as_str());
                return Err(StateStorageError(message));
            },
        }
        i += 1;
    }
    Ok(list)
}

/// The first occurrences among the first `count` of `tasks`, in order.
pub open spec fn first_occurrences(tasks: Seq<(UserId, RequestId)>, count: int) -> Seq<
    (UserId, RequestId),
>
    decreases count,
{
    if count <= 0 {
        Seq::empty()
    } else {
        let earlier = first_occurrences(tasks, count - 1);
        if earlier.contains(tasks[count - 1]) {
            earlier
        } else {
            earlier.push(tasks[count - 1])
        }
    }
}

/// The first occurrences hold each of the tasks, and none twice.
pub proof fn lemma_first_occurrences_are_the_tasks_once(
    tasks: Seq<(UserId, RequestId)>,
    count: int,
)
    requires
        0 <= count <= tasks.len(),
    ensures
        forall|i: int, j: int|
            0 <= i < j < first_occurrences(tasks, count).len() ==> first_occurrences(
                tasks,
                count,
            )[i] != first_occurrences(tasks, count)[j],
        forall|task: (UserId, RequestId)|
            #[trigger] first_occurrences(tasks, count).contains(task) <==> exists|i: int|
                0 <= i < count && tasks[i] == task,
    decreases count,
{
    if count > 0 {
        lemma_first_occurrences_are_the_tasks_once(tasks, count - 1);
        let earlier = first_occurrences(tasks, count - 1);
        let all = first_occurrences(tasks, count);
        assert forall|task: (UserId, RequestId)| #[trigger] all.contains(task) <==> exists|i: int|
            0 <= i < count && tasks[i] == task by {
            if all.contains(task) {
                let at = choose|at: int| 0 <= at < all.len() && all[at] == task;
                if at < earlier.len() {
                    assert(earlier.contains(task));
                }
            }
            if exists|i: int| 0 <= i < count && tasks[i] == task {
                let i = choose|i: int| 0 <= i < count && tasks[i] == task;
                if i < count - 1 {
                    assert(earlier.contains(task));
                    let at = choose|at: int| 0 <= at < earlier.len() && earlier[at] == task;
                    assert(all[at] == task);
                } else if !earlier.contains(task) {
                    assert(all[all.len() - 1] == task);
                }
            }
        }
    }
}

/// Drops from `tasks` what occurred before, so that no request is taken
/// up twice.
pub fn unique_tasks(tasks: &Vec<(UserId, RequestId)>) -> (unique: Vec<(UserId, RequestId)>)
    ensures
        unique@ == first_occurrences(tasks@, tasks.len() as int),
{
    let mut unique: Vec<(UserId, RequestId)> = Vec::new();
    let mut i: usize = 0;
    while i < tasks.len()
        invariant
            i <= tasks.len(),
            unique@ == first_occurrences(tasks@, i as int),
        decreases tasks.len() - i,
    {
        let task = tasks[i];
        let mut known = false;
        let mut k: usize = 0;
        while k < unique.len()
            invariant
                k <= unique.len(),
                known == exists|at: int| 0 <= at < k && unique@[at] == task,
            decreases unique.len() - k,
        {
            if unique[k].0.0 == task.0.0 && unique[k].1.0 == task.1.0 {
                known = true;
            }
            k += 1;
        }
        if !known {
            unique.push(task);
        }
        i += 1;
    }
    unique
}

/// Where a store on disk keeps its records: below one root directory, a
/// directory for each namespace and in it a file for each key.
pub struct OnDiskStorage {
    pub path: String,
}

impl OnDiskStorage {
    /// A store that keeps its records below the directory `path`.
    pub fn create(path: String) -> (storage: Self)
        ensures
            storage.path == path,
    {
        Self { path }
    }

    /// The directory of the namespace `prefix`.
    pub fn directory_path(&self, prefix: &str) -> (path: String)
        ensures
            path@ == self.path@ + "/"@ + prefix@,
    {
        let mut path = self.path.clone();
        path.append("/");
        path.append(prefix);
        path
    }

    /// The file of the record under `prefix` and `key`.
    pub fn file_path(&self, prefix: &str, key: &str) -> (path: String)
        ensures
            path@ == self.path@ + "/"@ + prefix@ + "/"@ + key@,
    {
        let mut path = self.directory_path(prefix);
        path.append("/");
        path.append(key);
        path
    }
}

/// The numeral of a number is made of digits, at least one.
pub proof fn lemma_decimal_is_digits(value: nat)
    ensures
        decimal(value).len() > 0,
        forall|i: int| 0 <= i < decimal(value).len() ==> is_digit(#[trigger] decimal(value)[i]),
    decreases value,
{
    if value >= 10 {
        lemma_decimal_is_digits(value / 10);
    }
}

/// The numeral of a number writes that number.
pub proof fn lemma_decimal_writes_its_number(value: nat)
    ensures
        digits_value(decimal(value)) == value,
    decreases value,
{
    if value < 10 {
        assert(digits_value(decimal(value).drop_last()) == 0);
    } else {
        lemma_decimal_writes_its_number(value / 10);
        assert(decimal(value).drop_last() == decimal(value / 10));
    }
}

/// The namespace of a user's contexts is read back as that user's: what
/// is written for a user is found again for the same user.
pub proof fn lemma_context_namespace_names_its_user(user: UserId)
    ensures
        context_namespace_user(context_namespace_spec(user)) == Some(user),
{
    let numeral = decimal(user.0 as nat);
    let suffix = "-ctx"@;
    let name = numeral + suffix;
    lemma_decimal_is_digits(user.0 as nat);
    lemma_decimal_writes_its_number(user.0 as nat);
    assert(name.subrange(name.len() - suffix.len(), name.len() as int) == suffix);
    assert(before_suffix(name, suffix) == numeral);
    assert(is_digit(numeral[0]));
}

/// A context that is stored for a request of a user is one task of that
/// user's namespace of contexts: the key of the request reads as the
/// request, so the recovery takes it up for the same user.
pub proof fn lemma_stored_context_is_a_task(user: UserId, request: RequestId, key: Seq<char>)
    requires
        parsed_uuid(key) == Some(request.0),
    ensures
        tasks_in_namespace_spec(context_namespace_spec(user), seq![key]) == seq![(user, request)],
{
    lemma_context_namespace_names_its_user(user);
    let keys = seq![key];
    assert(requests_among(keys, 0) == Seq::<RequestId>::empty());
}

} // verus!
