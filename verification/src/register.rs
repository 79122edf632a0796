use vstd::prelude::*;
use crate::form::FormData;
use crate::registry::Registry;
use crate::rejection::{handle_rejection, Rejection};
use crate::response::{Response, STATUS_BAD_REQUEST, STATUS_OK};
use vstd::pervasive::unreached;

verus! {

/// The one domain error: the form body named no `username`.
///
/// It travels the rejection path and is translated into a fixed response
/// at the rejection boundary, unlike the duplicate-name reply below.
#[derive(Clone, Copy, Debug, PartialEq, Eq, Structural)]
pub enum ApiError {
    UsernameMissing,
}

/// A reply of the registration handler. Both variants are successful
/// outcomes of the handler, even though one carries a client-error
/// status: a duplicate name does not travel the rejection path.
#[derive(Clone, Copy, Debug, PartialEq, Eq, Structural)]
pub enum RegisterReply {
    /// The name was fresh and is now registered.
    Done,
    /// The name was already registered; nothing changed.
    UserExists,
}

/// The one form field the handler reads.
pub open spec fn username_key() -> Seq<char> {
    "username"@
}

/// The reply for one registration attempt of `name` against the registry
/// `users`.
pub open spec fn register_decision(users: Seq<Seq<char>>, name: Seq<char>) -> RegisterReply {
    if users.contains(name) {
        RegisterReply::UserExists
    } else {
        RegisterReply::Done
    }
}

/// The registry after one registration attempt of `name`.
pub open spec fn registry_after(users: Seq<Seq<char>>, name: Seq<char>) -> Seq<Seq<char>> {
    if users.contains(name) {
        users
    } else {
        users.push(name)
    }
}

/// Handle one registration request: read the `username` field and reject
/// the request if it is absent; otherwise insert the name unless it is
/// already registered.
///
/// The membership check and the insertion form one critical section: the
/// registry is borrowed exclusively for the whole call, so no other
/// attempt can interleave between the check and the insert.
pub fn register_new_user(form_data: &FormData, existing_users: &mut Registry) -> (r: Result<
    RegisterReply,
    ApiError,
>)
    requires
        form_data.wf(),
        old(existing_users).wf(),
    ensures
        final(existing_users).wf(),
        form_data@.contains_key(username_key()) ==> {
            let name = form_data@[username_key()];
            &&& r == Ok::<RegisterReply, ApiError>(register_decision(old(existing_users)@, name))
            &&& final(existing_users)@ == registry_after(old(existing_users)@, name)
        },
        !form_data@.contains_key(username_key()) ==> {
            &&& r == Err::<RegisterReply, ApiError>(ApiError::UsernameMissing)
            &&& final(existing_users)@ == old(existing_users)@
        },
{
    match form_data.get("username") {
        Some(username) => {
            if existing_users.contains(username) {
                Ok(RegisterReply::UserExists)
            } else {
                existing_users.insert(username.clone());
                Ok(RegisterReply::Done)
            }
        },
        None => Err(ApiError::UsernameMissing),
    }
}

impl RegisterReply {
    /// The HTTP response that announces this reply.
    pub fn into_response(self) -> (r: Response)
        ensures
            self == RegisterReply::Done ==> r.status == STATUS_OK && r.body@
                == "Registration done"@,
            self == RegisterReply::UserExists ==> r.status == STATUS_BAD_REQUEST && r.body@
                == "ERROR: User already exists"@,
    {
        match self {
            RegisterReply::Done => Response::with_status("Registration done", STATUS_OK),
            RegisterReply::UserExists => Response::with_status(
                "ERROR: User already exists",
                STATUS_BAD_REQUEST,
            ),
        }
    }
}

/// The status code the registration endpoint answers with, for a given
/// form body and initial registry.
pub open spec fn spec_registration_status(
    form: Map<Seq<char>, Seq<char>>,
    users: Seq<Seq<char>>,
) -> u16 {
    if !form.contains_key(username_key()) {
        STATUS_BAD_REQUEST
    } else if users.contains(form[username_key()]) {
        STATUS_BAD_REQUEST
    } else {
        STATUS_OK
    }
}

/// The body text the registration endpoint answers with, for a given form
/// body and initial registry.
pub open spec fn spec_registration_body(
    form: Map<Seq<char>, Seq<char>>,
    users: Seq<Seq<char>>,
) -> Seq<char> {
    if !form.contains_key(username_key()) {
        "ERROR: No username was given"@
    } else if users.contains(form[username_key()]) {
        "ERROR: User already exists"@
    } else {
        "Registration done"@
    }
}

/// The registry after the registration endpoint answered one request.
pub open spec fn spec_registry_after_request(
    form: Map<Seq<char>, Seq<char>>,
    users: Seq<Seq<char>>,
) -> Seq<Seq<char>> {
    if form.contains_key(username_key()) {
        registry_after(users, form[username_key()])
    } else {
        users
    }
}

/// The whole registration endpoint: the handler, its reply turned into a
/// response, and the rejection boundary translating a missing username —
/// composed as the route composes them.
pub fn handle_registration(form_data: &FormData, existing_users: &mut Registry) -> (r: Response)
    requires
        form_data.wf(),
        old(existing_users).wf(),
    ensures
        final(existing_users).wf(),
        final(existing_users)@ == spec_registry_after_request(form_data@, old(existing_users)@),
        r.status == spec_registration_status(form_data@, old(existing_users)@),
        r.body@ == spec_registration_body(form_data@, old(existing_users)@),
{
    match register_new_user(form_data, existing_users) {
        Ok(reply) => reply.into_response(),
        Err(api_error) => match handle_rejection(Rejection::Api(api_error)) {
            Ok(resp) => resp,
            Err(_) => unreached(),
        },
    }
}

/// The registry after a run of registration attempts, one name after the
/// other in the order the lock admitted them.
pub open spec fn registry_after_all(users: Seq<Seq<char>>, names: Seq<Seq<char>>) -> Seq<Seq<char>>
    decreases names.len(),
{
    if names.len() == 0 {
        users
    } else {
        registry_after_all(registry_after(users, names[0]), names.drop_first())
    }
}

/// Law: a run of registration attempts with pairwise-distinct usernames,
/// none registered beforehand, loses no update — every attempted name ends
/// up registered, every earlier name stays, and the registry grows by
/// exactly the number of attempts. Concurrent attempts execute as such a
/// run in the order the lock serialises them.
pub proof fn lemma_distinct_registrations(users: Seq<Seq<char>>, names: Seq<Seq<char>>)
    requires
        names.no_duplicates(),
        forall|i: int| 0 <= i < names.len() ==> !users.contains(#[trigger] names[i]),
    ensures
        registry_after_all(users, names).len() == users.len() + names.len(),
        forall|i: int|
            0 <= i < names.len() ==> registry_after_all(users, names).contains(
                #[trigger] names[i],
            ),
        forall|x: Seq<char>|
            users.contains(x) ==> registry_after_all(users, names).contains(x),
    decreases names.len(),
{
    if names.len() > 0 {
        let first = names[0];
        let users1 = users.push(first);
        let rest = names.drop_first();
        assert(registry_after(users, first) == users1);
        assert forall|i: int| 0 <= i < rest.len() implies !users1.contains(
            #[trigger] rest[i],
        ) by {
            assert(rest[i] == names[i + 1]);
            assert(rest[i] != first);
            assert forall|j: int| 0 <= j < users1.len() implies users1[j] != rest[i] by {
                if j < users.len() {
                    assert(users[j] == users1[j]);
                }
            }
        }
        assert forall|i: int, j: int| 0 <= i < j < rest.len() implies rest[i] != rest[j] by {
            assert(rest[i] == names[i + 1]);
            assert(rest[j] == names[j + 1]);
        }
        lemma_distinct_registrations(users1, rest);
        assert(users1[users.len() as int] == first);
        assert(users1.contains(first));
        assert forall|i: int| 0 <= i < names.len() implies registry_after_all(
            users,
            names,
        ).contains(#[trigger] names[i]) by {
            if i > 0 {
                assert(names[i] == rest[i - 1]);
            }
        }
        assert forall|x: Seq<char>| users.contains(x) implies registry_after_all(
            users,
            names,
        ).contains(x) by {
            let k = choose|k: int| 0 <= k < users.len() && users[k] == x;
            assert(users1[k] == x);
            assert(users1.contains(x));
        }
    }
}

/// Law: two registration attempts for the same username, not registered
/// beforehand, resolve as exactly one success and one "already exists" —
/// whichever attempt the lock admits first succeeds, and the other finds
/// the name taken. Never both succeed; never do both find it taken.
pub proof fn lemma_same_name_pair(users: Seq<Seq<char>>, name: Seq<char>)
    requires
        !users.contains(name),
    ensures
        register_decision(users, name) == RegisterReply::Done,
        register_decision(registry_after(users, name), name) == RegisterReply::UserExists,
{
    assert(users.push(name)[users.len() as int] == name);
    assert(users.push(name).contains(name));
}

} // verus!
