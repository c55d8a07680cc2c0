//! Laws that relate the commands and the queries on the store.

use vstd::prelude::*;
use crate::contract::{store_after, stored};
use crate::operation::{field_set, is_update, op_app_id, op_auth_id, FlowsError, Operation};
use crate::records::{first_app, new_app_view, new_user_view};
use crate::service::app_of;
use crate::types::{AppView, UserView};

verus! {

/// Creating a user and then reading that user gives a record with the user's
/// id and no apps, whatever the store held before.
pub proof fn lemma_create_user_then_get(m: Map<Seq<char>, UserView>, auth_id: String)
    ensures
        match store_after(m, Operation::CreateUser { auth_id }) {
            Ok(m2) => stored(m2, auth_id@) == Some(new_user_view(auth_id@)),
            Err(_) => false,
        },
{
}

/// Creating a user that already has a record replaces that record: the apps
/// it held are gone.
pub proof fn lemma_create_user_discards_apps(m: Map<Seq<char>, UserView>, auth_id: String)
    requires
        m.contains_key(auth_id@),
    ensures
        match store_after(m, Operation::CreateUser { auth_id }) {
            Ok(m2) => m2[auth_id@].apps == Seq::<AppView>::empty(),
            Err(_) => false,
        },
{
}

/// Every command but `CreateUser`, `CreateApp` among them, fails with
/// `NotFound` on a user that has no record.
pub proof fn lemma_missing_user_not_found(m: Map<Seq<char>, UserView>, op: Operation)
    requires
        !(op is CreateUser),
        !m.contains_key(op_auth_id(op)),
    ensures
        store_after(m, op) == Err::<Map<Seq<char>, UserView>, FlowsError>(FlowsError::NotFound),
{
}

/// In a sequence in which no app has id `app_id`, the first app with that id
/// after appending `x` (whose id it is) is `x`.
proof fn lemma_first_app_of_pushed(apps: Seq<AppView>, x: AppView, app_id: Seq<char>)
    requires
        x.app_id == app_id,
        forall|i: int| 0 <= i < apps.len() ==> #[trigger] apps[i].app_id != app_id,
    ensures
        first_app(apps.push(x), app_id) == Some(x),
    decreases apps.len(),
{
    if apps.len() > 0 {
        assert(apps.push(x).drop_first() =~= apps.drop_first().push(x));
        lemma_first_app_of_pushed(apps.drop_first(), x, app_id);
    } else {
        assert(apps.push(x)[0] == x);
    }
}

/// Creating an app and then looking its id up gives the new app, with the
/// given name and description and every other field at its default, provided
/// the user exists and has no app with that id yet (otherwise the lookup
/// finds the older app first).
pub proof fn lemma_create_app_then_get_app(
    m: Map<Seq<char>, UserView>,
    auth_id: String,
    app_id: String,
    name: String,
    description: String,
)
    requires
        m.contains_key(auth_id@),
        forall|i: int|
            0 <= i < m[auth_id@].apps.len() ==> #[trigger] m[auth_id@].apps[i].app_id != app_id@,
    ensures
        match store_after(m, Operation::CreateApp { auth_id, app_id, name, description }) {
            Ok(m2) => app_of(m2, auth_id@, app_id@) == Ok::<Option<AppView>, FlowsError>(
                Some(new_app_view(app_id@, name@, description@)),
            ),
            Err(_) => false,
        },
{
    lemma_first_app_of_pushed(m[auth_id@].apps, new_app_view(app_id@, name@, description@), app_id@);
}

/// An update command whose app id none of the user's apps has leaves the
/// store as it was.
pub proof fn lemma_update_without_match_keeps_store(m: Map<Seq<char>, UserView>, op: Operation)
    requires
        is_update(op),
        m.contains_key(op_auth_id(op)),
        forall|i: int|
            0 <= i < m[op_auth_id(op)].apps.len() ==> #[trigger] m[op_auth_id(op)].apps[i].app_id
                != op_app_id(op),
    ensures
        store_after(m, op) == Ok::<Map<Seq<char>, UserView>, FlowsError>(m),
{
    let u = m[op_auth_id(op)];
    match store_after(m, op) {
        Ok(m2) => {
            assert(m2[op_auth_id(op)].apps =~= u.apps);
            assert(m2 =~= m);
        },
        Err(_) => {},
    }
}

/// An update command changes every app of the user whose id it names, however
/// many there are, and no other app; the number and order of apps stay.
pub proof fn lemma_update_reaches_every_match(m: Map<Seq<char>, UserView>, op: Operation)
    requires
        is_update(op),
        m.contains_key(op_auth_id(op)),
    ensures
        match store_after(m, op) {
            Ok(m2) => {
                let before = m[op_auth_id(op)].apps;
                let after = m2[op_auth_id(op)].apps;
                &&& after.len() == before.len()
                &&& forall|i: int|
                    0 <= i < before.len() ==> #[trigger] after[i] == if before[i].app_id == op_app_id(op) {
                        field_set(before[i], op)
                    } else {
                        before[i]
                    }
            },
            Err(_) => false,
        },
{
}

} // verus!
