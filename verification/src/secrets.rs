//! The two secrets of an account and the credential store that keeps them.
//!
//! The store itself is the operating system's, reached through the `keyring`
//! crate. What this module decides is under which key a secret is kept, what
//! an answer of the store means, and in which order the store is asked.

use vstd::prelude::*;
use vstd::string::*;
use crate::config::KEYRING_SERVICE;
use crate::error::{AuthError, Failure};
use crate::text::texts;

verus! {

/// `keyring::Entry`, the handle of one credential; nothing inside it is read
/// here.
#[verifier::external_type_specification]
#[verifier::external_body]
pub struct ExEntry(keyring::Entry);

/// `keyring::Error`; it is only ever passed to `fault_of`.
#[verifier::external_type_specification]
#[verifier::external_body]
pub struct ExKeyringError(keyring::Error);

/// `keyring::Entry::new` opens the entry for a service and a user name in the
/// platform's store. Nothing is claimed of its result. It panics only where
/// the crate's own lock is poisoned, which no argument brings about.
pub assume_specification[ keyring::Entry::new ](service: &str, user: &str) -> (r: keyring::Result<
    keyring::Entry,
>)
;

/// `keyring::Entry::set_password` writes the secret of an entry. Nothing is
/// claimed of its result.
pub assume_specification[ keyring::Entry::set_password ](
    entry: &keyring::Entry,
    password: &str,
) -> (r: keyring::Result<()>)
;

/// `keyring::Entry::get_password` reads the secret of an entry. Nothing is
/// claimed of its result.
pub assume_specification[ keyring::Entry::get_password ](entry: &keyring::Entry) -> (r:
    keyring::Result<String>)
;

/// `keyring::Entry::delete_credential` removes an entry from the store.
/// Nothing is claimed of its result.
pub assume_specification[ keyring::Entry::delete_credential ](entry: &keyring::Entry) -> (r:
    keyring::Result<()>)
;

/// Why the credential store did not do what it was asked.
#[derive(Debug, Clone, PartialEq, Eq)]
pub struct StoreFault {
    /// The store holds nothing under the key.
    pub absent: bool,
    /// The store's own words.
    pub text: String,
}

/// Turns a `keyring::Error` into a `StoreFault`: the text is the error's
/// `Display` output, and `absent` tells the variant `NoEntry` from the others.
/// Nothing is claimed of the result.
#[verifier::external_body]
fn fault_of(error: keyring::Error) -> StoreFault {
    let text = format!("{error}");
    match error {
        keyring::Error::NoEntry => StoreFault { absent: true, text },
        _ => StoreFault { absent: false, text },
    }
}

/// Key of the game access token of the account `id`.
pub open spec fn access_token_key_text(id: Seq<char>) -> Seq<char> {
    "mc_access_token_"@ + id
}

/// Key of the identity refresh token of the account `id`.
pub open spec fn refresh_token_key_text(id: Seq<char>) -> Seq<char> {
    "ms_refresh_token_"@ + id
}

/// Makes the key of the game access token of the account `id`.
pub fn access_token_key(id: &str) -> (r: String)
    ensures
        r@ == access_token_key_text(id@),
{
    String::from_str("mc_access_token_").concat(id)
}

/// Makes the key of the identity refresh token of the account `id`.
pub fn refresh_token_key(id: &str) -> (r: String)
    ensures
        r@ == refresh_token_key_text(id@),
{
    String::from_str("ms_refresh_token_").concat(id)
}

/// No account has the same key for both of its secrets, and no two accounts
/// share a key.
pub proof fn lemma_keys_distinct(a: Seq<char>, b: Seq<char>)
    ensures
        access_token_key_text(a) != refresh_token_key_text(b),
        a != b ==> access_token_key_text(a) != access_token_key_text(b),
        a != b ==> refresh_token_key_text(a) != refresh_token_key_text(b),
{
    reveal_strlit("mc_access_token_");
    reveal_strlit("ms_refresh_token_");
    let p = "mc_access_token_"@;
    let q = "ms_refresh_token_"@;
    assert((p + a)[1] == 'c');
    assert((q + b)[1] == 's');
    if a != b {
        assert((p + a).subrange(p.len() as int, (p + a).len() as int) =~= a);
        assert((p + b).subrange(p.len() as int, (p + b).len() as int) =~= b);
        assert((q + a).subrange(q.len() as int, (q + a).len() as int) =~= a);
        assert((q + b).subrange(q.len() as int, (q + b).len() as int) =~= b);
    }
}

/// The failure reported when the store could not even open an entry.
pub open spec fn entry_failure(fault: StoreFault) -> Failure {
    Failure::Store("keyring entry: "@ + fault.text@)
}

/// What the outcome of a write means: a write that the store refused, for
/// whatever reason, is a failure.
pub open spec fn write_result(outcome: Result<(), StoreFault>, r: Result<(), AuthError>) -> bool {
    match outcome {
        Ok(_) => r is Ok,
        Err(fault) => r is Err && r->Err_0@ == Failure::Store("keyring set: "@ + fault.text@),
    }
}

/// What the outcome of a read means: an absent secret is
/// `CredentialNotFound`, any other refusal a store failure.
pub open spec fn read_result(outcome: Result<String, StoreFault>, r: Result<String, AuthError>)
    -> bool {
    match outcome {
        Ok(secret) => r == Ok::<String, AuthError>(secret),
        Err(fault) => r is Err && r->Err_0@ == (if fault.absent {
            Failure::CredentialNotFound
        } else {
            Failure::Store("keyring get: "@ + fault.text@)
        }),
    }
}

/// What the outcome of a removal means: removing what is not there is a
/// success, any other refusal a store failure.
pub open spec fn delete_result(outcome: Result<(), StoreFault>, r: Result<(), AuthError>) -> bool {
    match outcome {
        Ok(_) => r is Ok,
        Err(fault) => if fault.absent {
            r is Ok
        } else {
            r is Err && r->Err_0@ == Failure::Store("keyring delete: "@ + fault.text@)
        },
    }
}

fn entry_error(fault: StoreFault) -> (r: AuthError)
    ensures
        r@ == entry_failure(fault),
{
    AuthError::Store(String::from_str("keyring entry: ").concat(fault.text.as_str()))
}

/// Judges the outcome of a write.
pub fn write_outcome(outcome: Result<(), StoreFault>) -> (r: Result<(), AuthError>)
    ensures
        write_result(outcome, r),
{
    match outcome {
        Ok(()) => Ok(()),
        Err(fault) => Err(
            AuthError::Store(String::from_str("keyring set: ").concat(fault.text.as_str())),
        ),
    }
}

/// Judges the outcome of a read.
pub fn read_outcome(outcome: Result<String, StoreFault>) -> (r: Result<String, AuthError>)
    ensures
        read_result(outcome, r),
{
    match outcome {
        Ok(secret) => Ok(secret),
        Err(fault) => if fault.absent {
            Err(AuthError::CredentialNotFound)
        } else {
            Err(AuthError::Store(String::from_str("keyring get: ").concat(fault.text.as_str())))
        },
    }
}

/// Judges the outcome of a removal.
pub fn delete_outcome(outcome: Result<(), StoreFault>) -> (r: Result<(), AuthError>)
    ensures
        delete_result(outcome, r),
{
    match outcome {
        Ok(()) => Ok(()),
        Err(fault) => if fault.absent {
            Ok(())
        } else {
            Err(
                AuthError::Store(
                    String::from_str("keyring delete: ").concat(fault.text.as_str()),
                ),
            )
        },
    }
}

/// Writes `value` under `key`. Whether the store accepts the write is the
/// store's to decide; a refusal always comes back as a store failure.
pub fn keyring_set(key: &str, value: &str) -> (r: Result<(), AuthError>)
    ensures
        write_verdict(r),
{
    match keyring::Entry::new(KEYRING_SERVICE, key) {
        Err(e) => Err(entry_error(fault_of(e))),
        Ok(entry) => match entry.set_password(value) {
            Ok(()) => write_outcome(Ok(())),
            Err(e) => write_outcome(Err(fault_of(e))),
        },
    }
}

/// Reads the secret under `key`. A failure is `CredentialNotFound` or a store
/// failure, never anything else.
pub fn keyring_get(key: &str) -> (r: Result<String, AuthError>)
    ensures
        read_verdict(r),
{
    match keyring::Entry::new(KEYRING_SERVICE, key) {
        Err(e) => Err(entry_error(fault_of(e))),
        Ok(entry) => match entry.get_password() {
            Ok(secret) => read_outcome(Ok(secret)),
            Err(e) => read_outcome(Err(fault_of(e))),
        },
    }
}

/// Removes the secret under `key`. A failure is always a store failure.
pub fn keyring_delete(key: &str) -> (r: Result<(), AuthError>)
    ensures
        removal_verdict(r),
{
    match keyring::Entry::new(KEYRING_SERVICE, key) {
        Err(e) => Err(entry_error(fault_of(e))),
        Ok(entry) => match entry.delete_credential() {
            Ok(()) => delete_outcome(Ok(())),
            Err(e) => delete_outcome(Err(fault_of(e))),
        },
    }
}

/// What persisting the secrets of the account `id` writes: the game access
/// token first, then the identity refresh token, each under its key.
pub open spec fn persist_plan_of(id: Seq<char>, access_token: Seq<char>, refresh_token: Seq<char>)
    -> Seq<(Seq<char>, Seq<char>)> {
    seq![
        (access_token_key_text(id), access_token),
        (refresh_token_key_text(id), refresh_token),
    ]
}

/// What removing the account `id` deletes: the key of the game access token
/// first, then that of the identity refresh token.
pub open spec fn removal_plan_of(id: Seq<char>) -> Seq<Seq<char>> {
    seq![access_token_key_text(id), refresh_token_key_text(id)]
}

/// The keys whose removal removes the account `account_uuid`.
pub fn removal_plan(account_uuid: &str) -> (r: Vec<String>)
    ensures
        texts(r@) == removal_plan_of(account_uuid@),
{
    let mut plan: Vec<String> = Vec::new();
    plan.push(access_token_key(account_uuid));
    plan.push(refresh_token_key(account_uuid));
    assert(texts(plan@) =~= removal_plan_of(account_uuid@));
    plan
}

/// The stored game access token of the account, as it was written.
pub fn get_mc_access_token(account_uuid: String) -> (r: Result<String, AuthError>)
    ensures
        read_verdict(r),
{
    let key = access_token_key(account_uuid.as_str());
    keyring_get(key.as_str())
}

/// The stored identity refresh token of the account.
pub fn stored_refresh_token(account_uuid: &str) -> (r: Result<String, AuthError>)
    ensures
        read_verdict(r),
{
    let key = refresh_token_key(account_uuid);
    keyring_get(key.as_str())
}

/// Removes both secrets of the account, in the order of `removal_plan`. A
/// key that the store does not hold counts as removed; a removal is not
/// attempted once one before it has failed.
pub fn remove_account(account_uuid: String) -> (r: Result<(), AuthError>)
    ensures
        removal_verdict(r),
{
    let plan = removal_plan(account_uuid.as_str());
    let mut i: usize = 0;
    while i < plan.len()
        invariant
            i <= plan@.len(),
        decreases plan@.len() - i,
    {
        match keyring_delete(plan[i].as_str()) {
            Err(e) => {
                return Err(e);
            },
            Ok(()) => {},
        }
        i += 1;
    }
    assert(delete_result(Ok::<(), StoreFault>(()), Ok::<(), AuthError>(())));
    Ok(())
}

/// The store after the writes of `plan`, made in order.
pub open spec fn apply_writes(
    store: Map<Seq<char>, Seq<char>>,
    plan: Seq<(Seq<char>, Seq<char>)>,
) -> Map<Seq<char>, Seq<char>>
    decreases plan.len(),
{
    if plan.len() == 0 {
        store
    } else {
        apply_writes(store, plan.drop_last()).insert(plan.last().0, plan.last().1)
    }
}

/// The store after the removal of the keys of `plan`, made in order.
pub open spec fn apply_removals(store: Map<Seq<char>, Seq<char>>, plan: Seq<Seq<char>>) -> Map<
    Seq<char>,
    Seq<char>,
>
    decreases plan.len(),
{
    if plan.len() == 0 {
        store
    } else {
        apply_removals(store, plan.drop_last()).remove(plan.last())
    }
}

/// Carrying out the two plans gives the stores that `after_persist` and
/// `after_removal` describe.
pub proof fn law_plans_applied(
    store: Map<Seq<char>, Seq<char>>,
    id: Seq<char>,
    access_token: Seq<char>,
    refresh_token: Seq<char>,
)
    ensures
        apply_writes(store, persist_plan_of(id, access_token, refresh_token)) == after_persist(
            store,
            id,
            access_token,
            refresh_token,
        ),
        apply_removals(store, removal_plan_of(id)) == after_removal(store, id),
{
    let writes = persist_plan_of(id, access_token, refresh_token);
    assert(writes.drop_last() =~= seq![(access_token_key_text(id), access_token)]);
    assert(writes.drop_last().drop_last() =~= Seq::<(Seq<char>, Seq<char>)>::empty());
    assert(apply_writes(store, writes.drop_last().drop_last()) == store);
    assert(apply_writes(store, writes.drop_last()) == store.insert(
        access_token_key_text(id),
        access_token,
    ));
    let removals = removal_plan_of(id);
    assert(removals.drop_last() =~= seq![access_token_key_text(id)]);
    assert(removals.drop_last().drop_last() =~= Seq::<Seq<char>>::empty());
    assert(apply_removals(store, removals.drop_last().drop_last()) == store);
    assert(apply_removals(store, removals.drop_last()) == store.remove(
        access_token_key_text(id),
    ));
}

/// The answer that a store holding exactly `store` gives to a read of `key`.
pub open spec fn faithful_read(
    store: Map<Seq<char>, Seq<char>>,
    key: Seq<char>,
    outcome: Result<String, StoreFault>,
) -> bool {
    if store.contains_key(key) {
        outcome is Ok && outcome->Ok_0@ == store[key]
    } else {
        outcome is Err && outcome->Err_0.absent
    }
}

/// The answer that a store holding exactly `store` gives to a removal of `key`.
pub open spec fn faithful_delete(
    store: Map<Seq<char>, Seq<char>>,
    key: Seq<char>,
    outcome: Result<(), StoreFault>,
) -> bool {
    if store.contains_key(key) {
        outcome is Ok
    } else {
        outcome is Err && outcome->Err_0.absent
    }
}

/// The store after both secrets of the account `id` have been written.
pub open spec fn after_persist(
    store: Map<Seq<char>, Seq<char>>,
    id: Seq<char>,
    access_token: Seq<char>,
    refresh_token: Seq<char>,
) -> Map<Seq<char>, Seq<char>> {
    store.insert(access_token_key_text(id), access_token).insert(
        refresh_token_key_text(id),
        refresh_token,
    )
}

/// The store after both secrets of the account `id` have been removed.
pub open spec fn after_removal(store: Map<Seq<char>, Seq<char>>, id: Seq<char>) -> Map<
    Seq<char>,
    Seq<char>,
> {
    store.remove(access_token_key_text(id)).remove(refresh_token_key_text(id))
}

/// A secret that has just been written is read back exactly as written.
pub proof fn law_read_returns_what_was_written(
    store: Map<Seq<char>, Seq<char>>,
    key: Seq<char>,
    value: Seq<char>,
    outcome: Result<String, StoreFault>,
    r: Result<String, AuthError>,
)
    requires
        faithful_read(store.insert(key, value), key, outcome),
        read_result(outcome, r),
    ensures
        r is Ok,
        r->Ok_0@ == value,
{
}

/// Persisting the secrets of an account writes exactly two keys, both under
/// that account's id, and leaves every other key as it was.
pub proof fn law_persist_writes_two_keys(
    store: Map<Seq<char>, Seq<char>>,
    id: Seq<char>,
    access_token: Seq<char>,
    refresh_token: Seq<char>,
)
    ensures
        access_token_key_text(id) != refresh_token_key_text(id),
        after_persist(store, id, access_token, refresh_token).dom() == store.dom().insert(
            access_token_key_text(id),
        ).insert(refresh_token_key_text(id)),
        after_persist(store, id, access_token, refresh_token)[access_token_key_text(id)]
            == access_token,
        after_persist(store, id, access_token, refresh_token)[refresh_token_key_text(id)]
            == refresh_token,
        forall|k: Seq<char>|
            k != access_token_key_text(id) && k != refresh_token_key_text(id) && store.contains_key(
                k,
            ) ==> #[trigger] after_persist(store, id, access_token, refresh_token)[k] == store[k],
{
    lemma_keys_distinct(id, id);
    assert(after_persist(store, id, access_token, refresh_token).dom() =~= store.dom().insert(
        access_token_key_text(id),
    ).insert(refresh_token_key_text(id)));
}

/// An account that never signed in has no session token: the read fails with
/// `CredentialNotFound`.
pub proof fn law_token_of_unknown_account(
    store: Map<Seq<char>, Seq<char>>,
    id: Seq<char>,
    outcome: Result<String, StoreFault>,
    r: Result<String, AuthError>,
)
    requires
        !store.contains_key(access_token_key_text(id)),
        faithful_read(store, access_token_key_text(id), outcome),
        read_result(outcome, r),
    ensures
        r is Err,
        r->Err_0@ == Failure::CredentialNotFound,
{
}

/// After the secrets of an account have been persisted, reading its session
/// token gives exactly the game access token that was written.
pub proof fn law_token_after_persist(
    store: Map<Seq<char>, Seq<char>>,
    id: Seq<char>,
    access_token: Seq<char>,
    refresh_token: Seq<char>,
    outcome: Result<String, StoreFault>,
    r: Result<String, AuthError>,
)
    requires
        faithful_read(
            after_persist(store, id, access_token, refresh_token),
            access_token_key_text(id),
            outcome,
        ),
        read_result(outcome, r),
    ensures
        r is Ok,
        r->Ok_0@ == access_token,
{
    lemma_keys_distinct(id, id);
}

/// Removing an account that has no stored secrets succeeds at both keys and
/// leaves the store as it was.
pub proof fn law_remove_absent_account(
    store: Map<Seq<char>, Seq<char>>,
    id: Seq<char>,
    first: Result<(), StoreFault>,
    second: Result<(), StoreFault>,
    r1: Result<(), AuthError>,
    r2: Result<(), AuthError>,
)
    requires
        !store.contains_key(access_token_key_text(id)),
        !store.contains_key(refresh_token_key_text(id)),
        faithful_delete(store, access_token_key_text(id), first),
        delete_result(first, r1),
        faithful_delete(
            store.remove(access_token_key_text(id)),
            refresh_token_key_text(id),
            second,
        ),
        delete_result(second, r2),
    ensures
        r1 is Ok,
        r2 is Ok,
        after_removal(store, id) == store,
{
    assert(after_removal(store, id) =~= store);
}

/// Removing an account twice is the same as removing it once.
pub proof fn law_removal_idempotent(store: Map<Seq<char>, Seq<char>>, id: Seq<char>)
    ensures
        after_removal(after_removal(store, id), id) == after_removal(store, id),
        !after_removal(store, id).contains_key(access_token_key_text(id)),
        !after_removal(store, id).contains_key(refresh_token_key_text(id)),
{
    assert(after_removal(after_removal(store, id), id) =~= after_removal(store, id));
}

/// Whether `r` is what a write can come to: what `write_result` makes of
/// some answer of the store, or the failure to open the entry. So a write
/// that fails always fails with a store failure.
pub open spec fn write_verdict(r: Result<(), AuthError>) -> bool {
    ||| exists|outcome: Result<(), StoreFault>| #[trigger] write_result(outcome, r)
    ||| exists|fault: StoreFault| r is Err && r->Err_0@ == #[trigger] entry_failure(fault)
}

/// Whether `r` is what a read can come to: what `read_result` makes of some
/// answer of the store, or the failure to open the entry. So a read that
/// fails fails with `CredentialNotFound` or with a store failure.
pub open spec fn read_verdict(r: Result<String, AuthError>) -> bool {
    ||| exists|outcome: Result<String, StoreFault>| #[trigger] read_result(outcome, r)
    ||| exists|fault: StoreFault| r is Err && r->Err_0@ == #[trigger] entry_failure(fault)
}

/// Whether `r` is what a removal can come to: what `delete_result` makes of
/// some answer of the store, or the failure to open the entry. So a removal
/// that fails always fails with a store failure, and never because the key
/// was not there.
pub open spec fn removal_verdict(r: Result<(), AuthError>) -> bool {
    ||| exists|outcome: Result<(), StoreFault>| #[trigger] delete_result(outcome, r)
    ||| exists|fault: StoreFault| r is Err && r->Err_0@ == #[trigger] entry_failure(fault)
}

/// The failures that the three verdicts leave room for.
pub proof fn law_verdict_failures(
    written: Result<(), AuthError>,
    read: Result<String, AuthError>,
    removed: Result<(), AuthError>,
)
    requires
        write_verdict(written),
        read_verdict(read),
        removal_verdict(removed),
    ensures
        written is Err ==> written->Err_0@ is Store,
        read is Err ==> read->Err_0@ is Store || read->Err_0@ is CredentialNotFound,
        removed is Err ==> removed->Err_0@ is Store,
{
}

} // verus!
