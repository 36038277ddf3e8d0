//! The mathematical model of the record store: the records under their
//! emails beside the number of ids assigned so far, the four operations as
//! functions on that state, and what holds of them.

use vstd::prelude::*;
use crate::users::model::{UpsertUserView, UserView};

verus! {

/// Records, each under the email that is its key.
pub type Records = Map<Seq<char>, UserView>;

/// The state of a store: its records, and how many ids it has assigned since
/// it was made. Ids are assigned in order, so that number is also the last id
/// that was assigned.
#[verifier::ext_equal]
pub struct StoreView {
    pub records: Records,
    pub assigned: nat,
}

/// The store that holds no record and has assigned no id.
pub open spec fn empty_store() -> StoreView {
    StoreView { records: Map::empty(), assigned: 0 }
}

/// A store is well formed when it holds finitely many records, each stored
/// under its own email, each with an id between 1 and the number of ids
/// assigned, and no two with the same id.
pub open spec fn well_formed(store: StoreView) -> bool {
    &&& store.records.dom().finite()
    &&& forall|email: Seq<char>| #[trigger]
        store.records.contains_key(email) ==> store.records[email].email == email && 1
            <= store.records[email].id <= store.assigned
    &&& forall|first: Seq<char>, second: Seq<char>|
        #[trigger] store.records.contains_key(first) && #[trigger] store.records.contains_key(
            second,
        ) && store.records[first].id == store.records[second].id ==> first == second
}

/// The record that a request creates in a store that has assigned `assigned`
/// ids: the request's fields under the next id, `assigned + 1`.
pub open spec fn new_record(assigned: nat, request: UpsertUserView) -> UserView {
    UserView {
        id: assigned as int + 1,
        email: request.email,
        password: request.password,
        fullname: request.fullname,
        role: request.role,
    }
}

/// The record that an update leaves in place of `current`: the id and the
/// email stay, the other fields are the request's.
pub open spec fn revised(current: UserView, request: UpsertUserView) -> UserView {
    UserView {
        id: current.id,
        email: current.email,
        password: request.password,
        fullname: request.fullname,
        role: request.role,
    }
}

/// What a read of `email` returns: the record, or nothing where none is stored.
pub open spec fn found(store: StoreView, email: Seq<char>) -> Option<UserView> {
    if store.records.contains_key(email) {
        Some(store.records[email])
    } else {
        None
    }
}

/// What a create returns: the new record, or nothing where the email is taken.
pub open spec fn created(store: StoreView, request: UpsertUserView) -> Option<UserView> {
    if store.records.contains_key(request.email) {
        None
    } else {
        Some(new_record(store.assigned, request))
    }
}

/// The store after a create: one record and one assigned id more, or the
/// same store where the email is taken.
pub open spec fn after_create(store: StoreView, request: UpsertUserView) -> StoreView {
    if store.records.contains_key(request.email) {
        store
    } else {
        StoreView {
            records: store.records.insert(request.email, new_record(store.assigned, request)),
            assigned: store.assigned + 1,
        }
    }
}

/// What an update of `email` returns: the revised record, or nothing where
/// none is stored. The email inside the request plays no part.
pub open spec fn updated(store: StoreView, email: Seq<char>, request: UpsertUserView) -> Option<
    UserView,
> {
    if store.records.contains_key(email) {
        Some(revised(store.records[email], request))
    } else {
        None
    }
}

/// The store after an update of `email`. No id is assigned.
pub open spec fn after_update(
    store: StoreView,
    email: Seq<char>,
    request: UpsertUserView,
) -> StoreView {
    if store.records.contains_key(email) {
        StoreView {
            records: store.records.insert(email, revised(store.records[email], request)),
            assigned: store.assigned,
        }
    } else {
        store
    }
}

/// The store after a delete of `email`. A delete returns what a read of the
/// same email would have returned just before it. The number of ids assigned
/// stays, so the id of the removed record is not given out again.
pub open spec fn after_delete(store: StoreView, email: Seq<char>) -> StoreView {
    if store.records.contains_key(email) {
        StoreView { records: store.records.remove(email), assigned: store.assigned }
    } else {
        store
    }
}

/// One operation on a store, with its arguments.
pub enum Operation {
    Create(UpsertUserView),
    Read(Seq<char>),
    Update(Seq<char>, UpsertUserView),
    Delete(Seq<char>),
}

/// The store after one operation.
pub open spec fn after(store: StoreView, operation: Operation) -> StoreView {
    match operation {
        Operation::Create(request) => after_create(store, request),
        Operation::Read(_) => store,
        Operation::Update(email, request) => after_update(store, email, request),
        Operation::Delete(email) => after_delete(store, email),
    }
}

/// What one operation returns.
pub open spec fn answer(store: StoreView, operation: Operation) -> Option<UserView> {
    match operation {
        Operation::Create(request) => created(store, request),
        Operation::Read(email) => found(store, email),
        Operation::Update(email, request) => updated(store, email, request),
        Operation::Delete(email) => found(store, email),
    }
}

/// The store after a sequence of operations, applied from first to last.
pub open spec fn after_all(store: StoreView, operations: Seq<Operation>) -> StoreView
    decreases operations.len(),
{
    if operations.len() == 0 {
        store
    } else {
        after(after_all(store, operations.drop_last()), operations.last())
    }
}

/// Whether the operation at `index` is a create that succeeds when the
/// operations are applied to `store` from first to last.
pub open spec fn creates_at(store: StoreView, operations: Seq<Operation>, index: int) -> bool {
    &&& 0 <= index < operations.len()
    &&& operations[index] is Create
    &&& answer(after_all(store, operations.take(index)), operations[index]) is Some
}

/// The id that the create at `index` returns.
pub open spec fn id_at(store: StoreView, operations: Seq<Operation>, index: int) -> int {
    answer(after_all(store, operations.take(index)), operations[index])->Some_0.id
}

/// Whether `operation` is a create for `email`.
pub open spec fn creates_email(operation: Operation, email: Seq<char>) -> bool {
    operation matches Operation::Create(request) && request.email == email
}

/// Whether `operation` leaves every store unchanged in which no record is
/// stored for any email of `absent`: a read, or an update or a delete of an
/// email of `absent`.
pub open spec fn aims_at_absent(operation: Operation, absent: Set<Seq<char>>) -> bool {
    match operation {
        Operation::Create(_) => false,
        Operation::Read(_) => true,
        Operation::Update(email, _) => absent.contains(email),
        Operation::Delete(email) => absent.contains(email),
    }
}

/// One create for each request, in the order of the requests.
pub open spec fn creates(requests: Seq<UpsertUserView>) -> Seq<Operation> {
    Seq::new(requests.len(), |i: int| Operation::Create(requests[i]))
}

/// Whether no two requests carry the same email.
pub open spec fn distinct_emails(requests: Seq<UpsertUserView>) -> bool {
    forall|i: int, j: int|
        0 <= i < j < requests.len() ==> requests[i].email != requests[j].email
}

/// Whether none of the requests carries an email for which `store` holds a
/// record.
pub open spec fn all_new(store: StoreView, requests: Seq<UpsertUserView>) -> bool {
    forall|i: int|
        0 <= i < requests.len() ==> !store.records.contains_key(#[trigger] requests[i].email)
}

/// Each operation keeps a well-formed store well formed.
pub proof fn lemma_operation_keeps_well_formed(store: StoreView, operation: Operation)
    requires
        well_formed(store),
    ensures
        well_formed(after(store, operation)),
{
}

/// Any sequence of operations keeps a well-formed store well formed.
pub proof fn lemma_operations_keep_well_formed(store: StoreView, operations: Seq<Operation>)
    requires
        well_formed(store),
    ensures
        well_formed(after_all(store, operations)),
    decreases operations.len(),
{
    if operations.len() > 0 {
        lemma_operations_keep_well_formed(store, operations.drop_last());
        lemma_operation_keeps_well_formed(
            after_all(store, operations.drop_last()),
            operations.last(),
        );
    }
}

/// The number of records after one operation: a create of a new email adds
/// one record, a delete of a stored email takes one away, and nothing else
/// changes the number.
pub open spec fn size_after(store: StoreView, operation: Operation) -> int {
    match operation {
        Operation::Create(request) => if store.records.contains_key(request.email) {
            store.records.len() as int
        } else {
            store.records.len() as int + 1
        },
        Operation::Read(_) => store.records.len() as int,
        Operation::Update(_, _) => store.records.len() as int,
        Operation::Delete(email) => if store.records.contains_key(email) {
            store.records.len() - 1
        } else {
            store.records.len() as int
        },
    }
}

/// The store after an operation holds as many records as `size_after` gives.
pub proof fn lemma_size_after(store: StoreView, operation: Operation)
    requires
        well_formed(store),
    ensures
        after(store, operation).records.len() == size_after(store, operation),
{
    match operation {
        Operation::Update(email, request) => {
            if store.records.contains_key(email) {
                assert(after(store, operation).records.dom() =~= store.records.dom());
            }
        },
        _ => {},
    }
}

/// In a well-formed store no two records have the same email, and no two
/// have the same id.
pub proof fn lemma_one_record_per_email(store: StoreView)
    requires
        well_formed(store),
    ensures
        forall|first: Seq<char>, second: Seq<char>|
            #[trigger] store.records.contains_key(first) && #[trigger] store.records.contains_key(
                second,
            ) && first != second ==> store.records[first].email != store.records[second].email
                && store.records[first].id != store.records[second].id,
{
}

/// Uniqueness: after any sequence of operations on an empty store, the store
/// is well formed, so no two of its records have the same email and no two
/// have the same id.
pub proof fn lemma_emails_unique(operations: Seq<Operation>)
    ensures
        well_formed(after_all(empty_store(), operations)),
        forall|first: Seq<char>, second: Seq<char>|
            #[trigger] after_all(empty_store(), operations).records.contains_key(first)
                && #[trigger] after_all(empty_store(), operations).records.contains_key(second)
                && first != second ==> after_all(empty_store(), operations).records[first].email
                != after_all(empty_store(), operations).records[second].email && after_all(
                empty_store(),
                operations,
            ).records[first].id != after_all(empty_store(), operations).records[second].id,
{
    lemma_operations_keep_well_formed(empty_store(), operations);
    lemma_one_record_per_email(after_all(empty_store(), operations));
}

/// A create leaves one record for the request's email: whether it succeeds
/// or finds the email taken, the store stays well formed, holds a record for
/// that email, holds none for it under another key, and has grown by at most
/// one record.
pub proof fn lemma_create_leaves_one_record(store: StoreView, request: UpsertUserView)
    requires
        well_formed(store),
    ensures
        well_formed(after_create(store, request)),
        after_create(store, request).records.contains_key(request.email),
        forall|email: Seq<char>| #[trigger]
            after_create(store, request).records.contains_key(email) && after_create(
                store,
                request,
            ).records[email].email == request.email ==> email == request.email,
        store.records.len() <= after_create(store, request).records.len() <= store.records.len()
            + 1,
{
    lemma_operation_keeps_well_formed(store, Operation::Create(request));
    lemma_size_after(store, Operation::Create(request));
}

/// A new id is fresh: the id that a create gives is larger than the number
/// of ids assigned before it, and so than the id of every stored record.
pub proof fn lemma_new_id_is_fresh(store: StoreView, request: UpsertUserView)
    requires
        well_formed(store),
        created(store, request) is Some,
    ensures
        created(store, request)->Some_0.id == store.assigned + 1,
        after_create(store, request).assigned == created(store, request)->Some_0.id,
        forall|email: Seq<char>| #[trigger]
            store.records.contains_key(email) ==> store.records[email].id < created(
                store,
                request,
            )->Some_0.id,
{
}

/// No operation lowers the number of ids assigned, and only a create that
/// succeeds raises it.
pub proof fn lemma_assigned_after(store: StoreView, operation: Operation)
    ensures
        after(store, operation).assigned == (if operation is Create && answer(store, operation)
            is Some {
            store.assigned + 1
        } else {
            store.assigned
        }),
{
}

/// The number of ids assigned after the first `count` operations is at most
/// the number after all of them.
pub proof fn lemma_assigned_grows(store: StoreView, operations: Seq<Operation>, count: int)
    requires
        0 <= count <= operations.len(),
    ensures
        after_all(store, operations.take(count)).assigned <= after_all(store, operations).assigned,
    decreases operations.len(),
{
    if count == operations.len() {
        assert(operations.take(count) =~= operations);
    } else {
        let earlier = operations.drop_last();
        assert(earlier.take(count) =~= operations.take(count));
        lemma_assigned_grows(store, earlier, count);
        lemma_assigned_after(after_all(store, earlier), operations.last());
    }
}

/// Ids strictly increase: over any sequence of operations on any store, of
/// two creates that succeed the later one returns the larger id. So no id is
/// given out twice, whatever was deleted in between.
pub proof fn lemma_ids_strictly_increase(
    store: StoreView,
    operations: Seq<Operation>,
    earlier: int,
    later: int,
)
    requires
        creates_at(store, operations, earlier),
        creates_at(store, operations, later),
        earlier < later,
    ensures
        id_at(store, operations, earlier) < id_at(store, operations, later),
{
    let through = operations.take(earlier + 1);
    assert(through.drop_last() =~= operations.take(earlier));
    assert(through.last() == operations[earlier]);
    let until = operations.take(later);
    assert(until.take(earlier + 1) =~= through);
    lemma_assigned_grows(store, until, earlier + 1);
}

/// Identity under update: an update of a stored record changes neither its
/// id nor its email, adds and removes no record, assigns no id and leaves
/// every other record as it was.
pub proof fn lemma_update_keeps_identity(
    store: StoreView,
    email: Seq<char>,
    request: UpsertUserView,
)
    requires
        store.records.contains_key(email),
    ensures
        after_update(store, email, request).records.dom() == store.records.dom(),
        after_update(store, email, request).assigned == store.assigned,
        after_update(store, email, request).records[email].id == store.records[email].id,
        after_update(store, email, request).records[email].email == store.records[email].email,
        updated(store, email, request) == Some(after_update(store, email, request).records[email]),
        forall|other: Seq<char>|
            other != email ==> after_update(store, email, request).records[other]
                == store.records[other],
{
    assert(after_update(store, email, request).records.dom() =~= store.records.dom());
}

/// A create is seen by the next read: the email of the request is stored
/// afterwards, under the new record where the create succeeded and under
/// the record that was there where it did not.
pub proof fn lemma_created_is_found(store: StoreView, request: UpsertUserView)
    ensures
        found(after_create(store, request), request.email) == (match created(store, request) {
            Some(record) => Some(record),
            None => Some(store.records[request.email]),
        }),
{
}

/// Delete completeness: once an email is deleted, a read of it finds nothing
/// for as long as no create for that email follows.
pub proof fn lemma_deleted_stays_absent(
    store: StoreView,
    email: Seq<char>,
    operations: Seq<Operation>,
)
    requires
        forall|i: int| 0 <= i < operations.len() ==> !creates_email(operations[i], email),
    ensures
        found(after_all(after_delete(store, email), operations), email) is None,
    decreases operations.len(),
{
    if operations.len() > 0 {
        lemma_deleted_stays_absent(store, email, operations.drop_last());
        assert(!creates_email(operations[operations.len() - 1], email));
    }
}

/// Idempotent absence: an update or a delete of an email for which nothing
/// is stored returns nothing and leaves the store as it was.
pub proof fn lemma_absent_is_untouched(
    store: StoreView,
    email: Seq<char>,
    request: UpsertUserView,
)
    requires
        !store.records.contains_key(email),
    ensures
        updated(store, email, request) is None,
        after_update(store, email, request) == store,
        found(store, email) is None,
        after_delete(store, email) == store,
{
}

/// Idempotent absence, repeated: any number of reads, and of updates and
/// deletes of emails for which nothing is stored, leave the store as it was.
pub proof fn lemma_absent_operations_change_nothing(
    store: StoreView,
    absent: Set<Seq<char>>,
    operations: Seq<Operation>,
)
    requires
        forall|email: Seq<char>| absent.contains(email) ==> !store.records.contains_key(email),
        forall|i: int| 0 <= i < operations.len() ==> aims_at_absent(operations[i], absent),
    ensures
        after_all(store, operations) == store,
    decreases operations.len(),
{
    if operations.len() > 0 {
        lemma_absent_operations_change_nothing(store, absent, operations.drop_last());
        assert(aims_at_absent(operations[operations.len() - 1], absent));
    }
}

/// Pure growth: creates for new, pairwise distinct emails add one record
/// each, and the record of the `i`-th request (counted from 0) gets the id
/// that follows the number of ids assigned before the first create, plus `i`.
pub proof fn lemma_growth(start: StoreView, requests: Seq<UpsertUserView>)
    requires
        well_formed(start),
        distinct_emails(requests),
        all_new(start, requests),
    ensures
        well_formed(after_all(start, creates(requests))),
        after_all(start, creates(requests)).records.len() == start.records.len() + requests.len(),
        after_all(start, creates(requests)).assigned == start.assigned + requests.len(),
        forall|email: Seq<char>|
            start.records.contains_key(email) ==> after_all(
                start,
                creates(requests),
            ).records.contains_key(email) && after_all(start, creates(requests)).records[email]
                == start.records[email],
        forall|i: int|
            0 <= i < requests.len() ==> after_all(start, creates(requests)).records.contains_key(
                #[trigger] requests[i].email,
            ) && after_all(start, creates(requests)).records[requests[i].email] == new_record(
                (start.assigned + i) as nat,
                requests[i],
            ),
        forall|email: Seq<char>| #[trigger]
            after_all(start, creates(requests)).records.contains_key(email)
                ==> start.records.contains_key(email) || exists|i: int|
                0 <= i < requests.len() && #[trigger] requests[i].email == email,
    decreases requests.len(),
{
    let operations = creates(requests);
    if requests.len() > 0 {
        let earlier = requests.drop_last();
        let last = requests.last();
        assert(creates(earlier) =~= operations.drop_last());
        assert(operations.last() == Operation::Create(last));
        assert(distinct_emails(earlier));
        assert(all_new(start, earlier)) by {
            assert forall|i: int| 0 <= i < earlier.len() implies !start.records.contains_key(
                #[trigger] earlier[i].email,
            ) by {
                assert(earlier[i] == requests[i]);
            }
        }
        lemma_growth(start, earlier);
        let before = after_all(start, creates(earlier));
        assert(!before.records.contains_key(last.email)) by {
            if before.records.contains_key(last.email) {
                assert(last == requests[requests.len() - 1]);
                assert(!start.records.contains_key(requests[requests.len() - 1].email));
                let i = choose|i: int|
                    0 <= i < earlier.len() && #[trigger] earlier[i].email == last.email;
                assert(earlier[i] == requests[i]);
            }
        }
        let grown = after_all(start, operations);
        assert(grown == after_create(before, last));
        lemma_operation_keeps_well_formed(before, Operation::Create(last));
        assert forall|i: int| 0 <= i < requests.len() implies grown.records.contains_key(
            #[trigger] requests[i].email,
        ) && grown.records[requests[i].email] == new_record(
            (start.assigned + i) as nat,
            requests[i],
        ) by {
            if i < earlier.len() {
                assert(earlier[i] == requests[i]);
                assert(before.records.contains_key(earlier[i].email));
            }
        }
        assert forall|email: Seq<char>| #[trigger]
            grown.records.contains_key(email) implies start.records.contains_key(email)
            || exists|i: int| 0 <= i < requests.len() && #[trigger] requests[i].email == email by {
            if email == last.email {
                assert(requests[requests.len() - 1].email == email);
            } else if !start.records.contains_key(email) {
                let i = choose|i: int|
                    0 <= i < earlier.len() && #[trigger] earlier[i].email == email;
                assert(requests[i].email == email);
            }
        }
    }
}

/// Id monotonicity under pure growth: creating records for pairwise distinct
/// emails in an empty store, with nothing deleted in between, gives them the
/// ids 1, 2, 3 and so on in the order of their creation.
pub proof fn lemma_ids_count_up(requests: Seq<UpsertUserView>, i: int)
    requires
        distinct_emails(requests),
        0 <= i < requests.len(),
    ensures
        created(after_all(empty_store(), creates(requests.take(i))), requests[i]) == Some(
            new_record(i as nat, requests[i]),
        ),
        new_record(i as nat, requests[i]).id == i + 1,
{
    let earlier = requests.take(i);
    assert(distinct_emails(earlier));
    lemma_growth(empty_store(), earlier);
    let before = after_all(empty_store(), creates(earlier));
    if before.records.contains_key(requests[i].email) {
        let j = choose|j: int|
            0 <= j < earlier.len() && #[trigger] earlier[j].email == requests[i].email;
        assert(earlier[j] == requests[j]);
    }
}

/// Creates in any order: however creates for `requests.len()` pairwise
/// distinct emails are ordered, an empty store holds exactly that many
/// records afterwards, one for each request, and their ids are pairwise
/// different and lie between 1 and their number.
pub proof fn lemma_growth_from_empty(requests: Seq<UpsertUserView>)
    requires
        distinct_emails(requests),
    ensures
        after_all(empty_store(), creates(requests)).records.len() == requests.len(),
        forall|i: int|
            0 <= i < requests.len() ==> after_all(
                empty_store(),
                creates(requests),
            ).records.contains_key(#[trigger] requests[i].email),
        forall|email: Seq<char>| #[trigger]
            after_all(empty_store(), creates(requests)).records.contains_key(email) ==> 1
                <= after_all(empty_store(), creates(requests)).records[email].id <= requests.len(),
        forall|first: Seq<char>, second: Seq<char>|
            #[trigger] after_all(empty_store(), creates(requests)).records.contains_key(first)
                && #[trigger] after_all(empty_store(), creates(requests)).records.contains_key(
                second,
            ) && first != second ==> after_all(empty_store(), creates(requests)).records[first].id
                != after_all(empty_store(), creates(requests)).records[second].id,
{
    lemma_growth(empty_store(), requests);
}

} // verus!
