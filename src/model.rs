//! What a collection holds and what each by-identifier operation reports
//! against it: the backend files each record under its identifier, and the
//! storage layer reads the caller's identifier before the backend is asked.

use vstd::prelude::*;
use crate::error::ErrorKind;
use crate::models::{
    lemma_patch_keeps_unnamed_fields, opt_view, patched_user, user_patch_fields, CollectionTrait,
    UserUpdateRequest, UserView,
};
use crate::object_id::{hex_of, is_object_id_hex, lemma_hex_round_trip, object_id_of};
use crate::storage::{id_outcome, lookup_outcome, DeleteOutcome, UpdateOutcome};

verus! {

/// The record filed under `key`, if any.
pub open spec fn stored<D>(m: Map<Seq<u8>, D>, key: Seq<u8>) -> Option<D> {
    if m.contains_key(key) {
        Some(m[key])
    } else {
        None
    }
}

/// The collection after a record is inserted: it is filed under its own
/// identifier.
pub open spec fn after_insert<D: CollectionTrait>(m: Map<Seq<u8>, D>, r: D) -> Map<Seq<u8>, D> {
    m.insert(r.id_of()@, r)
}

/// What looking a record up by the text `id` reports.
pub open spec fn get_by_id_outcome<D>(m: Map<Seq<u8>, D>, id: Seq<char>) -> Result<D, ErrorKind> {
    match id_outcome(id) {
        Ok(key) => lookup_outcome(stored(m, key)),
        Err(k) => Err(k),
    }
}

/// What updating the record with identifier text `id` by `patch` leaves and
/// reports. A record the patch does not change counts as matched only.
pub open spec fn update_by_id_outcome<D>(
    m: Map<Seq<u8>, D>,
    id: Seq<char>,
    patch: spec_fn(D) -> D,
) -> Result<(Map<Seq<u8>, D>, UpdateOutcome), ErrorKind> {
    match id_outcome(id) {
        Ok(key) => if m.contains_key(key) {
            let changed = patch(m[key]);
            Ok(
                (
                    m.insert(key, changed),
                    UpdateOutcome {
                        matched_count: 1,
                        modified_count: if changed == m[key] {
                            0
                        } else {
                            1
                        },
                    },
                ),
            )
        } else {
            Ok((m, UpdateOutcome { matched_count: 0, modified_count: 0 }))
        },
        Err(k) => Err(k),
    }
}

/// What deleting the record with identifier text `id` leaves and reports.
pub open spec fn delete_by_id_outcome<D>(m: Map<Seq<u8>, D>, id: Seq<char>) -> Result<
    (Map<Seq<u8>, D>, DeleteOutcome),
    ErrorKind,
> {
    match id_outcome(id) {
        Ok(key) => Ok(
            (
                m.remove(key),
                DeleteOutcome {
                    deleted_count: if m.contains_key(key) {
                        1
                    } else {
                        0
                    },
                },
            ),
        ),
        Err(k) => Err(k),
    }
}

/// A well-formed identifier that no record carries is reported as not found.
pub proof fn lemma_absent_id_not_found<D>(m: Map<Seq<u8>, D>, id: Seq<char>)
    requires
        is_object_id_hex(id),
        !m.contains_key(object_id_of(id)),
    ensures
        get_by_id_outcome(m, id) == Err::<D, ErrorKind>(ErrorKind::NotFound),
{
}

/// A malformed identifier is refused by every by-identifier operation, the
/// same way whatever the collection holds: the backend is never consulted.
pub proof fn lemma_malformed_id_refused<D>(
    m: Map<Seq<u8>, D>,
    other: Map<Seq<u8>, D>,
    id: Seq<char>,
    patch: spec_fn(D) -> D,
)
    requires
        !is_object_id_hex(id),
    ensures
        get_by_id_outcome(m, id) == Err::<D, ErrorKind>(ErrorKind::InvalidArgument),
        update_by_id_outcome(m, id, patch) == Err::<(Map<Seq<u8>, D>, UpdateOutcome), ErrorKind>(
            ErrorKind::InvalidArgument,
        ),
        delete_by_id_outcome(m, id) == Err::<(Map<Seq<u8>, D>, DeleteOutcome), ErrorKind>(
            ErrorKind::InvalidArgument,
        ),
        get_by_id_outcome(other, id) == get_by_id_outcome(m, id),
        update_by_id_outcome(other, id, patch) == update_by_id_outcome(m, id, patch),
        delete_by_id_outcome(other, id) == delete_by_id_outcome(m, id),
{
}

/// After a record is inserted, looking it up by the rendering of its
/// identifier gives it back, and that rendering is a well-formed identifier.
pub proof fn lemma_insert_then_get<D: CollectionTrait>(m: Map<Seq<u8>, D>, r: D)
    ensures
        is_object_id_hex(hex_of(r.id_of()@)),
        get_by_id_outcome(after_insert(m, r), hex_of(r.id_of()@)) == Ok::<D, ErrorKind>(r),
{
    lemma_hex_round_trip(r.id_of()@);
}

/// Deleting a present record twice: the first delete removes it, the second
/// finds nothing, and neither fails.
pub proof fn lemma_delete_twice<D>(m: Map<Seq<u8>, D>, id: Seq<char>)
    requires
        is_object_id_hex(id),
        m.contains_key(object_id_of(id)),
    ensures
        delete_by_id_outcome(m, id) matches Ok((m1, first)) && first.deleted_count == 1 && (
        delete_by_id_outcome(m1, id) matches Ok((_, second)) && second.deleted_count == 0),
{
}

/// Updating or deleting by a well-formed identifier that no record carries
/// succeeds with zero counts and leaves the collection as it was.
pub proof fn lemma_absent_id_zero_counts<D>(
    m: Map<Seq<u8>, D>,
    id: Seq<char>,
    patch: spec_fn(D) -> D,
)
    requires
        is_object_id_hex(id),
        !m.contains_key(object_id_of(id)),
    ensures
        update_by_id_outcome(m, id, patch) == Ok::<(Map<Seq<u8>, D>, UpdateOutcome), ErrorKind>(
            (m, UpdateOutcome { matched_count: 0, modified_count: 0 }),
        ),
        delete_by_id_outcome(m, id) matches Ok((m1, o)) && m1 == m && o.deleted_count == 0,
{
    assert(m.remove(object_id_of(id)) =~= m);
}

/// Updating a stored user by the fields of a patch request: one record
/// matches, it keeps its identifier, the fields the request gives take its
/// values, the others keep theirs, and no other record changes.
pub proof fn lemma_user_patch_update(m: Map<Seq<u8>, UserView>, id: Seq<char>, req: UserUpdateRequest)
    requires
        is_object_id_hex(id),
        m.contains_key(object_id_of(id)),
    ensures
        ({
            let key = object_id_of(id);
            let old_user = m[key];
            let fields = user_patch_fields(opt_view(req.username), opt_view(req.password));
            let expected = UserView {
                id: old_user.id,
                username: match req.username {
                    Some(n) => n@,
                    None => old_user.username,
                },
                password: match req.password {
                    Some(p) => p@,
                    None => old_user.password,
                },
            };
            update_by_id_outcome(m, id, |u: UserView| patched_user(u, fields)) matches Ok((m1, o))
                && o.matched_count == 1 && m1 == m.insert(key, expected)
        }),
{
    let key = object_id_of(id);
    let u = m[key];
    lemma_patch_keeps_unnamed_fields(
        (u.username, u.password),
        opt_view(req.username),
        opt_view(req.password),
    );
}

} // verus!
