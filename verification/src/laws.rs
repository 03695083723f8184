//! What holds of the registry's operations taken together.

use crate::digest::{image_digest, lemma_lower_hex_injective, sha256};
use crate::error::UploadError;
use crate::model::{
    after_delete, after_upload, consistent, delete_outcome, enumerates, has_row, last_on,
    left_under, lookup, replay, upload_outcome, uploaded_record, Operation,
};
use crate::property::{PropertyTypeView, PropertyView};
use vstd::prelude::*;

verus! {

/// The digest of an image depends on its bytes alone: two digests taken of
/// the same bytes are the same string.
pub proof fn digest_is_deterministic(image_data: Seq<u8>, first: Seq<char>, second: Seq<char>)
    requires
        first == image_digest(image_data),
        second == image_digest(image_data),
    ensures
        first == second,
{
}

/// Two images have the same digest string exactly when they have the same
/// SHA-256 digest: the rendering adds no collision of its own.
pub proof fn digests_differ_as_hashes_do(first: Seq<u8>, second: Seq<u8>)
    ensures
        image_digest(first) == image_digest(second) <==> sha256(first) == sha256(second),
{
    if image_digest(first) == image_digest(second) {
        lemma_lower_hex_injective(sha256(first), sha256(second));
    }
}

/// After an upload with a non-empty image, a lookup of the same identifier
/// gives back what was uploaded, with the digest of the image, and the upload
/// has answered that digest.
pub proof fn upload_then_get(
    registry: Map<Seq<char>, PropertyView>,
    id: Seq<char>,
    property_type: PropertyTypeView,
    image_data: Seq<u8>,
    description: Seq<char>,
    owner: Seq<char>,
)
    requires
        image_data.len() > 0,
    ensures
        lookup(after_upload(registry, id, property_type, image_data, description, owner), id)
            == Some(
            PropertyView {
                id,
                property_type,
                image_hash: image_digest(image_data),
                description,
                owner,
            },
        ),
        upload_outcome(image_data) == Ok::<Seq<char>, UploadError>(image_digest(image_data)),
{
}

/// A second upload under the same identifier replaces the first entirely:
/// the registry is as if the first had never been made.
pub proof fn second_upload_replaces_first(
    registry: Map<Seq<char>, PropertyView>,
    id: Seq<char>,
    first_type: PropertyTypeView,
    first_image: Seq<u8>,
    first_description: Seq<char>,
    first_owner: Seq<char>,
    second_type: PropertyTypeView,
    second_image: Seq<u8>,
    second_description: Seq<char>,
    second_owner: Seq<char>,
)
    requires
        second_image.len() > 0,
    ensures
        after_upload(
            after_upload(registry, id, first_type, first_image, first_description, first_owner),
            id,
            second_type,
            second_image,
            second_description,
            second_owner,
        ) == after_upload(
            registry,
            id,
            second_type,
            second_image,
            second_description,
            second_owner,
        ),
        lookup(
            after_upload(
                after_upload(registry, id, first_type, first_image, first_description, first_owner),
                id,
                second_type,
                second_image,
                second_description,
                second_owner,
            ),
            id,
        ) == Some(
            uploaded_record(id, second_type, second_image, second_description, second_owner),
        ),
{
}

/// Deleting a record that is there answers true, and a lookup then finds
/// nothing under its identifier.
pub proof fn delete_present(registry: Map<Seq<char>, PropertyView>, id: Seq<char>)
    requires
        registry.contains_key(id),
    ensures
        delete_outcome(registry, id),
        lookup(after_delete(registry, id), id) is None,
{
}

/// Deleting under an identifier that holds no record answers false and
/// leaves the registry as it was.
pub proof fn delete_absent(registry: Map<Seq<char>, PropertyView>, id: Seq<char>)
    requires
        !registry.contains_key(id),
    ensures
        !delete_outcome(registry, id),
        after_delete(registry, id) == registry,
{
}

/// An upload with an empty image is refused and leaves the registry as it
/// was.
pub proof fn empty_upload_changes_nothing(
    registry: Map<Seq<char>, PropertyView>,
    id: Seq<char>,
    property_type: PropertyTypeView,
    description: Seq<char>,
    owner: Seq<char>,
)
    ensures
        upload_outcome(Seq::<u8>::empty()) == Err::<Seq<char>, UploadError>(
            UploadError::EmptyImage,
        ),
        after_upload(registry, id, property_type, Seq::<u8>::empty(), description, owner)
            == registry,
{
}

/// Whatever uploads and deletions have been made, every record is held under
/// its own identifier, and there are finitely many records.
pub proof fn replay_is_consistent(history: Seq<Operation>)
    ensures
        consistent(replay(history)),
    decreases history.len(),
{
    if history.len() > 0 {
        replay_is_consistent(history.drop_last());
    }
}

/// At most one operation of a history is the last to settle an identifier.
pub proof fn last_on_is_unique(history: Seq<Operation>, id: Seq<char>, first: int, second: int)
    requires
        last_on(history, id, first),
        last_on(history, id, second),
    ensures
        first == second,
{
}

/// After a history of operations, a lookup finds under each identifier what
/// the last operation that settles it has stored: nothing after a deletion,
/// and nothing where no operation settles it. Refused uploads count for
/// nothing.
pub proof fn replay_holds_what_was_left(history: Seq<Operation>, id: Seq<char>)
    ensures
        lookup(replay(history), id) == left_under(history, id),
    decreases history.len(),
{
    if history.len() > 0 {
        let before = history.drop_last();
        let end = history.len() - 1;
        replay_holds_what_was_left(before, id);
        if history[end].settles(id) {
            assert(last_on(history, id, end));
            let at = choose|at: int| last_on(history, id, at);
            last_on_is_unique(history, id, at, end);
        } else {
            assert forall|at: int| last_on(history, id, at) <==> last_on(before, id, at) by {
                if last_on(before, id, at) {
                    assert forall|later: int| at < later < history.len() implies !(
                    #[trigger] history[later]).settles(id) by {
                        if later < end {
                            assert(before[later] == history[later]);
                        }
                    }
                }
            }
            if exists|at: int| last_on(before, id, at) {
                let at = choose|at: int| last_on(before, id, at);
                assert(last_on(history, id, at));
                let again = choose|at: int| last_on(history, id, at);
                last_on_is_unique(history, id, at, again);
                assert(before[at] == history[at]);
            }
        }
    }
}

/// A listing of the registry that a history leaves has a row for exactly the
/// identifiers under which the history leaves a record, one row each, and
/// the row is the summary of that record: it shows the digest of the image
/// of the upload that left it.
pub proof fn listing_is_complete(
    history: Seq<Operation>,
    rows: Seq<(Seq<char>, Seq<char>, Seq<char>)>,
)
    requires
        enumerates(rows, replay(history)),
    ensures
        forall|id: Seq<char>| #[trigger] has_row(rows, id) <==> left_under(history, id) is Some,
        forall|i: int|
            0 <= i < rows.len() ==> (left_under(history, (#[trigger] rows[i]).0) matches Some(
                record,
            ) && rows[i] == record.summary()),
        forall|i: int, j: int|
            0 <= i < j < rows.len() ==> (#[trigger] rows[i]).0 != (#[trigger] rows[j]).0,
{
    assert forall|id: Seq<char>| #[trigger]
        has_row(rows, id) <==> left_under(history, id) is Some by {
        replay_holds_what_was_left(history, id);
    }
    assert forall|i: int| 0 <= i < rows.len() implies (left_under(
        history,
        (#[trigger] rows[i]).0,
    ) matches Some(record) && rows[i] == record.summary()) by {
        replay_holds_what_was_left(history, rows[i].0);
    }
}

} // verus!
