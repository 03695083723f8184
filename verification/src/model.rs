//! The registry as a mathematical map, and what each operation does to it.

use crate::digest::image_digest;
use crate::error::UploadError;
use crate::property::{PropertyTypeView, PropertyView};
use vstd::prelude::*;

verus! {

/// Every record is held under its own identifier, and there are finitely many.
pub open spec fn consistent(registry: Map<Seq<char>, PropertyView>) -> bool {
    &&& registry.dom().finite()
    &&& forall|id: Seq<char>| #[trigger] registry.contains_key(id) ==> registry[id].id == id
}

/// The record that an upload stores.
pub open spec fn uploaded_record(
    id: Seq<char>,
    property_type: PropertyTypeView,
    image_data: Seq<u8>,
    description: Seq<char>,
    owner: Seq<char>,
) -> PropertyView {
    PropertyView { id, property_type, image_hash: image_digest(image_data), description, owner }
}

/// What an upload answers: the digest of the image, unless the image is empty.
pub open spec fn upload_outcome(image_data: Seq<u8>) -> Result<Seq<char>, UploadError> {
    if image_data.len() == 0 {
        Err(UploadError::EmptyImage)
    } else {
        Ok(image_digest(image_data))
    }
}

/// The registry after an upload: the new record stands under its identifier,
/// in place of any record that stood there; an empty image changes nothing.
pub open spec fn after_upload(
    registry: Map<Seq<char>, PropertyView>,
    id: Seq<char>,
    property_type: PropertyTypeView,
    image_data: Seq<u8>,
    description: Seq<char>,
    owner: Seq<char>,
) -> Map<Seq<char>, PropertyView> {
    if image_data.len() == 0 {
        registry
    } else {
        registry.insert(id, uploaded_record(id, property_type, image_data, description, owner))
    }
}

/// The record held under `id`, if there is one.
pub open spec fn lookup(registry: Map<Seq<char>, PropertyView>, id: Seq<char>) -> Option<
    PropertyView,
> {
    if registry.contains_key(id) {
        Some(registry[id])
    } else {
        None
    }
}

/// The registry after the record under `id`, if any, has been deleted.
pub open spec fn after_delete(registry: Map<Seq<char>, PropertyView>, id: Seq<char>) -> Map<
    Seq<char>,
    PropertyView,
> {
    registry.remove(id)
}

/// What a deletion answers: whether a record stood under `id`.
pub open spec fn delete_outcome(registry: Map<Seq<char>, PropertyView>, id: Seq<char>) -> bool {
    registry.contains_key(id)
}

/// Whether one of `rows` is the row of `id`.
pub open spec fn has_row(rows: Seq<(Seq<char>, Seq<char>, Seq<char>)>, id: Seq<char>) -> bool {
    exists|i: int| 0 <= i < rows.len() && (#[trigger] rows[i]).0 == id
}

/// Whether `rows` lists the registry: one row for each record and no other,
/// each the summary of the record that its identifier names, in any order.
pub open spec fn enumerates(
    rows: Seq<(Seq<char>, Seq<char>, Seq<char>)>,
    registry: Map<Seq<char>, PropertyView>,
) -> bool {
    &&& rows.len() == registry.dom().len()
    &&& forall|i: int|
        0 <= i < rows.len() ==> registry.contains_key((#[trigger] rows[i]).0) && rows[i]
            == registry[rows[i].0].summary()
    &&& forall|i: int, j: int|
        0 <= i < j < rows.len() ==> (#[trigger] rows[i]).0 != (#[trigger] rows[j]).0
    &&& forall|id: Seq<char>| #[trigger] registry.contains_key(id) ==> has_row(rows, id)
}

/// One change asked of the registry.
pub enum Operation {
    Upload {
        id: Seq<char>,
        property_type: PropertyTypeView,
        image_data: Seq<u8>,
        description: Seq<char>,
        owner: Seq<char>,
    },
    Delete { id: Seq<char> },
}

impl Operation {
    /// The identifier that the operation names.
    pub open spec fn id(self) -> Seq<char> {
        match self {
            Operation::Upload { id, .. } => id,
            Operation::Delete { id } => id,
        }
    }

    /// The record that the operation stores: none where it is a deletion, or
    /// an upload that the registry refuses.
    pub open spec fn stored(self) -> Option<PropertyView> {
        match self {
            Operation::Upload { id, property_type, image_data, description, owner } => {
                if image_data.len() > 0 {
                    Some(uploaded_record(id, property_type, image_data, description, owner))
                } else {
                    None
                }
            },
            Operation::Delete { id } => None,
        }
    }

    /// Whether the operation decides what stands under `id`: it names `id`
    /// and is not an upload that the registry refuses.
    pub open spec fn settles(self, id: Seq<char>) -> bool {
        self.id() == id && (self is Delete || self.stored() is Some)
    }

    /// The registry after the operation.
    pub open spec fn apply(self, registry: Map<Seq<char>, PropertyView>) -> Map<
        Seq<char>,
        PropertyView,
    > {
        match self {
            Operation::Upload { id, property_type, image_data, description, owner } => {
                after_upload(registry, id, property_type, image_data, description, owner)
            },
            Operation::Delete { id } => after_delete(registry, id),
        }
    }
}

/// The registry that a history of operations leaves, starting from empty.
pub open spec fn replay(history: Seq<Operation>) -> Map<Seq<char>, PropertyView>
    decreases history.len(),
{
    if history.len() == 0 {
        Map::empty()
    } else {
        history.last().apply(replay(history.drop_last()))
    }
}

/// Whether the operation at `at` is the last one in `history` that settles
/// what stands under `id`.
pub open spec fn last_on(history: Seq<Operation>, id: Seq<char>, at: int) -> bool {
    &&& 0 <= at < history.len()
    &&& history[at].settles(id)
    &&& forall|later: int| at < later < history.len() ==> !(#[trigger] history[later]).settles(id)
}

/// What a history leaves under `id`: the record of the last operation that
/// settles `id`, and nothing where no operation does.
pub open spec fn left_under(history: Seq<Operation>, id: Seq<char>) -> Option<PropertyView> {
    if exists|at: int| last_on(history, id, at) {
        history[choose|at: int| last_on(history, id, at)].stored()
    } else {
        None
    }
}

} // verus!
