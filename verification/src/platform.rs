//! The registry itself: an owned store of property records, one to an
//! identifier.

use crate::digest::{hash_image, is_hex_digest, MAX_MESSAGE_BYTES};
use crate::error::UploadError;
use crate::model::{
    after_delete, after_upload, consistent, delete_outcome, enumerates, has_row, lookup,
    upload_outcome,
};
use crate::property::{Property, PropertyType, PropertyView};
use vstd::prelude::*;

verus! {

/// Whether some record of `records` has the identifier `id`.
spec fn holds(records: Seq<Property>, id: Seq<char>) -> bool {
    exists|i: int| 0 <= i < records.len() && (#[trigger] records[i]).id@ == id
}

/// Where in `records` the record with the identifier `id` stands.
spec fn position(records: Seq<Property>, id: Seq<char>) -> int {
    choose|i: int| 0 <= i < records.len() && (#[trigger] records[i]).id@ == id
}

/// No two records share an identifier.
spec fn distinct(records: Seq<Property>) -> bool {
    forall|i: int, j: int|
        0 <= i < j < records.len() ==> (#[trigger] records[i]).id@ != (#[trigger] records[j]).id@
}

/// The records as a map from identifier to record.
spec fn as_map(records: Seq<Property>) -> Map<Seq<char>, PropertyView> {
    Map::new(|id: Seq<char>| holds(records, id), |id: Seq<char>| records[position(records, id)]@)
}

/// The rows of a listing, as mathematical values.
pub open spec fn rows_view(rows: Seq<(String, String, String)>) -> Seq<
    (Seq<char>, Seq<char>, Seq<char>),
> {
    Seq::new(rows.len(), |i: int| (rows[i].0@, rows[i].1@, rows[i].2@))
}

/// With distinct identifiers, the record at `i` is the one that the map holds
/// under its identifier.
proof fn lemma_entry(records: Seq<Property>, i: int)
    requires
        distinct(records),
        0 <= i < records.len(),
    ensures
        as_map(records).contains_key(records[i].id@),
        as_map(records)[records[i].id@] == records[i]@,
        position(records, records[i].id@) == i,
{
}

/// A record under a new identifier, put at the end, is an insertion.
proof fn lemma_push(records: Seq<Property>, property: Property)
    requires
        distinct(records),
        !holds(records, property.id@),
    ensures
        distinct(records.push(property)),
        as_map(records.push(property)) == as_map(records).insert(property.id@, property@),
{
    let grown = records.push(property);
    let target = as_map(records).insert(property.id@, property@);
    assert forall|id: Seq<char>| #[trigger] target.contains_key(id) implies as_map(
        grown,
    ).contains_key(id) by {
        if id == property.id@ {
            assert(grown[records.len() as int].id@ == id);
        } else {
            assert(grown[position(records, id)].id@ == id);
        }
    }
    assert forall|id: Seq<char>| #[trigger] as_map(grown).contains_key(id) implies as_map(grown)[id]
        == target[id] by {
        if id == property.id@ {
            lemma_entry(grown, records.len() as int);
        } else {
            let k = position(records, id);
            lemma_entry(records, k);
            lemma_entry(grown, k);
        }
    }
}

/// A record put in the place of the one with its identifier is an insertion.
proof fn lemma_update(records: Seq<Property>, i: int, property: Property)
    requires
        distinct(records),
        0 <= i < records.len(),
        records[i].id@ == property.id@,
    ensures
        distinct(records.update(i, property)),
        as_map(records.update(i, property)) == as_map(records).insert(property.id@, property@),
{
    let changed = records.update(i, property);
    let target = as_map(records).insert(property.id@, property@);
    assert forall|id: Seq<char>| #[trigger] target.contains_key(id) implies as_map(
        changed,
    ).contains_key(id) by {
        if id == property.id@ {
            assert(changed[i].id@ == id);
        } else {
            assert(changed[position(records, id)].id@ == id);
        }
    }
    assert forall|id: Seq<char>| #[trigger] as_map(changed).contains_key(id) implies as_map(
        changed,
    )[id] == target[id] by {
        if id == property.id@ {
            lemma_entry(changed, i);
        } else {
            let k = position(records, id);
            lemma_entry(records, k);
            lemma_entry(changed, k);
        }
    }
}

/// Taking the record at `i` out removes its identifier from the map.
proof fn lemma_remove(records: Seq<Property>, i: int)
    requires
        distinct(records),
        0 <= i < records.len(),
    ensures
        distinct(records.remove(i)),
        as_map(records.remove(i)) == as_map(records).remove(records[i].id@),
{
    let rest = records.remove(i);
    let target = as_map(records).remove(records[i].id@);
    assert forall|id: Seq<char>| #[trigger] target.contains_key(id) implies as_map(
        rest,
    ).contains_key(id) by {
        let k = position(records, id);
        let moved = if k < i { k } else { k - 1 };
        assert(rest[moved].id@ == id);
    }
    assert forall|id: Seq<char>| #[trigger] as_map(rest).contains_key(id) implies as_map(rest)[id]
        == target[id] by {
        let k = position(rest, id);
        let origin = if k < i { k } else { k + 1 };
        lemma_entry(rest, k);
        lemma_entry(records, origin);
    }
}

/// The map has finitely many identifiers: as many as there are records,
/// where no two records share one.
proof fn lemma_domain(records: Seq<Property>)
    ensures
        as_map(records).dom().finite(),
        distinct(records) ==> as_map(records).dom().len() == records.len(),
    decreases records.len(),
{
    if records.len() == 0 {
        assert(as_map(records).dom() =~= Set::<Seq<char>>::empty());
    } else {
        let front = records.drop_last();
        let last = records.last();
        lemma_domain(front);
        assert forall|id: Seq<char>| #[trigger]
            as_map(front).dom().insert(last.id@).contains(id) implies as_map(
            records,
        ).dom().contains(id) by {
            if id == last.id@ {
                assert(records[records.len() - 1].id@ == id);
            } else {
                assert(records[position(front, id)].id@ == id);
            }
        }
        assert forall|id: Seq<char>| #[trigger]
            as_map(records).dom().contains(id) implies as_map(front).dom().insert(
            last.id@,
        ).contains(id) by {
            let k = position(records, id);
            if k < front.len() {
                assert(front[k].id@ == id);
            }
        }
        assert(as_map(records).dom() =~= as_map(front).dom().insert(last.id@));
        if distinct(records) && holds(front, last.id@) {
            assert(records[position(front, last.id@)].id@ == last.id@);
        }
    }
}

/// The registry: every property record that has been uploaded and not
/// deleted since, each under its identifier.
///
/// It starts empty and lives as long as its owner keeps it. Its value is
/// the map from identifier to record.
pub struct DecentralizedPlatform {
    properties: Vec<Property>,
}

impl View for DecentralizedPlatform {
    type V = Map<Seq<char>, PropertyView>;

    closed spec fn view(&self) -> Map<Seq<char>, PropertyView> {
        as_map(self.properties@)
    }
}

impl Default for DecentralizedPlatform {
    fn default() -> (platform: Self)
        ensures
            platform@ == Map::<Seq<char>, PropertyView>::empty(),
    {
        DecentralizedPlatform::new()
    }
}

impl DecentralizedPlatform {
    #[verifier::type_invariant]
    spec fn one_record_per_id(self) -> bool {
        distinct(self.properties@)
    }

    /// Every record is held under its own identifier, and there are finitely
    /// many records.
    pub proof fn view_is_consistent(self)
        ensures
            consistent(self@),
    {
        lemma_domain(self.properties@);
    }

    /// An empty registry.
    pub fn new() -> (platform: Self)
        ensures
            platform@ == Map::<Seq<char>, PropertyView>::empty(),
    {
        DecentralizedPlatform { properties: Vec::new() }
    }

    /// Where the record with the identifier `id` stands, if there is one.
    fn find(&self, id: &String) -> (found: Option<usize>)
        ensures
            match found {
                Some(i) => i < self.properties@.len() && self.properties@[i as int].id@ == id@,
                None => !holds(self.properties@, id@),
            },
    {
        let mut i: usize = 0;
        while i < self.properties.len()
            invariant
                i <= self.properties@.len(),
                forall|k: int| 0 <= k < i ==> (#[trigger] self.properties@[k]).id@ != id@,
            decreases self.properties@.len() - i,
        {
            if self.properties[i].id == *id {
                return Some(i);
            }
            i += 1;
        }
        None
    }

    /// Stores `property` under its identifier, in place of any record that
    /// stood there.
    pub fn insert(&mut self, property: Property)
        ensures
            final(self)@ == old(self)@.insert(property@.id, property@),
    {
        proof {
            use_type_invariant(&*self);
        }
        let found = self.find(&property.id);
        let mut records: Vec<Property> = Vec::new();
        std::mem::swap(&mut records, &mut self.properties);
        match found {
            Some(i) => {
                proof {
                    lemma_update(records@, i as int, property);
                }
                records.set(i, property);
            },
            None => {
                proof {
                    lemma_push(records@, property);
                }
                records.push(property);
            },
        }
        self.properties = records;
    }

    /// Registers a property with the digest of its image and answers the
    /// digest. A record already held under `property_id` is replaced. An
    /// empty image is refused and leaves the registry as it was. The image
    /// must be short enough for SHA-256 to be defined on it.
    pub fn upload_property(
        &mut self,
        property_id: String,
        property_type: PropertyType,
        image_data: Vec<u8>,
        description: String,
        owner: String,
    ) -> (outcome: Result<String, UploadError>)
        requires
            image_data@.len() <= MAX_MESSAGE_BYTES,
        ensures
            outcome is Ok <==> image_data@.len() > 0,
            outcome matches Ok(digest) ==> is_hex_digest(digest@),
            match outcome {
                Ok(digest) => upload_outcome(image_data@) == Ok::<Seq<char>, UploadError>(digest@),
                Err(error) => upload_outcome(image_data@) == Err::<Seq<char>, UploadError>(error),
            },
            final(self)@ == after_upload(
                old(self)@,
                property_id@,
                property_type@,
                image_data@,
                description@,
                owner@,
            ),
    {
        if image_data.is_empty() {
            return Err(UploadError::EmptyImage);
        }
        let hash = hash_image(&image_data);
        let property = Property {
            id: property_id,
            property_type,
            image_hash: hash.clone(),
            description,
            owner,
        };
        self.insert(property);
        Ok(hash)
    }

    /// One row for each record: its identifier, its category as displayed
    /// and the digest of its image. The order of the rows is not fixed.
    pub fn get_properties(&self) -> (rows: Vec<(String, String, String)>)
        ensures
            enumerates(rows_view(rows@), self@),
    {
        proof {
            use_type_invariant(self);
            lemma_domain(self.properties@);
        }
        let mut rows: Vec<(String, String, String)> = Vec::new();
        let mut i: usize = 0;
        while i < self.properties.len()
            invariant
                i <= self.properties@.len(),
                rows@.len() == i,
                forall|k: int|
                    0 <= k < i ==> ((#[trigger] rows@[k]).0@, rows@[k].1@, rows@[k].2@)
                        == self.properties@[k]@.summary(),
            decreases self.properties@.len() - i,
        {
            let row = self.properties[i].summary();
            rows.push(row);
            i += 1;
        }
        proof {
            let listed = rows_view(rows@);
            assert forall|k: int| 0 <= k < listed.len() implies self@.contains_key(
                (#[trigger] listed[k]).0,
            ) && listed[k] == self@[listed[k].0].summary() by {
                lemma_entry(self.properties@, k);
            }
            assert forall|id: Seq<char>| #[trigger] self@.contains_key(id) implies has_row(
                listed,
                id,
            ) by {
                assert(listed[position(self.properties@, id)].0 == id);
            }
        }
        rows
    }

    /// A copy of the record held under `property_id`, if there is one.
    pub fn get_property_by_id(&self, property_id: String) -> (found: Option<Property>)
        ensures
            match found {
                Some(property) => lookup(self@, property_id@) == Some(property@),
                None => lookup(self@, property_id@) is None,
            },
    {
        proof {
            use_type_invariant(self);
        }
        match self.find(&property_id) {
            Some(i) => {
                proof {
                    lemma_entry(self.properties@, i as int);
                }
                Some(self.properties[i].clone())
            },
            None => None,
        }
    }

    /// Deletes the record held under `property_id` and says whether there
    /// was one.
    pub fn delete_property(&mut self, property_id: String) -> (deleted: bool)
        ensures
            deleted == delete_outcome(old(self)@, property_id@),
            final(self)@ == after_delete(old(self)@, property_id@),
    {
        proof {
            use_type_invariant(&*self);
        }
        match self.find(&property_id) {
            Some(i) => {
                let mut records: Vec<Property> = Vec::new();
                std::mem::swap(&mut records, &mut self.properties);
                proof {
                    lemma_entry(records@, i as int);
                    lemma_remove(records@, i as int);
                }
                records.remove(i);
                self.properties = records;
                true
            },
            None => false,
        }
    }
}

} // verus!
