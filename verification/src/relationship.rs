use vstd::prelude::*;

use crate::person::clone_opt_string;

verus! {

/// A directed, typed edge between two persons: one row of the
/// relationship table.
///
/// `from_person_id` and `to_person_id` are meant to reference existing
/// person identifiers, but the store declares that intent without
/// enforcing it: no existence check runs before an insert, and deleting
/// a referenced person leaves the edge in place. `rel_type` is an open
/// string discriminator; `spouse_type` and `marriage_number` are
/// meaningful only for spouse-typed edges and unconstrained otherwise.
#[derive(Debug, PartialEq, Eq)]
pub struct Relationship {
    pub id: String,
    pub from_person_id: String,
    pub to_person_id: String,
    pub rel_type: String,
    pub spouse_type: Option<String>,
    pub marriage_number: Option<i32>,
    pub start_date: Option<String>,
    pub end_date: Option<String>,
    pub color: String,
    pub created_at: String,
    pub updated_at: String,
}

impl Clone for Relationship {
    /// The copy equals the original in every field.
    fn clone(&self) -> (r: Self)
        ensures
            r == *self,
    {
        Relationship {
            id: self.id.clone(),
            from_person_id: self.from_person_id.clone(),
            to_person_id: self.to_person_id.clone(),
            rel_type: self.rel_type.clone(),
            spouse_type: clone_opt_string(&self.spouse_type),
            marriage_number: self.marriage_number,
            start_date: clone_opt_string(&self.start_date),
            end_date: clone_opt_string(&self.end_date),
            color: self.color.clone(),
            created_at: self.created_at.clone(),
            updated_at: self.updated_at.clone(),
        }
    }
}

/// Whether some row of `s` has identifier `id` (compared by content).
pub open spec fn contains_relationship_id(s: Seq<Relationship>, id: Seq<char>) -> bool {
    exists|i: int| 0 <= i < s.len() && (#[trigger] s[i]).id@ == id
}

/// Whether the identifiers of the rows of `s` are pairwise distinct:
/// the uniqueness invariant of the relationship table.
pub open spec fn relationship_ids_unique(s: Seq<Relationship>) -> bool {
    forall|i: int, j: int| 0 <= i < j < s.len() ==> (#[trigger] s[i]).id@ != (#[trigger] s[j]).id@
}

/// Whether `person_id` appears at either endpoint of `r`: the two-sided
/// match behind the endpoint query.
pub open spec fn touches(r: Relationship, person_id: Seq<char>) -> bool {
    r.from_person_id@ == person_id || r.to_person_id@ == person_id
}

/// The rows of `s` that touch `person_id`, in the order they stand in
/// `s`: the model of the endpoint query.
pub open spec fn relationships_for_person(s: Seq<Relationship>, person_id: Seq<char>) -> Seq<
    Relationship,
>
    decreases s.len(),
{
    if s.len() == 0 {
        s
    } else if touches(s.last(), person_id) {
        relationships_for_person(s.drop_last(), person_id).push(s.last())
    } else {
        relationships_for_person(s.drop_last(), person_id)
    }
}

/// The row that replaces `row` when an update supplies `r`: every
/// mutable field is taken from `r`, while the identifier and
/// `created_at` — which an update never touches — are kept from `row`.
pub open spec fn updated_relationship(row: Relationship, r: Relationship) -> Relationship {
    Relationship {
        id: row.id,
        from_person_id: r.from_person_id,
        to_person_id: r.to_person_id,
        rel_type: r.rel_type,
        spouse_type: r.spouse_type,
        marriage_number: r.marriage_number,
        start_date: r.start_date,
        end_date: r.end_date,
        color: r.color,
        created_at: row.created_at,
        updated_at: r.updated_at,
    }
}

} // verus!
