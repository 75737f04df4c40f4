use vstd::prelude::*;

verus! {

/// A node of the family tree: one row of the person table.
///
/// The caller assigns `id` before creation and supplies both
/// timestamps; the store never generates fields. `birth_date`,
/// `death_date` and the timestamps are date-valued text whose format
/// this layer does not validate. `photo` is an opaque reference.
/// `position_x` and `position_y` are purely presentational coordinates,
/// persisted verbatim as the IEEE 754 bit patterns of the caller's
/// double-precision values; this layer never interprets them as
/// numbers.
#[derive(Debug, PartialEq, Eq)]
pub struct Person {
    pub id: String,
    pub first_name: String,
    pub last_name: String,
    pub birth_date: Option<String>,
    pub death_date: Option<String>,
    pub photo: Option<String>,
    pub generation: i32,
    pub position_x: Option<u64>,
    pub position_y: Option<u64>,
    pub created_at: String,
    pub updated_at: String,
}

/// Clones an optional text field; the copy equals the original.
pub(crate) fn clone_opt_string(o: &Option<String>) -> (r: Option<String>)
    ensures
        r == *o,
{
    match o {
        Some(s) => Some(s.clone()),
        None => None,
    }
}

impl Clone for Person {
    /// The copy equals the original in every field.
    fn clone(&self) -> (r: Self)
        ensures
            r == *self,
    {
        Person {
            id: self.id.clone(),
            first_name: self.first_name.clone(),
            last_name: self.last_name.clone(),
            birth_date: clone_opt_string(&self.birth_date),
            death_date: clone_opt_string(&self.death_date),
            photo: clone_opt_string(&self.photo),
            generation: self.generation,
            position_x: self.position_x,
            position_y: self.position_y,
            created_at: self.created_at.clone(),
            updated_at: self.updated_at.clone(),
        }
    }
}

/// Whether some row of `s` has identifier `id` (compared by content).
pub open spec fn contains_person_id(s: Seq<Person>, id: Seq<char>) -> bool {
    exists|i: int| 0 <= i < s.len() && (#[trigger] s[i]).id@ == id
}

/// Whether the identifiers of the rows of `s` are pairwise distinct:
/// the uniqueness invariant of the person table.
pub open spec fn person_ids_unique(s: Seq<Person>) -> bool {
    forall|i: int, j: int| 0 <= i < j < s.len() ==> (#[trigger] s[i]).id@ != (#[trigger] s[j]).id@
}

/// The row that replaces `row` when an update supplies `p`: every
/// mutable field is taken from `p`, while the identifier and
/// `created_at` — which an update never touches — are kept from `row`.
pub open spec fn updated_person(row: Person, p: Person) -> Person {
    Person {
        id: row.id,
        first_name: p.first_name,
        last_name: p.last_name,
        birth_date: p.birth_date,
        death_date: p.death_date,
        photo: p.photo,
        generation: p.generation,
        position_x: p.position_x,
        position_y: p.position_y,
        created_at: row.created_at,
        updated_at: p.updated_at,
    }
}

} // verus!
