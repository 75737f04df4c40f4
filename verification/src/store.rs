use vstd::prelude::*;

use crate::errors::StoreError;
use crate::person::{contains_person_id, person_ids_unique, updated_person, Person};
use crate::relationship::{
    contains_relationship_id, relationship_ids_unique, relationships_for_person,
    updated_relationship, Relationship,
};

verus! {

/// The persistence core: the person table and the relationship table,
/// each a sequence of rows in insertion order with pairwise-distinct
/// identifiers.
///
/// Each public operation is one atomic step over this state; the
/// embedding program serializes concurrent callers around it (one
/// mutual-exclusion guard, held for the duration of one operation) and
/// mirrors every successful mutation to durable storage.
pub struct FamilyTree {
    persons: Vec<Person>,
    relationships: Vec<Relationship>,
}

impl FamilyTree {
    /// The rows of the person table, in insertion order.
    pub closed spec fn person_rows(&self) -> Seq<Person> {
        self.persons@
    }

    /// The rows of the relationship table, in insertion order.
    pub closed spec fn relationship_rows(&self) -> Seq<Relationship> {
        self.relationships@
    }

    /// Well-formedness: identifiers are unique within each table.
    pub open spec fn wf(&self) -> bool {
        &&& person_ids_unique(self.person_rows())
        &&& relationship_ids_unique(self.relationship_rows())
    }

    /// An empty store: what the schema initializer leaves behind on a
    /// fresh medium. On an already-populated medium initialization is
    /// a no-op; the embedding program then loads the existing rows.
    pub fn new() -> (r: FamilyTree)
        ensures
            r.wf(),
            r.person_rows() == Seq::<Person>::empty(),
            r.relationship_rows() == Seq::<Relationship>::empty(),
    {
        FamilyTree { persons: Vec::new(), relationships: Vec::new() }
    }

    /// Inserts a new person row. Fails with `DuplicateId`, leaving the
    /// store unchanged, when a row with the same identifier exists; on
    /// success appends the row and returns the entity unchanged.
    pub fn create_person(&mut self, p: Person) -> (r: Result<Person, StoreError>)
        requires
            old(self).wf(),
        ensures
            final(self).wf(),
            contains_person_id(old(self).person_rows(), p.id@) ==> {
                &&& r == Result::<Person, StoreError>::Err(StoreError::DuplicateId)
                &&& *final(self) == *old(self)
            },
            !contains_person_id(old(self).person_rows(), p.id@) ==> {
                &&& r == Result::<Person, StoreError>::Ok(p)
                &&& final(self).person_rows() == old(self).person_rows().push(p)
                &&& final(self).relationship_rows() == old(self).relationship_rows()
            },
    {
        if find_person_index(&self.persons, &p.id).is_some() {
            return Err(StoreError::DuplicateId);
        }
        let ret = p.clone();
        self.persons.push(p);
        proof {
            let s = old(self).person_rows();
            let s2 = self.person_rows();
            assert forall|i: int, j: int| 0 <= i < j < s2.len() implies (#[trigger] s2[i]).id@
                != (#[trigger] s2[j]).id@ by {
                if j < s.len() {
                    assert(s[i].id@ != s[j].id@);
                } else {
                    assert(s2[j] == p);
                    assert(s[i].id@ != p.id@);
                }
            }
        }
        Ok(ret)
    }

    /// Returns the person with identifier `id`, or `None` — an explicit
    /// "not found", not an error — when no row matches.
    pub fn get_person(&self, id: &String) -> (r: Option<Person>)
        ensures
            match r {
                Some(q) => exists|i: int|
                    0 <= i < self.person_rows().len() && (#[trigger] self.person_rows()[i]).id@
                        == id@ && q == self.person_rows()[i],
                None => !contains_person_id(self.person_rows(), id@),
            },
    {
        match find_person_index(&self.persons, id) {
            Some(i) => {
                let q = self.persons[i].clone();
                proof {
                    assert((#[trigger] self.person_rows()[i as int]).id@ == id@ && q
                        == self.person_rows()[i as int]);
                }
                Some(q)
            },
            None => None,
        }
    }

    /// Replaces every mutable field of the row identified by `p.id`
    /// with the supplied values, including `updated_at`; the stored
    /// identifier and `created_at` are kept. When no row matches, the
    /// store is left unchanged and the operation reports `NotFound`
    /// rather than silently succeeding. On success returns the
    /// caller-supplied entity unchanged.
    pub fn update_person(&mut self, p: Person) -> (r: Result<Person, StoreError>)
        requires
            old(self).wf(),
        ensures
            final(self).wf(),
            !contains_person_id(old(self).person_rows(), p.id@) ==> {
                &&& r == Result::<Person, StoreError>::Err(StoreError::NotFound)
                &&& *final(self) == *old(self)
            },
            contains_person_id(old(self).person_rows(), p.id@) ==> {
                &&& r == Result::<Person, StoreError>::Ok(p)
                &&& final(self).relationship_rows() == old(self).relationship_rows()
                &&& exists|i: int|
                    0 <= i < old(self).person_rows().len() && (#[trigger] old(
                        self,
                    ).person_rows()[i]).id@ == p.id@ && final(self).person_rows() == old(
                        self,
                    ).person_rows().update(i, updated_person(old(self).person_rows()[i], p))
            },
    {
        match find_person_index(&self.persons, &p.id) {
            None => Err(StoreError::NotFound),
            Some(i) => {
                let ret = p.clone();
                let row = self.persons.remove(i);
                let merged = Person {
                    id: row.id,
                    first_name: p.first_name,
                    last_name: p.last_name,
                    birth_date: p.birth_date,
                    death_date: p.death_date,
                    photo: p.photo,
                    generation: p.generation,
                    position_x: p.position_x,
                    position_y: p.position_y,
                    created_at: row.created_at,
                    updated_at: p.updated_at,
                };
                self.persons.insert(i, merged);
                proof {
                    let s = old(self).person_rows();
                    let s2 = self.person_rows();
                    assert(s2 =~= s.update(i as int, merged));
                    assert(merged == updated_person(s[i as int], ret));
                    assert forall|a: int, b: int| 0 <= a < b < s2.len() implies (
                    #[trigger] s2[a]).id@ != (#[trigger] s2[b]).id@ by {
                        assert(s2[a].id@ == s[a].id@);
                        assert(s2[b].id@ == s[b].id@);
                    }
                    assert((#[trigger] s[i as int]).id@ == ret.id@ && s2 == s.update(
                        i as int,
                        updated_person(s[i as int], ret),
                    ));
                }
                Ok(ret)
            },
        }
    }

    /// Removes the person row with identifier `id`. Deleting an absent
    /// identifier is not an error: the store is simply left unchanged.
    /// Relationships referencing the removed person are left in place —
    /// the referential intent is declared, not enforced.
    pub fn delete_person(&mut self, id: &String)
        requires
            old(self).wf(),
        ensures
            final(self).wf(),
            final(self).relationship_rows() == old(self).relationship_rows(),
            !contains_person_id(old(self).person_rows(), id@) ==> *final(self) == *old(self),
            contains_person_id(old(self).person_rows(), id@) ==> exists|i: int|
                0 <= i < old(self).person_rows().len() && (#[trigger] old(
                    self,
                ).person_rows()[i]).id@ == id@ && final(self).person_rows() == old(
                    self,
                ).person_rows().remove(i),
    {
        match find_person_index(&self.persons, id) {
            None => (),
            Some(i) => {
                self.persons.remove(i);
                proof {
                    let s = old(self).person_rows();
                    let s2 = self.person_rows();
                    s.remove_ensures(i as int);
                    assert forall|a: int, b: int| 0 <= a < b < s2.len() implies (
                    #[trigger] s2[a]).id@ != (#[trigger] s2[b]).id@ by {
                        if a < i {
                            assert(s2[a] == s[a]);
                        } else {
                            assert(s2[a] == s[a + 1]);
                        }
                        if b < i {
                            assert(s2[b] == s[b]);
                        } else {
                            assert(s2[b] == s[b + 1]);
                        }
                    }
                    assert((#[trigger] s[i as int]).id@ == id@ && s2 == s.remove(i as int));
                }
            },
        }
    }

    /// Returns every person row, in insertion order.
    pub fn get_all_persons(&self) -> (r: Vec<Person>)
        ensures
            r@ == self.person_rows(),
    {
        let mut out: Vec<Person> = Vec::new();
        let mut i: usize = 0;
        while i < self.persons.len()
            invariant
                i <= self.persons@.len(),
                out@ == self.persons@.take(i as int),
            decreases self.persons@.len() - i,
        {
            out.push(self.persons[i].clone());
            proof {
                assert(self.persons@.take(i + 1 as int) =~= self.persons@.take(i as int).push(
                    self.persons@[i as int],
                ));
            }
            i = i + 1;
        }
        proof {
            assert(self.persons@.take(self.persons@.len() as int) =~= self.persons@);
        }
        out
    }

    /// Inserts a new relationship row. Fails with `DuplicateId`,
    /// leaving the store unchanged, when a row with the same identifier
    /// exists; on success appends the row and returns the entity
    /// unchanged. Whether the endpoints reference existing persons is
    /// not checked, matching the declared-but-unenforced referential
    /// policy.
    pub fn create_relationship(&mut self, r: Relationship) -> (res: Result<
        Relationship,
        StoreError,
    >)
        requires
            old(self).wf(),
        ensures
            final(self).wf(),
            contains_relationship_id(old(self).relationship_rows(), r.id@) ==> {
                &&& res == Result::<Relationship, StoreError>::Err(StoreError::DuplicateId)
                &&& *final(self) == *old(self)
            },
            !contains_relationship_id(old(self).relationship_rows(), r.id@) ==> {
                &&& res == Result::<Relationship, StoreError>::Ok(r)
                &&& final(self).relationship_rows() == old(self).relationship_rows().push(r)
                &&& final(self).person_rows() == old(self).person_rows()
            },
    {
        if find_relationship_index(&self.relationships, &r.id).is_some() {
            return Err(StoreError::DuplicateId);
        }
        let ret = r.clone();
        self.relationships.push(r);
        proof {
            let s = old(self).relationship_rows();
            let s2 = self.relationship_rows();
            assert forall|i: int, j: int| 0 <= i < j < s2.len() implies (#[trigger] s2[i]).id@
                != (#[trigger] s2[j]).id@ by {
                if j < s.len() {
                    assert(s[i].id@ != s[j].id@);
                } else {
                    assert(s2[j] == r);
                    assert(s[i].id@ != r.id@);
                }
            }
        }
        Ok(ret)
    }

    /// Returns the relationship with identifier `id`, or `None` — an
    /// explicit "not found", not an error — when no row matches.
    pub fn get_relationship(&self, id: &String) -> (r: Option<Relationship>)
        ensures
            match r {
                Some(q) => exists|i: int|
                    0 <= i < self.relationship_rows().len() && (
                    #[trigger] self.relationship_rows()[i]).id@ == id@ && q
                        == self.relationship_rows()[i],
                None => !contains_relationship_id(self.relationship_rows(), id@),
            },
    {
        match find_relationship_index(&self.relationships, id) {
            Some(i) => {
                let q = self.relationships[i].clone();
                proof {
                    assert((#[trigger] self.relationship_rows()[i as int]).id@ == id@ && q
                        == self.relationship_rows()[i as int]);
                }
                Some(q)
            },
            None => None,
        }
    }

    /// Returns every relationship row, in insertion order.
    pub fn get_all_relationships(&self) -> (r: Vec<Relationship>)
        ensures
            r@ == self.relationship_rows(),
    {
        let mut out: Vec<Relationship> = Vec::new();
        let mut i: usize = 0;
        while i < self.relationships.len()
            invariant
                i <= self.relationships@.len(),
                out@ == self.relationships@.take(i as int),
            decreases self.relationships@.len() - i,
        {
            out.push(self.relationships[i].clone());
            proof {
                assert(self.relationships@.take(i + 1 as int) =~= self.relationships@.take(
                    i as int,
                ).push(self.relationships@[i as int]));
            }
            i = i + 1;
        }
        proof {
            assert(self.relationships@.take(self.relationships@.len() as int)
                =~= self.relationships@);
        }
        out
    }

    /// Returns every relationship in which `person_id` appears as
    /// either endpoint, in insertion order: the one two-sided query of
    /// the system. The result is empty — not an error — when the person
    /// has no relationships or does not exist.
    pub fn get_relationships_for_person(&self, person_id: &String) -> (r: Vec<Relationship>)
        ensures
            r@ == relationships_for_person(self.relationship_rows(), person_id@),
    {
        let mut out: Vec<Relationship> = Vec::new();
        let mut i: usize = 0;
        while i < self.relationships.len()
            invariant
                i <= self.relationships@.len(),
                out@ == relationships_for_person(self.relationships@.take(i as int), person_id@),
            decreases self.relationships@.len() - i,
        {
            let row = &self.relationships[i];
            if row.from_person_id == *person_id || row.to_person_id == *person_id {
                out.push(row.clone());
            }
            proof {
                let s = self.relationships@;
                assert(s.take(i + 1 as int).drop_last() =~= s.take(i as int));
                assert(s.take(i + 1 as int).last() == s[i as int]);
            }
            i = i + 1;
        }
        proof {
            assert(self.relationships@.take(self.relationships@.len() as int)
                =~= self.relationships@);
        }
        out
    }

    /// Replaces every mutable field of the row identified by `r.id`
    /// with the supplied values, including `updated_at`; the stored
    /// identifier and `created_at` are kept. When no row matches, the
    /// store is left unchanged and the operation reports `NotFound`
    /// rather than silently succeeding. On success returns the
    /// caller-supplied entity unchanged.
    pub fn update_relationship(&mut self, r: Relationship) -> (res: Result<
        Relationship,
        StoreError,
    >)
        requires
            old(self).wf(),
        ensures
            final(self).wf(),
            !contains_relationship_id(old(self).relationship_rows(), r.id@) ==> {
                &&& res == Result::<Relationship, StoreError>::Err(StoreError::NotFound)
                &&& *final(self) == *old(self)
            },
            contains_relationship_id(old(self).relationship_rows(), r.id@) ==> {
                &&& res == Result::<Relationship, StoreError>::Ok(r)
                &&& final(self).person_rows() == old(self).person_rows()
                &&& exists|i: int|
                    0 <= i < old(self).relationship_rows().len() && (#[trigger] old(
                        self,
                    ).relationship_rows()[i]).id@ == r.id@ && final(self).relationship_rows()
                        == old(self).relationship_rows().update(
                        i,
                        updated_relationship(old(self).relationship_rows()[i], r),
                    )
            },
    {
        match find_relationship_index(&self.relationships, &r.id) {
            None => Err(StoreError::NotFound),
            Some(i) => {
                let ret = r.clone();
                let row = self.relationships.remove(i);
                let merged = Relationship {
                    id: row.id,
                    from_person_id: r.from_person_id,
                    to_person_id: r.to_person_id,
                    rel_type: r.rel_type,
                    spouse_type: r.spouse_type,
                    marriage_number: r.marriage_number,
                    start_date: r.start_date,
                    end_date: r.end_date,
                    color: r.color,
                    created_at: row.created_at,
                    updated_at: r.updated_at,
                };
                self.relationships.insert(i, merged);
                proof {
                    let s = old(self).relationship_rows();
                    let s2 = self.relationship_rows();
                    assert(s2 =~= s.update(i as int, merged));
                    assert(merged == updated_relationship(s[i as int], ret));
                    assert forall|a: int, b: int| 0 <= a < b < s2.len() implies (
                    #[trigger] s2[a]).id@ != (#[trigger] s2[b]).id@ by {
                        assert(s2[a].id@ == s[a].id@);
                        assert(s2[b].id@ == s[b].id@);
                    }
                    assert((#[trigger] s[i as int]).id@ == ret.id@ && s2 == s.update(
                        i as int,
                        updated_relationship(s[i as int], ret),
                    ));
                }
                Ok(ret)
            },
        }
    }

    /// Removes the relationship row with identifier `id`. Deleting an
    /// absent identifier is not an error: the store is simply left
    /// unchanged.
    pub fn delete_relationship(&mut self, id: &String)
        requires
            old(self).wf(),
        ensures
            final(self).wf(),
            final(self).person_rows() == old(self).person_rows(),
            !contains_relationship_id(old(self).relationship_rows(), id@) ==> *final(self) == *old(
                self,
            ),
            contains_relationship_id(old(self).relationship_rows(), id@) ==> exists|i: int|
                0 <= i < old(self).relationship_rows().len() && (#[trigger] old(
                    self,
                ).relationship_rows()[i]).id@ == id@ && final(self).relationship_rows() == old(
                    self,
                ).relationship_rows().remove(i),
    {
        match find_relationship_index(&self.relationships, id) {
            None => (),
            Some(i) => {
                self.relationships.remove(i);
                proof {
                    let s = old(self).relationship_rows();
                    let s2 = self.relationship_rows();
                    s.remove_ensures(i as int);
                    assert forall|a: int, b: int| 0 <= a < b < s2.len() implies (
                    #[trigger] s2[a]).id@ != (#[trigger] s2[b]).id@ by {
                        if a < i {
                            assert(s2[a] == s[a]);
                        } else {
                            assert(s2[a] == s[a + 1]);
                        }
                        if b < i {
                            assert(s2[b] == s[b]);
                        } else {
                            assert(s2[b] == s[b + 1]);
                        }
                    }
                    assert((#[trigger] s[i as int]).id@ == id@ && s2 == s.remove(i as int));
                }
            },
        }
    }
}

/// The index of the row of `rows` whose identifier equals `id`, if any.
fn find_relationship_index(rows: &Vec<Relationship>, id: &String) -> (r: Option<usize>)
    ensures
        match r {
            Some(i) => 0 <= i < rows@.len() && rows@[i as int].id@ == id@ && (forall|j: int|
                0 <= j < i ==> (#[trigger] rows@[j]).id@ != id@),
            None => !contains_relationship_id(rows@, id@),
        },
{
    let mut i: usize = 0;
    while i < rows.len()
        invariant
            i <= rows@.len(),
            forall|j: int| 0 <= j < i ==> (#[trigger] rows@[j]).id@ != id@,
        decreases rows@.len() - i,
    {
        if rows[i].id == *id {
            return Some(i);
        }
        i = i + 1;
    }
    None
}

/// The index of the row of `rows` whose identifier equals `id`, if any.
fn find_person_index(rows: &Vec<Person>, id: &String) -> (r: Option<usize>)
    ensures
        match r {
            Some(i) => 0 <= i < rows@.len() && rows@[i as int].id@ == id@ && (forall|j: int|
                0 <= j < i ==> (#[trigger] rows@[j]).id@ != id@),
            None => !contains_person_id(rows@, id@),
        },
{
    let mut i: usize = 0;
    while i < rows.len()
        invariant
            i <= rows@.len(),
            forall|j: int| 0 <= j < i ==> (#[trigger] rows@[j]).id@ != id@,
        decreases rows@.len() - i,
    {
        if rows[i].id == *id {
            return Some(i);
        }
        i = i + 1;
    }
    None
}

} // verus!
