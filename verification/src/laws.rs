use vstd::prelude::*;

use crate::person::{contains_person_id, person_ids_unique, Person};
use crate::relationship::{
    contains_relationship_id, relationship_ids_unique, relationships_for_person, touches,
    Relationship,
};

verus! {

/// Appending a row extends the endpoint query's result by exactly that
/// row when it touches the person, and leaves the result unchanged
/// otherwise.
pub proof fn lemma_relationships_for_person_push(
    s: Seq<Relationship>,
    r: Relationship,
    person_id: Seq<char>,
)
    ensures
        relationships_for_person(s.push(r), person_id) == if touches(r, person_id) {
            relationships_for_person(s, person_id).push(r)
        } else {
            relationships_for_person(s, person_id)
        },
{
    assert(s.push(r).drop_last() =~= s);
    assert(s.push(r).last() == r);
}

/// Round trip of a person create: after a successful create of `p` —
/// one whose duplicate check passed against table `s` — any row that a
/// lookup by `p`'s identifier retrieves from the new table is `p`
/// itself.
pub proof fn lemma_create_then_get_person(s: Seq<Person>, p: Person, q: Person)
    requires
        !contains_person_id(s, p.id@),
        exists|i: int|
            0 <= i < s.push(p).len() && (#[trigger] s.push(p)[i]).id@ == p.id@ && q == s.push(p)[i],
    ensures
        q == p,
{
    let i = choose|i: int|
        0 <= i < s.push(p).len() && (#[trigger] s.push(p)[i]).id@ == p.id@ && q == s.push(p)[i];
    if i < s.len() {
        assert((#[trigger] s[i]).id@ == p.id@);
        assert(contains_person_id(s, p.id@));
    } else {
        assert(q == s.push(p)[s.len() as int]);
    }
}

/// Round trip of a relationship create: after a successful create of
/// `r` against table `s`, any row that a lookup by `r`'s identifier
/// retrieves from the new table is `r` itself.
pub proof fn lemma_create_then_get_relationship(s: Seq<Relationship>, r: Relationship, q: Relationship)
    requires
        !contains_relationship_id(s, r.id@),
        exists|i: int|
            0 <= i < s.push(r).len() && (#[trigger] s.push(r)[i]).id@ == r.id@ && q == s.push(r)[i],
    ensures
        q == r,
{
    let i = choose|i: int|
        0 <= i < s.push(r).len() && (#[trigger] s.push(r)[i]).id@ == r.id@ && q == s.push(r)[i];
    if i < s.len() {
        assert((#[trigger] s[i]).id@ == r.id@);
        assert(contains_relationship_id(s, r.id@));
    } else {
        assert(q == s.push(r)[s.len() as int]);
    }
}

/// After creating relationship `r`, the endpoint query for each of its
/// two endpoints includes `r`.
pub proof fn lemma_create_then_get_for_person(s: Seq<Relationship>, r: Relationship)
    ensures
        relationships_for_person(s.push(r), r.from_person_id@).contains(r),
        relationships_for_person(s.push(r), r.to_person_id@).contains(r),
{
    lemma_relationships_for_person_push(s, r, r.from_person_id@);
    let tf = relationships_for_person(s.push(r), r.from_person_id@);
    assert(tf[tf.len() - 1] == r);
    lemma_relationships_for_person_push(s, r, r.to_person_id@);
    let tt = relationships_for_person(s.push(r), r.to_person_id@);
    assert(tt[tt.len() - 1] == r);
}

/// Deleting a person's row removes its identifier from the table: a
/// subsequent lookup by that identifier finds nothing.
pub proof fn lemma_delete_then_get_person(s: Seq<Person>, i: int, id: Seq<char>)
    requires
        person_ids_unique(s),
        0 <= i < s.len(),
        s[i].id@ == id,
    ensures
        !contains_person_id(s.remove(i), id),
{
    s.remove_ensures(i);
    assert forall|j: int| 0 <= j < s.remove(i).len() implies (#[trigger] s.remove(i)[j]).id@
        != id by {
        if j < i {
            assert(s.remove(i)[j] == s[j]);
        } else {
            assert(s.remove(i)[j] == s[j + 1]);
        }
    }
}

/// Deleting a relationship's row removes its identifier from the
/// table: a subsequent lookup by that identifier finds nothing.
pub proof fn lemma_delete_then_get_relationship(s: Seq<Relationship>, i: int, id: Seq<char>)
    requires
        relationship_ids_unique(s),
        0 <= i < s.len(),
        s[i].id@ == id,
    ensures
        !contains_relationship_id(s.remove(i), id),
{
    s.remove_ensures(i);
    assert forall|j: int| 0 <= j < s.remove(i).len() implies (#[trigger] s.remove(i)[j]).id@
        != id by {
        if j < i {
            assert(s.remove(i)[j] == s[j]);
        } else {
            assert(s.remove(i)[j] == s[j + 1]);
        }
    }
}

/// Serialized distinct creates: starting from person table `s` and
/// applying the creates of `ps` in order — the order in which the
/// guard admits the callers — every duplicate check passes, each step
/// appends exactly one row, and the final table is `s` followed by all
/// of `ps`: exactly `ps.len()` rows gained, none lost, every new row
/// present under its identifier, and uniqueness preserved.
pub proof fn lemma_distinct_creates_person(s: Seq<Person>, ps: Seq<Person>)
    requires
        person_ids_unique(s),
        person_ids_unique(ps),
        forall|k: int| 0 <= k < ps.len() ==> !contains_person_id(s, (#[trigger] ps[k]).id@),
    ensures
        forall|k: int|
            0 <= k < ps.len() ==> !contains_person_id(
                s + ps.subrange(0, k),
                (#[trigger] ps[k]).id@,
            ),
        forall|k: int|
            0 <= k < ps.len() ==> (s + ps.subrange(0, k)).push(ps[k]) == s + ps.subrange(0, k + 1),
        s + ps.subrange(0, ps.len() as int) == s + ps,
        (s + ps).len() == s.len() + ps.len(),
        person_ids_unique(s + ps),
        forall|k: int| 0 <= k < ps.len() ==> contains_person_id(s + ps, (#[trigger] ps[k]).id@),
{
    assert forall|k: int| 0 <= k < ps.len() implies !contains_person_id(
        s + ps.subrange(0, k),
        (#[trigger] ps[k]).id@,
    ) by {
        let t = s + ps.subrange(0, k);
        assert forall|j: int| 0 <= j < t.len() implies (#[trigger] t[j]).id@ != ps[k].id@ by {
            if j < s.len() {
                assert(t[j] == s[j]);
                assert(!contains_person_id(s, ps[k].id@));
            } else {
                assert(t[j] == ps[j - s.len()]);
                assert(ps[j - s.len()].id@ != ps[k].id@);
            }
        }
    }
    assert forall|k: int| 0 <= k < ps.len() implies (s + ps.subrange(0, k)).push(ps[k]) == s
        + ps.subrange(0, k + 1) by {
        assert((s + ps.subrange(0, k)).push(ps[k]) =~= s + ps.subrange(0, k + 1));
    }
    assert(ps.subrange(0, ps.len() as int) =~= ps);
    assert forall|i: int, j: int| 0 <= i < j < (s + ps).len() implies (#[trigger] (s + ps)[i]).id@
        != (#[trigger] (s + ps)[j]).id@ by {
        if j < s.len() {
            assert((s + ps)[i] == s[i] && (s + ps)[j] == s[j]);
        } else if i < s.len() {
            assert((s + ps)[i] == s[i] && (s + ps)[j] == ps[j - s.len()]);
            assert(!contains_person_id(s, ps[j - s.len()].id@));
        } else {
            assert((s + ps)[i] == ps[i - s.len()] && (s + ps)[j] == ps[j - s.len()]);
        }
    }
    assert forall|k: int| 0 <= k < ps.len() implies contains_person_id(
        s + ps,
        (#[trigger] ps[k]).id@,
    ) by {
        assert((s + ps)[s.len() + k] == ps[k]);
    }
}

/// Serialized distinct creates on the relationship table: the same law
/// as for the person table. Starting from table `s` and applying the
/// creates of `rs` in order, every duplicate check passes, each step
/// appends exactly one row, and the final table is `s` followed by all
/// of `rs`, with uniqueness preserved and every new row present under
/// its identifier.
pub proof fn lemma_distinct_creates_relationship(s: Seq<Relationship>, rs: Seq<Relationship>)
    requires
        relationship_ids_unique(s),
        relationship_ids_unique(rs),
        forall|k: int| 0 <= k < rs.len() ==> !contains_relationship_id(s, (#[trigger] rs[k]).id@),
    ensures
        forall|k: int|
            0 <= k < rs.len() ==> !contains_relationship_id(
                s + rs.subrange(0, k),
                (#[trigger] rs[k]).id@,
            ),
        forall|k: int|
            0 <= k < rs.len() ==> (s + rs.subrange(0, k)).push(rs[k]) == s + rs.subrange(0, k + 1),
        s + rs.subrange(0, rs.len() as int) == s + rs,
        (s + rs).len() == s.len() + rs.len(),
        relationship_ids_unique(s + rs),
        forall|k: int| 0 <= k < rs.len() ==> contains_relationship_id(s + rs, (#[trigger] rs[k]).id@),
{
    assert forall|k: int| 0 <= k < rs.len() implies !contains_relationship_id(
        s + rs.subrange(0, k),
        (#[trigger] rs[k]).id@,
    ) by {
        let t = s + rs.subrange(0, k);
        assert forall|j: int| 0 <= j < t.len() implies (#[trigger] t[j]).id@ != rs[k].id@ by {
            if j < s.len() {
                assert(t[j] == s[j]);
                assert(!contains_relationship_id(s, rs[k].id@));
            } else {
                assert(t[j] == rs[j - s.len()]);
                assert(rs[j - s.len()].id@ != rs[k].id@);
            }
        }
    }
    assert forall|k: int| 0 <= k < rs.len() implies (s + rs.subrange(0, k)).push(rs[k]) == s
        + rs.subrange(0, k + 1) by {
        assert((s + rs.subrange(0, k)).push(rs[k]) =~= s + rs.subrange(0, k + 1));
    }
    assert(rs.subrange(0, rs.len() as int) =~= rs);
    assert forall|i: int, j: int| 0 <= i < j < (s + rs).len() implies (#[trigger] (s + rs)[i]).id@
        != (#[trigger] (s + rs)[j]).id@ by {
        if j < s.len() {
            assert((s + rs)[i] == s[i] && (s + rs)[j] == s[j]);
        } else if i < s.len() {
            assert((s + rs)[i] == s[i] && (s + rs)[j] == rs[j - s.len()]);
            assert(!contains_relationship_id(s, rs[j - s.len()].id@));
        } else {
            assert((s + rs)[i] == rs[i - s.len()] && (s + rs)[j] == rs[j - s.len()]);
        }
    }
    assert forall|k: int| 0 <= k < rs.len() implies contains_relationship_id(
        s + rs,
        (#[trigger] rs[k]).id@,
    ) by {
        assert((s + rs)[s.len() + k] == rs[k]);
    }
}

} // verus!
