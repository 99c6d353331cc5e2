//! The context in which a meeting is created: the semesters it can be part of.

use vstd::prelude::*;

verus! {

/// A semester that meetings can be created in, as the API describes it.
#[derive(Debug)]
pub struct Semester {
    /// The semester's ID.
    pub semester_id: String,
    /// The semester's first day, written `%Y-%m-%d`.
    pub start_date: String,
    /// The semester's last day, written `%Y-%m-%d`.
    pub end_date: String,
}

/// The context of meeting creation.
#[derive(Debug)]
pub struct MeetingCreationContext {
    /// The semesters that a meeting can be created in.
    pub available_semesters: Vec<Semester>,
}

/// The first of `semesters` whose ID is `id`.
pub open spec fn first_with_id(semesters: Seq<Semester>, id: Seq<char>) -> Option<Semester>
    decreases semesters.len(),
{
    if semesters.len() == 0 {
        None
    } else if semesters.first().semester_id@ == id {
        Some(semesters.first())
    } else {
        first_with_id(semesters.drop_first(), id)
    }
}

impl MeetingCreationContext {
    /// The available semester with the ID `id`: the first, should several
    /// have it.
    pub open spec fn semester(self, id: Seq<char>) -> Option<Semester> {
        first_with_id(self.available_semesters@, id)
    }

    /// Finds the available semester with the ID `id`.
    pub fn find_semester(&self, id: &String) -> (found: Option<&Semester>)
        ensures
            found == match self.semester(id@) {
                Some(semester) => Some(&semester),
                None => None,
            },
    {
        let ghost all = self.available_semesters@;
        let mut at: usize = 0;
        assert(all.skip(0) =~= all);
        while at < self.available_semesters.len()
            invariant
                at <= all.len(),
                all == self.available_semesters@,
                first_with_id(all, id@) == first_with_id(all.skip(at as int), id@),
            decreases all.len() - at,
        {
            let semester = &self.available_semesters[at];
            if semester.semester_id == *id {
                return Some(semester);
            }
            assert(all.skip(at as int).drop_first() =~= all.skip(at + 1));
            at += 1;
        }
        None
    }

    /// A semester is found exactly where one has the ID, and the one found
    /// has it and is the first that has.
    pub proof fn law_first_semester_is_found(self, id: Seq<char>, at: int)
        requires
            0 <= at < self.available_semesters@.len(),
            self.available_semesters@[at].semester_id@ == id,
            forall|before: int|
                0 <= before < at ==> self.available_semesters@[before].semester_id@ != id,
        ensures
            self.semester(id) == Some(self.available_semesters@[at]),
    {
        lemma_first_with_id(self.available_semesters@, id, at);
    }
}

proof fn lemma_first_with_id(semesters: Seq<Semester>, id: Seq<char>, at: int)
    requires
        0 <= at < semesters.len(),
        semesters[at].semester_id@ == id,
        forall|before: int| 0 <= before < at ==> semesters[before].semester_id@ != id,
    ensures
        first_with_id(semesters, id) == Some(semesters[at]),
    decreases at,
{
    if at > 0 {
        assert forall|before: int| 0 <= before < at - 1 implies semesters.drop_first()[before].semester_id@
            != id by {
            assert(semesters[before + 1].semester_id@ != id);
        }
        lemma_first_with_id(semesters.drop_first(), id, at - 1);
    }
}

} // verus!
