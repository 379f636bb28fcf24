use vstd::prelude::*;

use crate::database::UserCredentialRow;
use crate::error::{AppError, AppResult};
use crate::id::UserId;
use crate::kernel::UserCredential;

verus! {

/// Accounts keyed by email, each with its identity and password digest.
///
/// Its model maps each registered email to the identity and the digest.
pub struct MemoryCredentialStore {
    rows: Vec<UserCredentialRow>,
    model: Ghost<Map<Seq<char>, (UserId, Seq<char>)>>,
}

impl View for MemoryCredentialStore {
    type V = Map<Seq<char>, (UserId, Seq<char>)>;

    closed spec fn view(&self) -> Self::V {
        self.model@
    }
}

impl MemoryCredentialStore {
    /// The rows hold exactly the model, one row per email.
    pub closed spec fn wf(&self) -> bool {
        &&& forall|i: int|
            0 <= i < self.rows@.len() ==> {
                &&& self.model@.contains_key(#[trigger] self.rows@[i].email@)
                &&& self.model@[self.rows@[i].email@] == (
                    self.rows@[i].id,
                    self.rows@[i].password_hash@,
                )
            }
        &&& forall|k: Seq<char>|
            #[trigger] self.model@.contains_key(k) ==> exists|i: int|
                0 <= i < self.rows@.len() && #[trigger] self.rows@[i].email@ == k
    }

    pub fn new() -> (r: MemoryCredentialStore)
        ensures
            r.wf(),
            r@ == Map::<Seq<char>, (UserId, Seq<char>)>::empty(),
    {
        MemoryCredentialStore { rows: Vec::new(), model: Ghost(Map::empty()) }
    }

    /// The position of the row of `email`, if there is one.
    fn find(&self, email: &String) -> (r: Option<usize>)
        requires
            self.wf(),
        ensures
            match r {
                Some(i) => i < self.rows@.len() && self.rows@[i as int].email@ == email@,
                None => !self@.contains_key(email@),
            },
    {
        let mut i: usize = 0;
        while i < self.rows.len()
            invariant
                i <= self.rows@.len(),
                forall|j: int| 0 <= j < i ==> self.rows@[j].email@ != email@,
            decreases self.rows@.len() - i,
        {
            if self.rows[i].email == *email {
                return Some(i);
            }
            i = i + 1;
        }
        proof {
            if self@.contains_key(email@) {
                let w = choose|w: int| 0 <= w < self.rows@.len() && self.rows@[w].email@ == email@;
                assert(self.rows@[w].email@ == email@);
            }
        }
        None
    }

    /// Registers an account; an email that is already registered is refused.
    pub fn insert(&mut self, row: UserCredentialRow) -> (r: AppResult<()>)
        requires
            old(self).wf(),
        ensures
            final(self).wf(),
            r is Ok <==> !old(self)@.contains_key(row.email@),
            r is Ok ==> final(self)@ == old(self)@.insert(row.email@, (row.id, row.password_hash@)),
            r matches Err(e) ==> final(self)@ == old(self)@ && e is SqlExecuteError,
    {
        if self.find(&row.email).is_some() {
            return Err(AppError::SqlExecuteError("duplicate email".to_string()));
        }
        let ghost old_model = self.model@;
        let ghost old_rows = self.rows@;
        let ghost kv = row.email@;
        let ghost entry = (row.id, row.password_hash@);
        self.rows.push(row);
        self.model = Ghost(old_model.insert(kv, entry));
        assert forall|k: Seq<char>| #[trigger] self.model@.contains_key(k) implies exists|j: int|
            0 <= j < self.rows@.len() && #[trigger] self.rows@[j].email@ == k by {
            if k != kv {
                let w = choose|w: int| 0 <= w < old_rows.len() && old_rows[w].email@ == k;
                assert(self.rows@[w].email@ == k);
            } else {
                assert(self.rows@[old_rows.len() as int].email@ == k);
            }
        }
        Ok(())
    }

    /// The credential registered under exactly `email`, if any; a miss is no error.
    pub fn find_by_email(&self, email: &String) -> (r: AppResult<Option<UserCredential>>)
        requires
            self.wf(),
        ensures
            r matches Ok(found) && match found {
                None => !self@.contains_key(email@),
                Some(c) => self@.contains_key(email@) && c.email@ == email@ && c.id
                    == self@[email@].0 && c.password_hash@ == self@[email@].1,
            },
    {
        match self.find(email) {
            None => Ok(None),
            Some(i) => {
                let row = &self.rows[i];
                Ok(
                    Some(
                        UserCredential {
                            id: row.id,
                            email: row.email.clone(),
                            password_hash: row.password_hash.clone(),
                        },
                    ),
                )
            },
        }
    }
}

} // verus!
