//! The concrete content store: an in-memory table that assigns ids
//! sequentially and stamps both timestamps at insertion, as the
//! relational store it stands in for would.

use vstd::prelude::*;

use crate::content::{
    contents_view, find_content, lemma_find_content_after_push, opt_content_view, Content,
    ContentView,
};
use crate::content_interface::ContentInterface;
use crate::types::StoreError;

verus! {

/// Relies on chrono::Utc::now (via DateTime::timestamp) for the
/// store-assigned timestamps; the value depends on the clock, so nothing
/// is promised of it.
#[verifier::external_body]
fn now_unix() -> i64 {
    chrono::Utc::now().timestamp()
}

/// A content table held in memory. Row `i` carries id `i + 1`, so ids are
/// unique, non-zero, and assigned in insertion order.
pub struct ContentRepository {
    rows: Vec<Content>,
}

impl ContentRepository {
    #[verifier::type_invariant]
    spec fn wf(&self) -> bool {
        forall|i: int| 0 <= i < self.rows@.len() ==> (#[trigger] self.rows@[i])@.id == i + 1
    }

    /// An empty table.
    pub fn new() -> (r: Self)
        ensures
            r.contents() == Seq::<ContentView>::empty(),
    {
        let rows: Vec<Content> = Vec::new();
        let r = ContentRepository { rows };
        proof {
            assert(r.contents() =~= Seq::<ContentView>::empty());
        }
        r
    }

    /// Inserts title and body as a new row with the next id and both
    /// timestamps freshly assigned, and returns the stored record. The
    /// only failure is a full table; everything else is owed success,
    /// and a failure leaves the table unchanged.
    pub fn create(&mut self, content: Content) -> (r: Result<Content, StoreError>)
        ensures
            (match r {
                Ok(stored) => {
                    &&& final(self).contents() == old(self).contents().push(stored@)
                    &&& stored@.title == content@.title
                    &&& stored@.body == content@.body
                    &&& stored@.id == old(self).contents().len() + 1
                    &&& stored@.created_at is Some
                    &&& stored@.updated_at == stored@.created_at
                    &&& find_content(final(self).contents(), stored@.id) == Some(stored@)
                },
                Err(_) => {
                    &&& *final(self) == *old(self)
                    &&& old(self).contents().len() + 1 > i64::MAX
                },
            }),
            old(self).contents().len() + 1 <= i64::MAX ==> r is Ok,
    {
        proof {
            use_type_invariant(&*self);
        }
        if (self.rows.len() as u64) >= (i64::MAX as u64) {
            proof {
                assert(self.contents().len() == self.rows@.len());
            }
            return Err(StoreError::new("content store is full".to_owned()));
        }
        let now = now_unix();
        let id = ((self.rows.len() as u64) + 1) as i64;
        let stored = Content {
            id,
            title: content.title,
            body: content.body,
            created_at: Some(now),
            updated_at: Some(now),
        };
        let result = stored.clone();
        let mut rows: Vec<Content> = Vec::new();
        std::mem::swap(&mut rows, &mut self.rows);
        rows.push(stored);
        proof {
            assert forall|i: int| 0 <= i < rows@.len() implies (#[trigger] rows@[i])@.id == i
                + 1 by {
                if i < rows@.len() - 1 {
                    assert(rows@[i] == old(self).rows@[i]);
                }
            }
        }
        self.rows = rows;
        proof {
            assert(self.contents() =~= old(self).contents().push(result@));
            assert forall|i: int| 0 <= i < old(self).contents().len() implies (#[trigger] old(
                self,
            ).contents()[i]).id != result@.id by {
                assert(old(self).contents()[i] == old(self).rows@[i]@);
            }
            lemma_find_content_after_push(old(self).contents(), result@);
        }
        Ok(result)
    }

    /// The first row whose id matches, or absence — never an error.
    pub fn find(&self, id: i64) -> (r: Result<Option<Content>, StoreError>)
        ensures
            r is Ok,
            (r matches Ok(found) ==> opt_content_view(found) == find_content(
                self.contents(),
                id as int,
            )),
    {
        let ghost all = self.contents();
        proof {
            assert(all.len() == self.rows@.len());
            assert(all.skip(0) =~= all);
        }
        let mut i: usize = 0;
        while i < self.rows.len()
            invariant
                i <= self.rows@.len(),
                all == self.contents(),
                find_content(all, id as int) == find_content(all.skip(i as int), id as int),
            decreases self.rows@.len() - i,
        {
            if self.rows[i].id == id {
                let c = self.rows[i].clone();
                proof {
                    assert(all.skip(i as int)[0] == all[i as int]);
                    assert(all[i as int] == self.rows@[i as int]@);
                }
                return Ok(Some(c));
            }
            proof {
                assert(all.skip(i as int)[0] == all[i as int]);
                assert(all[i as int] == self.rows@[i as int]@);
                assert(all.skip(i as int).drop_first() =~= all.skip(i as int + 1));
            }
            i = i + 1;
        }
        proof {
            assert(all.skip(i as int).len() == 0);
        }
        Ok(None)
    }
}

impl ContentInterface for ContentRepository {
    /// The rows of the table, in insertion order.
    closed spec fn contents(&self) -> Seq<ContentView> {
        contents_view(self.rows@)
    }

    fn create(&mut self, content: Content) -> (r: Result<Content, StoreError>) {
        ContentRepository::create(self, content)
    }

    fn find(&self, id: i64) -> (r: Result<Option<Content>, StoreError>) {
        ContentRepository::find(self, id)
    }
}

} // verus!
