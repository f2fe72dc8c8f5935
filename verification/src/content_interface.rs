//! The abstract capability over a content store. Swapping the concrete
//! store behind it never touches the layers above.

use vstd::prelude::*;

use crate::content::{find_content, opt_content_view, Content, ContentView};
use crate::types::StoreError;

verus! {

/// What a content store must provide: `contents` is the model of the rows
/// it holds, and the two operations are specified against that model.
pub trait ContentInterface: Sized {
    /// The rows the store holds, in insertion order.
    spec fn contents(&self) -> Seq<ContentView>;

    /// Persists title and body as a new row; the store assigns the id and
    /// the timestamps, and the fully populated record comes back. A store
    /// failure leaves the rows as they were.
    fn create(&mut self, content: Content) -> (r: Result<Content, StoreError>)
        ensures
            (match r {
                Ok(stored) => {
                    &&& final(self).contents() == old(self).contents().push(stored@)
                    &&& stored@.title == content@.title
                    &&& stored@.body == content@.body
                    &&& stored@.id != 0
                    &&& stored@.created_at is Some
                    &&& stored@.updated_at is Some
                },
                Err(_) => final(self).contents() == old(self).contents(),
            }),
    ;

    /// The matching record, or absence when no row matches; absence is
    /// never an error.
    fn find(&self, id: i64) -> (r: Result<Option<Content>, StoreError>)
        ensures
            (r matches Ok(found) ==> opt_content_view(found) == find_content(
                self.contents(),
                id as int,
            )),
    ;
}

} // verus!
