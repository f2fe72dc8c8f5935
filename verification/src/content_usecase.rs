//! The content use case: delegates to whatever content store it was
//! constructed with, adding no policy of its own. It exists to decouple
//! the transport layer from the concrete store type.

use vstd::prelude::*;

use crate::content::{find_content, opt_content_view, Content, ContentView};
use crate::content_interface::ContentInterface;
use crate::types::StoreError;

verus! {

/// The service contract the transport layer programs against.
pub trait ContentService: Sized {
    /// The rows visible through the service, in insertion order.
    spec fn contents(&self) -> Seq<ContentView>;

    /// Persists title and body; the fully populated record comes back:
    /// same title and body, a non-zero store-assigned id, and both
    /// timestamps populated. A failure leaves the rows as they were.
    fn create(&mut self, content: Content) -> (r: Result<Content, StoreError>)
        ensures
            (match r {
                Ok(stored) => {
                    &&& final(self).contents() == old(self).contents().push(stored@)
                    &&& stored@.title == content@.title
                    &&& stored@.body == content@.body
                    &&& stored@.id != 0
                    &&& stored@.created_at is Some
                    &&& stored@.updated_at is Some
                },
                Err(_) => final(self).contents() == old(self).contents(),
            }),
    ;

    /// The matching record, or absence when no row matches; absence is
    /// never an error.
    fn find(&self, id: i64) -> (r: Result<Option<Content>, StoreError>)
        ensures
            (r matches Ok(found) ==> opt_content_view(found) == find_content(
                self.contents(),
                id as int,
            )),
    ;
}

/// A content service over an injected store capability.
pub struct ContentUseCase<T: ContentInterface> {
    repository: T,
}

impl<T: ContentInterface> ContentUseCase<T> {
    pub fn new(repository: T) -> (r: Self)
        ensures
            r.contents() == repository.contents(),
    {
        ContentUseCase { repository }
    }
}

impl<T: ContentInterface> ContentService for ContentUseCase<T> {
    closed spec fn contents(&self) -> Seq<ContentView> {
        self.repository.contents()
    }

    fn create(&mut self, content: Content) -> (r: Result<Content, StoreError>) {
        self.repository.create(content)
    }

    fn find(&self, id: i64) -> (r: Result<Option<Content>, StoreError>) {
        self.repository.find(id)
    }
}

} // verus!
