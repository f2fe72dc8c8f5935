//! The Content entity and its mathematical model.

use vstd::prelude::*;

verus! {

/// A content record. Timestamps are carried as Unix seconds; they are
/// store-assigned and absent until the record is first persisted.
#[derive(Debug)]
pub struct Content {
    pub id: i64,
    pub title: String,
    pub body: String,
    pub created_at: Option<i64>,
    pub updated_at: Option<i64>,
}

/// The mathematical model of a content record.
pub ghost struct ContentView {
    pub id: int,
    pub title: Seq<char>,
    pub body: Seq<char>,
    pub created_at: Option<int>,
    pub updated_at: Option<int>,
}

pub open spec fn opt_ts_view(o: Option<i64>) -> Option<int> {
    match o {
        Some(t) => Some(t as int),
        None => None,
    }
}

impl View for Content {
    type V = ContentView;

    open spec fn view(&self) -> ContentView {
        ContentView {
            id: self.id as int,
            title: self.title@,
            body: self.body@,
            created_at: opt_ts_view(self.created_at),
            updated_at: opt_ts_view(self.updated_at),
        }
    }
}

impl Clone for Content {
    fn clone(&self) -> (res: Self)
        ensures
            res == *self,
    {
        Content {
            id: self.id,
            title: self.title.clone(),
            body: self.body.clone(),
            created_at: self.created_at,
            updated_at: self.updated_at,
        }
    }
}

impl Content {
    /// A fresh, not yet persisted record: id 0 and empty timestamps.
    pub fn new(title: String, body: String) -> (r: Self)
        ensures
            r@.id == 0,
            r@.title == title@,
            r@.body == body@,
            r@.created_at is None,
            r@.updated_at is None,
    {
        Content { id: 0, title, body, created_at: None, updated_at: None }
    }
}

/// The request body of the content-creation endpoint.
#[derive(Debug)]
pub struct CreateContentRequest {
    pub title: String,
    pub body: String,
}

/// The model of a whole content table: its rows, in insertion order.
pub open spec fn contents_view(rows: Seq<Content>) -> Seq<ContentView> {
    rows.map_values(|c: Content| c@)
}

pub open spec fn opt_content_view(o: Option<Content>) -> Option<ContentView> {
    match o {
        Some(c) => Some(c@),
        None => None,
    }
}

/// The first row whose id matches, or nothing: the meaning of a lookup
/// by id against the table.
pub open spec fn find_content(s: Seq<ContentView>, id: int) -> Option<ContentView>
    decreases s.len(),
{
    if s.len() == 0 {
        None
    } else if s[0].id == id {
        Some(s[0])
    } else {
        find_content(s.drop_first(), id)
    }
}

/// A lookup on an id that no row holds returns absence, not an error.
pub proof fn lemma_find_content_absent(s: Seq<ContentView>, id: int)
    requires
        forall|i: int| 0 <= i < s.len() ==> (#[trigger] s[i]).id != id,
    ensures
        find_content(s, id) is None,
    decreases s.len(),
{
    if s.len() != 0 {
        assert forall|i: int| 0 <= i < s.drop_first().len() implies (#[trigger] s.drop_first()[
            i
        ]).id != id by {
            assert(s.drop_first()[i] == s[i + 1]);
        }
        lemma_find_content_absent(s.drop_first(), id);
    }
}

/// A lookup immediately after an insertion, on the id the insertion was
/// given, returns the inserted row, provided no earlier row took that id.
pub proof fn lemma_find_content_after_push(s: Seq<ContentView>, c: ContentView)
    requires
        forall|i: int| 0 <= i < s.len() ==> (#[trigger] s[i]).id != c.id,
    ensures
        find_content(s.push(c), c.id) == Some(c),
    decreases s.len(),
{
    if s.len() == 0 {
        assert(s.push(c)[0] == c);
    } else {
        assert(s.push(c)[0] == s[0]);
        assert(s.push(c).drop_first() =~= s.drop_first().push(c));
        assert forall|i: int| 0 <= i < s.drop_first().len() implies (#[trigger] s.drop_first()[
            i
        ]).id != c.id by {
            assert(s.drop_first()[i] == s[i + 1]);
        }
        lemma_find_content_after_push(s.drop_first(), c);
    }
}

} // verus!
