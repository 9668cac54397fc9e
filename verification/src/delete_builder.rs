//! The three stages of the builder. Each method that moves a delete forward
//! takes its stage by value, so a stage is used up by the step it takes.

use crate::call::FirestoreDeleteCall;
use crate::model::DocIdStage;
use crate::model::ExecuteStage;
use vstd::prelude::*;

verus! {

/// The entry stage: bound to a backend, nothing named yet.
#[derive(Debug)]
pub struct FirestoreDeleteInitialBuilder<'a, D> {
    db: &'a D,
}

/// The stage after the collection is named. A parent path may be set here; the
/// only way on is to name the document.
#[derive(Debug)]
pub struct FirestoreDeleteDocIdBuilder<'a, D> {
    db: &'a D,
    collection_id: String,
    parent: Option<String>,
}

/// The last stage: collection and document are named, and the delete can be
/// dispatched.
#[derive(Debug)]
pub struct FirestoreDeleteExecuteBuilder<'a, D> {
    db: &'a D,
    collection_id: String,
    document_id: String,
    parent: Option<String>,
}

/// The model of an optional owned text.
pub open spec fn text_of(text: Option<String>) -> Option<Seq<char>> {
    match text {
        Some(s) => Some(s@),
        None => None,
    }
}

fn clone_text(text: &Option<String>) -> (copy: Option<String>)
    ensures
        copy == *text,
{
    match text {
        Some(s) => Some(s.clone()),
        None => None,
    }
}

impl<'a, D> Clone for FirestoreDeleteInitialBuilder<'a, D> {
    /// A second entry stage on the same backend.
    fn clone(&self) -> (copy: Self)
        ensures
            copy.backend() == self.backend(),
    {
        FirestoreDeleteInitialBuilder { db: self.db }
    }
}

impl<'a, D> Clone for FirestoreDeleteDocIdBuilder<'a, D> {
    /// A second stage on the same backend with the same collection and parent.
    fn clone(&self) -> (copy: Self)
        ensures
            copy.backend() == self.backend(),
            copy@ == self@,
    {
        FirestoreDeleteDocIdBuilder {
            db: self.db,
            collection_id: self.collection_id.clone(),
            parent: clone_text(&self.parent),
        }
    }
}

impl<'a, D> Clone for FirestoreDeleteExecuteBuilder<'a, D> {
    /// A second stage on the same backend for the same delete.
    fn clone(&self) -> (copy: Self)
        ensures
            copy.backend() == self.backend(),
            copy@ == self@,
    {
        FirestoreDeleteExecuteBuilder {
            db: self.db,
            collection_id: self.collection_id.clone(),
            document_id: self.document_id.clone(),
            parent: clone_text(&self.parent),
        }
    }
}

impl<'a, D> FirestoreDeleteInitialBuilder<'a, D> {
    /// The backend that this chain is bound to.
    pub closed spec fn backend(&self) -> &'a D {
        self.db
    }

    /// Binds a new chain to `db`. The backend is borrowed, never copied.
    pub fn new(db: &'a D) -> (builder: Self)
        ensures
            builder.backend() == db,
    {
        FirestoreDeleteInitialBuilder { db }
    }

    /// Names the collection to delete from. Any text is taken as it is, the
    /// empty one too; no parent is set yet.
    pub fn from(self, collection_id: &str) -> (next: FirestoreDeleteDocIdBuilder<'a, D>)
        ensures
            next.backend() == self.backend(),
            next@ == DocIdStage::start(collection_id@),
    {
        FirestoreDeleteDocIdBuilder::new(self.db, collection_id.to_string())
    }
}

impl<'a, D> View for FirestoreDeleteDocIdBuilder<'a, D> {
    type V = DocIdStage;

    closed spec fn view(&self) -> DocIdStage {
        DocIdStage { collection_id: self.collection_id@, parent: text_of(self.parent) }
    }
}

impl<'a, D> FirestoreDeleteDocIdBuilder<'a, D> {
    /// The backend that this chain is bound to.
    pub closed spec fn backend(&self) -> &'a D {
        self.db
    }

    /// The stage for `collection_id` on `db`, with no parent.
    pub fn new(db: &'a D, collection_id: String) -> (builder: Self)
        ensures
            builder.backend() == db,
            builder@ == DocIdStage::start(collection_id@),
    {
        FirestoreDeleteDocIdBuilder { db, collection_id, parent: None }
    }

    /// Sets the parent path below which the collection lies. A parent set
    /// earlier is replaced; the collection and the backend stay.
    pub fn parent(self, parent: &str) -> (next: Self)
        ensures
            next.backend() == self.backend(),
            next@ == self@.with_parent(parent@),
    {
        FirestoreDeleteDocIdBuilder {
            db: self.db,
            collection_id: self.collection_id,
            parent: Some(parent.to_string()),
        }
    }

    /// Names the document to delete and moves on to the last stage, with the
    /// backend, the collection and the parent (set or not) as they are.
    pub fn document_id(self, document_id: &str) -> (next: FirestoreDeleteExecuteBuilder<'a, D>)
        ensures
            next.backend() == self.backend(),
            next@ == self@.with_document_id(document_id@),
    {
        FirestoreDeleteExecuteBuilder::new(
            self.db,
            self.collection_id,
            document_id.to_string(),
            self.parent,
        )
    }
}

impl<'a, D> View for FirestoreDeleteExecuteBuilder<'a, D> {
    type V = ExecuteStage;

    closed spec fn view(&self) -> ExecuteStage {
        ExecuteStage {
            collection_id: self.collection_id@,
            document_id: self.document_id@,
            parent: text_of(self.parent),
        }
    }
}

impl<'a, D> FirestoreDeleteExecuteBuilder<'a, D> {
    /// The backend that this chain is bound to.
    pub closed spec fn backend(&self) -> &'a D {
        self.db
    }

    /// The finished stage made of its four parts.
    pub fn new(
        db: &'a D,
        collection_id: String,
        document_id: String,
        parent: Option<String>,
    ) -> (builder: Self)
        ensures
            builder.backend() == db,
            builder@ == (ExecuteStage {
                collection_id: collection_id@,
                document_id: document_id@,
                parent: text_of(parent),
            }),
    {
        FirestoreDeleteExecuteBuilder { db, collection_id, document_id, parent }
    }

    /// Decides the dispatch and uses the stage up: hands out the backend that
    /// the chain was bound to and the one call to make on it. With a parent
    /// that is the path-scoped operation on (parent, collection, document);
    /// without one, the top-level operation on (collection, document).
    pub fn execute(self) -> (dispatch: (&'a D, FirestoreDeleteCall))
        ensures
            dispatch.0 == self.backend(),
            dispatch.1@ == self@.call(),
    {
        let call = match self.parent {
            Some(parent) => FirestoreDeleteCall::DeleteByIdAt {
                parent,
                collection_id: self.collection_id,
                document_id: self.document_id,
            },
            None => FirestoreDeleteCall::DeleteById {
                collection_id: self.collection_id,
                document_id: self.document_id,
            },
        };
        (self.db, call)
    }
}

} // verus!
