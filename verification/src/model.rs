//! The mathematical model of a delete in the making: what each stage knows,
//! how a stage follows from the one before, and which backend operation a
//! finished delete asks for.

use vstd::prelude::*;

verus! {

/// What is known once the collection is named: the collection, and the parent
/// path if one was given.
pub struct DocIdStage {
    pub collection_id: Seq<char>,
    pub parent: Option<Seq<char>>,
}

/// A fully addressed delete: collection, document, and the parent path if one
/// was given.
pub struct ExecuteStage {
    pub collection_id: Seq<char>,
    pub document_id: Seq<char>,
    pub parent: Option<Seq<char>>,
}

/// One call of the backend, with its arguments in the backend's order.
pub enum DeleteCall {
    /// The operation for a document at the top level of a collection.
    ById { collection_id: Seq<char>, document_id: Seq<char> },
    /// The operation for a document below an ancestor path.
    ByIdAt { parent: Seq<char>, collection_id: Seq<char>, document_id: Seq<char> },
}

impl DocIdStage {
    /// The stage right after the collection is named: no parent yet.
    pub open spec fn start(collection_id: Seq<char>) -> DocIdStage {
        DocIdStage { collection_id, parent: None }
    }

    /// The same stage with `parent` as its parent path, whatever it was before.
    pub open spec fn with_parent(self, parent: Seq<char>) -> DocIdStage {
        DocIdStage { collection_id: self.collection_id, parent: Some(parent) }
    }

    /// The finished delete for `document_id`: collection and parent carry over.
    pub open spec fn with_document_id(self, document_id: Seq<char>) -> ExecuteStage {
        ExecuteStage { collection_id: self.collection_id, document_id, parent: self.parent }
    }
}

impl ExecuteStage {
    /// The backend call that addresses this delete: path-scoped exactly when a
    /// parent is present.
    pub open spec fn call(self) -> DeleteCall {
        match self.parent {
            Some(parent) => DeleteCall::ByIdAt {
                parent,
                collection_id: self.collection_id,
                document_id: self.document_id,
            },
            None => DeleteCall::ById {
                collection_id: self.collection_id,
                document_id: self.document_id,
            },
        }
    }
}

/// A chain that names a collection and a document and no parent asks for the
/// top-level operation, with exactly that collection and that document.
pub proof fn lemma_chain_without_parent_is_top_level(
    collection_id: Seq<char>,
    document_id: Seq<char>,
)
    ensures
        DocIdStage::start(collection_id).with_document_id(document_id).call()
            == (DeleteCall::ById { collection_id, document_id }),
        !(DocIdStage::start(collection_id).with_document_id(document_id).call() is ByIdAt),
{
}

/// A chain that names a collection, a parent and a document asks for the
/// path-scoped operation, with exactly that parent, collection and document.
pub proof fn lemma_chain_with_parent_is_path_scoped(
    collection_id: Seq<char>,
    parent: Seq<char>,
    document_id: Seq<char>,
)
    ensures
        DocIdStage::start(collection_id).with_parent(parent).with_document_id(document_id).call()
            == (DeleteCall::ByIdAt { parent, collection_id, document_id }),
{
}

/// Setting the parent twice leaves the stage as if only the second had been
/// set, so the call of any chain that goes on from there names the second.
pub proof fn lemma_last_parent_wins(
    stage: DocIdStage,
    first: Seq<char>,
    second: Seq<char>,
    document_id: Seq<char>,
)
    ensures
        stage.with_parent(first).with_parent(second) == stage.with_parent(second),
        stage.with_parent(first).with_parent(second).with_document_id(document_id).call()
            == (DeleteCall::ByIdAt {
                parent: second,
                collection_id: stage.collection_id,
                document_id,
            }),
{
}

} // verus!
