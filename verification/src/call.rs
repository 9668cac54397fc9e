//! The backend call that a finished delete asks for, as a plain value.

use crate::model::DeleteCall;
use vstd::prelude::*;

verus! {

/// One call of the backend's delete capability. The driver of the backend makes
/// the call that the variant names, with the fields as its arguments.
#[derive(Debug)]
pub enum FirestoreDeleteCall {
    /// `delete_by_id(collection_id, document_id)`: the document lies at the
    /// top level of the collection.
    DeleteById { collection_id: String, document_id: String },
    /// `delete_by_id_at(parent, collection_id, document_id)`: the document
    /// lies below the ancestor path `parent`.
    DeleteByIdAt { parent: String, collection_id: String, document_id: String },
}

impl View for FirestoreDeleteCall {
    type V = DeleteCall;

    open spec fn view(&self) -> DeleteCall {
        match self {
            FirestoreDeleteCall::DeleteById { collection_id, document_id } => DeleteCall::ById {
                collection_id: collection_id@,
                document_id: document_id@,
            },
            FirestoreDeleteCall::DeleteByIdAt {
                parent,
                collection_id,
                document_id,
            } => DeleteCall::ByIdAt {
                parent: parent@,
                collection_id: collection_id@,
                document_id: document_id@,
            },
        }
    }
}

impl Clone for FirestoreDeleteCall {
    /// The same call with the same arguments.
    fn clone(&self) -> (copy: Self)
        ensures
            copy@ == self@,
    {
        match self {
            FirestoreDeleteCall::DeleteById {
                collection_id,
                document_id,
            } => FirestoreDeleteCall::DeleteById {
                collection_id: collection_id.clone(),
                document_id: document_id.clone(),
            },
            FirestoreDeleteCall::DeleteByIdAt {
                parent,
                collection_id,
                document_id,
            } => FirestoreDeleteCall::DeleteByIdAt {
                parent: parent.clone(),
                collection_id: collection_id.clone(),
                document_id: document_id.clone(),
            },
        }
    }
}

impl FirestoreDeleteCall {
    /// The outcome of a delete whose call the backend answered with `reply`:
    /// the answer itself. Success stays success, and a failure is handed on as
    /// the backend reported it, neither wrapped nor replaced.
    pub fn resolve<E>(reply: Result<(), E>) -> (outcome: Result<(), E>)
        ensures
            outcome == reply,
    {
        reply
    }
}

} // verus!
