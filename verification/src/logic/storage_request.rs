use crate::logic::actions::definition_storage_action::DefinitionStorageAction;
use vstd::prelude::*;

verus! {

/// A request addressed to the storage.
pub enum StorageRequest {
    DefinitionRequest(DefinitionStorageAction),
}

} // verus!
