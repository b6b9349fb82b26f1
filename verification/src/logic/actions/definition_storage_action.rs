use cooplan_amqp_api_consumer::error::Error as ApiError;
use cooplan_definitions_lib::definition::Definition;
use tokio::sync::oneshot::Sender;
use vstd::prelude::*;

verus! {

/// Where the answer to a request for a definition is sent.
pub type DefinitionReplier = Sender<Result<Definition, ApiError>>;

/// A request for a definition, with the channel on which it is answered.
pub enum DefinitionStorageAction {
    /// The definition of the given version.
    FindByVersion { version: String, replier: DefinitionReplier },
    /// The latest definition.
    FindLatest { replier: DefinitionReplier },
}

/// The mathematical value of a request: the version's characters and the replier.
pub enum DefinitionStorageActionView {
    FindByVersion { version: Seq<char>, replier: DefinitionReplier },
    FindLatest { replier: DefinitionReplier },
}

impl View for DefinitionStorageAction {
    type V = DefinitionStorageActionView;

    open spec fn view(&self) -> DefinitionStorageActionView {
        match self {
            DefinitionStorageAction::FindByVersion { version, replier } => {
                DefinitionStorageActionView::FindByVersion { version: version@, replier: *replier }
            },
            DefinitionStorageAction::FindLatest { replier } => {
                DefinitionStorageActionView::FindLatest { replier: *replier }
            },
        }
    }
}

impl DefinitionStorageActionView {
    /// The channel on which this request is answered.
    pub open spec fn replier(self) -> DefinitionReplier {
        match self {
            DefinitionStorageActionView::FindByVersion { replier, .. } => replier,
            DefinitionStorageActionView::FindLatest { replier } => replier,
        }
    }
}

} // verus!
