use cooplan_definitions_lib::definition::Definition;
use tokio::sync::watch::Sender;
use vstd::prelude::*;

verus! {

/// Holds the sending half of a watch channel on which definitions are published.
pub struct DefinitionProviderConsumer {
    sender: Sender<Definition>,
}

} // verus!
