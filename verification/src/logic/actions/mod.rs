pub mod definition_storage_action;
