pub mod actions;
pub mod storage_request;
