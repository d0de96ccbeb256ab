pub mod dispatcher;
pub mod retry_worker;
