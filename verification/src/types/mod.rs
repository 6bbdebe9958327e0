pub mod task_status;

pub use task_status::TaskStatus;
