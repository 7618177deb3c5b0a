pub mod config;
pub mod error;
pub mod laws;
pub mod model;
pub mod scheduler;
pub mod sim;
pub mod state;
pub mod task;

pub use config::{TaskPriority, TaskStackDepth};
pub use error::SpawnError;
pub use scheduler::Scheduler;
pub use sim::{SimRequest, SimScheduler};
pub use state::TaskState;
pub use task::{current, get_notification, sleep, spawn, Builder, TaskConfig, TaskHandle};
