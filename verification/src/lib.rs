pub mod context;
pub mod letterbox;
pub mod names;
pub mod post;
pub mod search;
pub mod tags;
pub mod task;
