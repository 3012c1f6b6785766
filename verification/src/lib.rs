//! A personal kanban-board backend: users authenticate with bearer tokens,
//! create projects with columns, labels and states, and manage tasks in them.
//! Every operation is gated by a permission lattice (Admin > Owner > Editor >
//! Reader > NoAccess) resolved per caller and per resource.

pub mod auth;
pub mod crypto;
pub mod error;
pub mod messages;
pub mod models;
pub mod permissions;
pub mod project_handler;
pub mod project_messages;
pub mod project_routes;
pub mod resolver;
pub mod store;
pub mod task_messages;
pub mod task_routes;
pub mod user_handler;
pub mod user_messages;
pub mod user_routes;
pub mod util;

pub use permissions::Permissions;
