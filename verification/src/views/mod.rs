//! View results for standardized CLI output patterns.

pub mod message;

pub use message::{Message, MessageLevel};
pub mod create_view;
pub use create_view::{create_view, CreateViewBuilder, CreateViewResult, ValidationError};
pub mod update_view;
pub use update_view::{update_view, UpdateViewBuilder, UpdateViewResult};
pub mod delete_view;
pub use delete_view::{delete_view, DeleteViewBuilder, DeleteViewResult};
pub mod list_view;
pub use list_view::{list_view, ListViewBuilder, ListViewResult};
pub mod detail_view;
pub use detail_view::{detail_view, ActionSuggestion, DetailViewBuilder, DetailViewResult};
