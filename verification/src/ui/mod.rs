//! What the pages of the player decide without the toolkit.

pub mod list_helpers;
pub mod page_traits;
