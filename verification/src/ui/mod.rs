//! What the renderer consumes: the theme and the view model.

pub mod render;
pub mod theme;
pub mod viewmodel;

pub use render::render;
pub use theme::{Theme, ThemeColors};
pub use viewmodel::{DisplayItem, EmptyState, FooterInfo, HeaderInfo, SearchBarInfo, UIViewModel};
