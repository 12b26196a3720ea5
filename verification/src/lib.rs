//! Tool and toolbar logic of a font editor: the star tool's gesture, the outline
//! of a star, the toolbar's items, hot keys and selection, and the floating panel.

pub mod keys;
pub mod star;
pub mod panel;
pub mod outline;
pub mod toolbar;
