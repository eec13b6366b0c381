//! What a theme is made from and what it is made of.

pub use constraint::ThemeConstraints;
pub use derivation::{
    Accent, AccentDerivation, AsCss, Container, ContainerDerivation, ContainerType, Destructive,
    DestructiveDerivation, ShadeRequest, Shades, Widget, WidgetDerivation,
};
pub use selection::{Candidate, Selection, SelectionError};
pub use theme::{Shading, ShadingRequest, Theme, ThemeDerivation};

pub mod constraint;
pub mod derivation;
pub mod selection;
pub mod theme;
