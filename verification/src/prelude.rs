pub use crate::{
    color::{Color, ColorSpace},
    entity::Entity,
    error::{FontError, Lookup, LookupError},
    font::{
        Bold, BoldFont, BoldItalicFont, DefaultFont, DefaultFontColor, DefaultFontSize,
        FontCollection, FontColor, FontSize, FontTags, Italic, ItalicFont, ReactiveFont,
        RegularFont, UsedBy, UsingFont,
    },
    persistent_relationship_source::NeverEmptyVec,
    plugin::{TextItem, UpdateFont, UpdateFontColor, UpdateFontSize},
};
