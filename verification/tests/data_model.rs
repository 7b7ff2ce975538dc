use reactive_font::color::{Color, ColorSpace, ONE_BITS};
use reactive_font::font::{
    BoldFont, BoldItalicFont, DefaultFont, DefaultFontColor, DefaultFontSize, FontCollection,
    FontColor, FontSize, ItalicFont, RegularFont, UsedBy, UsingFont, DEFAULT_SIZE,
};
use reactive_font::persistent_relationship_source::NeverEmptyVec;

fn black() -> Color {
    Color {
        space: ColorSpace::LinearRgba,
        first: 0.0f32.to_bits(),
        second: 0.0f32.to_bits(),
        third: 0.0f32.to_bits(),
        alpha: 1.0f32.to_bits(),
    }
}

#[test]
fn the_default_size_is_fifteen() {
    assert_eq!(DEFAULT_SIZE, 15.0f32.to_bits());
    assert_eq!(f32::from_bits(FontSize::default().into_inner()), 15.0);
    assert_eq!(f32::from_bits(DefaultFontSize::default().into_inner()), 15.0);
    assert_eq!(FontSize::default(), FontSize(DEFAULT_SIZE));
    assert_eq!(DefaultFontSize::default(), DefaultFontSize(DEFAULT_SIZE));
}

#[test]
fn the_default_colour_is_opaque_black() {
    assert_eq!(ONE_BITS, 1.0f32.to_bits());
    assert_eq!(Color::black(), black());
    assert_eq!(Color::default(), black());
    assert_eq!(DefaultFontColor::default().into_inner(), black());
    assert_eq!(FontColor::default().into_inner(), black());
}

#[test]
fn sizes_hold_what_they_were_given() {
    let bits = 25.0f32.to_bits();
    assert_eq!(FontSize::new(bits).into_inner(), bits);
    assert_eq!(FontSize::from(bits), FontSize(bits));
    assert_eq!(DefaultFontSize::new(bits).into_inner(), bits);
    assert_eq!(DefaultFontSize::from(bits), DefaultFontSize(bits));
    let negative = (-3.5f32).to_bits();
    assert_eq!(f32::from_bits(FontSize::new(negative).into_inner()), -3.5);
    assert_eq!(FontSize::new(0).into_inner(), 0);
}

#[test]
fn colours_hold_what_they_were_given() {
    let color = Color {
        space: ColorSpace::Hsla,
        first: 210.0f32.to_bits(),
        second: 0.5f32.to_bits(),
        third: 0.25f32.to_bits(),
        alpha: 0.75f32.to_bits(),
    };
    assert_eq!(FontColor::new(color).into_inner(), color);
    assert_eq!(FontColor::from(color), FontColor(color));
    assert_eq!(DefaultFontColor::new(color).into_inner(), color);
    assert_ne!(FontColor::new(color).into_inner(), black());
}

#[test]
fn references_hold_the_collection_they_were_given() {
    assert_eq!(DefaultFont::new(12).into_inner(), 12);
    assert_eq!(DefaultFont::new(u64::MAX).into_inner(), u64::MAX);
    assert_eq!(UsingFont(13).get(), 13);
}

#[test]
fn faces_hold_the_handle_they_were_given() {
    assert_eq!(*RegularFont::new("r").into_inner(), "r");
    assert_eq!(*ItalicFont::new("i").into_inner(), "i");
    assert_eq!(*BoldFont::new("b").into_inner(), "b");
    assert_eq!(*BoldItalicFont::new("bi").into_inner(), "bi");
    assert_eq!(RegularFont::from(7u8), RegularFont(7u8));
    assert_eq!(ItalicFont::from(7u8), ItalicFont(7u8));
    assert_eq!(BoldFont::from(7u8), BoldFont(7u8));
    assert_eq!(BoldItalicFont::from(7u8), BoldItalicFont(7u8));
    // A face that was given no handle holds the handle type's default.
    assert_eq!(RegularFont::<u8>::default(), RegularFont(0));
    assert_eq!(BoldItalicFont::<String>::default().into_inner(), "");
}

#[test]
fn a_new_collection_has_every_part() {
    let collection = FontCollection::new("r", "i", "b", "bi");
    assert_eq!(collection.regular, RegularFont("r"));
    assert_eq!(collection.italic, ItalicFont("i"));
    assert_eq!(collection.bold, BoldFont("b"));
    assert_eq!(collection.bold_italic, BoldItalicFont("bi"));
    assert_eq!(collection.default_size, DefaultFontSize(15.0f32.to_bits()));
    assert_eq!(collection.default_color, DefaultFontColor(black()));
    assert_eq!(collection.used_by.len(), 0);
    assert!(!collection.used_by.is_empty());

    let unset = FontCollection::<String>::default();
    assert_eq!(unset, FontCollection::new(String::new(), String::new(), String::new(), String::new()));
}

#[test]
fn the_users_of_a_collection_are_never_reported_empty() {
    let used_by = UsedBy::default();
    assert_eq!(used_by.len(), 0);
    assert_eq!(used_by.iter(), Vec::new());
    assert!(!used_by.is_empty());

    let mut texts = NeverEmptyVec::new();
    texts.add(4);
    texts.add(2);
    let used_by = UsedBy::new(texts.clone());
    assert_eq!(used_by.len(), 2);
    assert_eq!(used_by.iter(), vec![4, 2]);
    assert_eq!(used_by.collection(), &texts);
    assert!(!used_by.is_empty());
}
