use reactive_font::color::{Color, ColorSpace};
use reactive_font::entity::Entity;
use reactive_font::error::{FontError, Lookup, LookupError};
use reactive_font::font::{
    Bold, BoldFont, BoldItalicFont, DefaultFont, DefaultFontColor, DefaultFontSize,
    FontCollection, FontColor, FontSize, FontTags, Italic, ItalicFont, ReactiveFont, RegularFont,
    UsingFont,
};
use reactive_font::plugin::{
    current_font, default_font_changed, on_remove_font_tag, resolve_font, resolve_font_color,
    resolve_font_size, update_font, update_font_color, update_font_size, FontFaces, TextItem,
    UpdateFont, UpdateFontColor, UpdateFontSize,
};

const C: Entity = 10;
const C2: Entity = 11;
const T: Entity = 42;
const STRANGER: Entity = 99;

/// What the host found of a text that carries the mark.
fn marked<T>(own: T, using_font: Option<UsingFont>) -> Lookup<TextItem<T>> {
    Lookup::Found(TextItem {
        reactive_font: Some(ReactiveFont),
        own,
        using_font,
    })
}

/// What the host found of a text that does not carry the mark.
fn unmarked<T>(own: T, using_font: Option<UsingFont>) -> Lookup<TextItem<T>> {
    Lookup::Found(TextItem {
        reactive_font: None,
        own,
        using_font,
    })
}

fn tags(italic: bool, bold: bool) -> FontTags {
    FontTags {
        italic: italic.then_some(Italic),
        bold: bold.then_some(Bold),
    }
}

fn size(value: f32) -> u32 {
    value.to_bits()
}

fn srgb(red: f32, green: f32, blue: f32) -> Color {
    Color {
        space: ColorSpace::Srgba,
        first: red.to_bits(),
        second: green.to_bits(),
        third: blue.to_bits(),
        alpha: 1.0f32.to_bits(),
    }
}

fn purple() -> Color {
    srgb(191.0 / 255.0, 133.0 / 255.0, 209.0 / 255.0)
}

fn green() -> Color {
    srgb(162.0 / 255.0, 209.0 / 255.0, 133.0 / 255.0)
}

/// A collection with the faces R, I, B and BI, each behind `prefix`, and purple as its colour.
fn collection(prefix: &str, default_size: f32) -> FontCollection<String> {
    let mut collection = FontCollection::new(
        format!("{prefix}R"),
        format!("{prefix}I"),
        format!("{prefix}B"),
        format!("{prefix}BI"),
    );
    collection.default_size = DefaultFontSize::new(size(default_size));
    collection.default_color = DefaultFontColor::new(purple());
    collection
}

fn faces_of(collection: &FontCollection<String>) -> FontFaces<String> {
    (
        collection.regular.clone(),
        collection.italic.clone(),
        collection.bold.clone(),
        collection.bold_italic.clone(),
    )
}

/// A store that holds `C` and `C2`; `STRANGER` is alive but no collection;
/// everything else is gone.
struct Store {
    c: FontCollection<String>,
    c2: FontCollection<String>,
}

impl Store {
    fn new() -> Self {
        Store {
            c: collection("", 20.0),
            c2: collection("2", 30.0),
        }
    }

    fn find(&self, font: Entity) -> Lookup<&FontCollection<String>> {
        match font {
            C => Lookup::Found(&self.c),
            C2 => Lookup::Found(&self.c2),
            STRANGER => Lookup::Mismatch(LookupError::QueryDoesNotMatch(STRANGER, 3)),
            _ => Lookup::Missing,
        }
    }

    fn faces(&self, font: Entity) -> Lookup<FontFaces<String>> {
        match self.find(font) {
            Lookup::Found(collection) => Lookup::Found(faces_of(collection)),
            Lookup::Missing => Lookup::Missing,
            Lookup::Mismatch(err) => Lookup::Mismatch(err),
        }
    }

    fn size(&self, font: Entity) -> Lookup<DefaultFontSize> {
        match self.find(font) {
            Lookup::Found(collection) => Lookup::Found(collection.default_size),
            Lookup::Missing => Lookup::Missing,
            Lookup::Mismatch(err) => Lookup::Mismatch(err),
        }
    }

    fn color(&self, font: Entity) -> Lookup<DefaultFontColor> {
        match self.find(font) {
            Lookup::Found(collection) => Lookup::Found(collection.default_color),
            Lookup::Missing => Lookup::Missing,
            Lookup::Mismatch(err) => Lookup::Mismatch(err),
        }
    }
}

#[test]
fn text_without_overrides_follows_the_default_collection() {
    let store = Store::new();
    let default_font = Some(DefaultFont::new(C));
    assert_eq!(
        update_font(
            &UpdateFont(T),
            marked(tags(false, false), None),
            |font| store.faces(font),
            default_font
        ),
        Ok(Some("R".to_string()))
    );
    assert_eq!(
        update_font_size(
            &UpdateFontSize(T),
            marked(None, None),
            |font| store.size(font),
            default_font
        ),
        Ok(Some(size(20.0)))
    );
    assert_eq!(
        update_font_color(
            &UpdateFontColor(T),
            marked(None, None),
            |font| store.color(font),
            default_font
        ),
        Ok(Some(purple()))
    );
}

#[test]
fn own_size_wins_and_the_rest_stays() {
    let store = Store::new();
    let default_font = Some(DefaultFont::new(C));
    assert_eq!(
        update_font_size(
            &UpdateFontSize(T),
            marked(Some(FontSize::new(size(25.0))), None),
            |font| store.size(font),
            default_font
        ),
        Ok(Some(size(25.0)))
    );
    assert_eq!(
        update_font(
            &UpdateFont(T),
            marked(tags(false, false), None),
            |font| store.faces(font),
            default_font
        ),
        Ok(Some("R".to_string()))
    );
    assert_eq!(
        update_font_color(
            &UpdateFontColor(T),
            marked(None, None),
            |font| store.color(font),
            default_font
        ),
        Ok(Some(purple()))
    );
}

#[test]
fn replacing_the_default_collection_resolves_its_texts_again() {
    let store = Store::new();
    // T names no collection, so it is among the texts that go by the default.
    let (fonts, sizes, colors) = default_font_changed(&vec![T]);
    assert_eq!(fonts, vec![UpdateFont(T)]);
    assert_eq!(sizes, vec![UpdateFontSize(T)]);
    assert_eq!(colors, vec![UpdateFontColor(T)]);

    let replaced = Some(DefaultFont::new(C2));
    assert_eq!(
        update_font(
            &fonts[0],
            marked(tags(false, false), None),
            |font| store.faces(font),
            replaced
        ),
        Ok(Some("2R".to_string()))
    );
    assert_eq!(
        update_font_size(
            &sizes[0],
            marked(None, None),
            |font| store.size(font),
            replaced
        ),
        Ok(Some(size(30.0)))
    );
}

#[test]
fn tags_pick_the_face_and_losing_one_picks_again() {
    let store = Store::new();
    let using_font = Some(UsingFont(C));
    assert_eq!(
        update_font(
            &UpdateFont(T),
            marked(tags(true, true), using_font),
            |font| store.faces(font),
            None
        ),
        Ok(Some("BI".to_string()))
    );
    // The italic tag goes: the face is asked for again and is the bold one.
    let update = on_remove_font_tag(T);
    assert_eq!(update, UpdateFont(T));
    assert_eq!(
        update_font(
            &update,
            marked(tags(false, true), using_font),
            |font| store.faces(font),
            None
        ),
        Ok(Some("B".to_string()))
    );
}

#[test]
fn a_collection_that_is_gone_is_passed_over_in_silence() {
    let store = Store::new();
    let gone: Entity = 77;
    let using_font = Some(UsingFont(gone));
    assert_eq!(
        update_font(
            &UpdateFont(T),
            marked(tags(false, false), using_font),
            |font| store.faces(font),
            Some(DefaultFont::new(C))
        ),
        Ok(None)
    );
    assert_eq!(
        update_font_size(
            &UpdateFontSize(T),
            marked(Some(FontSize::new(size(25.0))), using_font),
            |font| store.size(font),
            Some(DefaultFont::new(C))
        ),
        Ok(None)
    );
    assert_eq!(
        update_font_color(
            &UpdateFontColor(T),
            marked(None, using_font),
            |font| store.color(font),
            None
        ),
        Ok(None)
    );
}

#[test]
fn a_text_that_is_gone_is_passed_over_and_no_collection_is_looked_up() {
    let asked = std::cell::Cell::new(0);
    let store = Store::new();
    let outcome = update_font(
        &UpdateFont(T),
        Lookup::Missing,
        |font| {
            asked.set(asked.get() + 1);
            store.faces(font)
        },
        Some(DefaultFont::new(C)),
    );
    assert_eq!(outcome, Ok(None));
    assert_eq!(asked.get(), 0);
    assert_eq!(
        update_font_size(
            &UpdateFontSize(T),
            Lookup::Missing,
            |font| store.size(font),
            None
        ),
        Ok(None)
    );
    assert_eq!(
        update_font_color(
            &UpdateFontColor(T),
            Lookup::Missing,
            |font| store.color(font),
            None
        ),
        Ok(None)
    );
}

#[test]
fn the_collection_is_looked_up_once_and_it_is_the_one_that_styles_the_text() {
    let store = Store::new();
    let asked = std::cell::RefCell::new(Vec::new());
    let outcome = update_font_size(
        &UpdateFontSize(T),
        marked(None, Some(UsingFont(C2))),
        |font| {
            asked.borrow_mut().push(font);
            store.size(font)
        },
        Some(DefaultFont::new(C)),
    );
    assert_eq!(outcome, Ok(Some(size(30.0))));
    assert_eq!(*asked.borrow(), vec![C2]);
}

#[test]
fn text_without_reference_or_default_cannot_find_font() {
    let store = Store::new();
    let expected = FontError::CannotFindFont { text: T };
    assert_eq!(current_font(T, &marked((), None), None), Err(expected));
    assert_eq!(
        update_font(
            &UpdateFont(T),
            marked(tags(true, false), None),
            |font| store.faces(font),
            None
        ),
        Err(expected)
    );
    // Values of its own do not help a text that has no collection.
    assert_eq!(
        update_font_size(
            &UpdateFontSize(T),
            marked(Some(FontSize::new(size(25.0))), None),
            |font| store.size(font),
            None
        ),
        Err(expected)
    );
    assert_eq!(
        update_font_color(
            &UpdateFontColor(T),
            marked(Some(FontColor::new(green())), None),
            |font| store.color(font),
            None
        ),
        Err(expected)
    );
    assert_eq!(expected.text(), T);
}

#[test]
fn a_text_that_cannot_be_read_is_an_invalid_reactive_font() {
    let store = Store::new();
    let err = LookupError::QueryDoesNotMatch(T, 5);
    let expected = FontError::InvalidReactiveFont(T, err);
    assert_eq!(
        current_font(
            T,
            &Lookup::<TextItem<()>>::Mismatch(err),
            Some(DefaultFont::new(C))
        ),
        Err(expected)
    );
    assert_eq!(
        update_font(
            &UpdateFont(T),
            Lookup::Mismatch(err),
            |font| store.faces(font),
            Some(DefaultFont::new(C))
        ),
        Err(expected)
    );
    let aliased = LookupError::AliasedMutability(T);
    assert_eq!(
        update_font_size(
            &UpdateFontSize(T),
            Lookup::Mismatch(aliased),
            |font| store.size(font),
            Some(DefaultFont::new(C))
        ),
        Err(FontError::InvalidReactiveFont(T, aliased))
    );
    assert_eq!(
        update_font_color(
            &UpdateFontColor(T),
            Lookup::Mismatch(aliased),
            |font| store.color(font),
            Some(DefaultFont::new(C))
        ),
        Err(FontError::InvalidReactiveFont(T, aliased))
    );
    assert_eq!(expected.text(), T);
}

#[test]
fn a_reference_to_something_that_is_no_collection_is_an_invalid_font() {
    let store = Store::new();
    let expected = FontError::InvalidFont(T, LookupError::QueryDoesNotMatch(STRANGER, 3));
    assert_eq!(
        update_font(
            &UpdateFont(T),
            marked(tags(false, false), Some(UsingFont(STRANGER))),
            |font| store.faces(font),
            Some(DefaultFont::new(C))
        ),
        Err(expected)
    );
    assert_eq!(
        update_font_size(
            &UpdateFontSize(T),
            marked(Some(FontSize::new(size(25.0))), None),
            |font| store.size(font),
            Some(DefaultFont::new(STRANGER))
        ),
        Err(expected)
    );
    assert_eq!(
        update_font_color(
            &UpdateFontColor(T),
            marked(None, None),
            |font| store.color(font),
            Some(DefaultFont::new(STRANGER))
        ),
        Err(expected)
    );
    assert_eq!(expected.text(), T);
}

#[test]
fn the_reference_wins_over_the_default_collection() {
    assert_eq!(
        current_font(
            T,
            &marked((), Some(UsingFont(C2))),
            Some(DefaultFont::new(C))
        ),
        Ok(Some(C2))
    );
    assert_eq!(
        current_font(T, &marked((), None), Some(DefaultFont::new(C))),
        Ok(Some(C))
    );
    assert_eq!(
        current_font(T, &marked((), Some(UsingFont(C2))), None),
        Ok(Some(C2))
    );
    assert_eq!(
        current_font(
            T,
            &Lookup::<TextItem<()>>::Missing,
            Some(DefaultFont::new(C))
        ),
        Ok(None)
    );
}

#[test]
fn each_pair_of_tags_has_its_face() {
    let faces = || {
        Lookup::Found((
            RegularFont::new("regular"),
            ItalicFont::new("italic"),
            BoldFont::new("bold"),
            BoldItalicFont::new("bold italic"),
        ))
    };
    let update = UpdateFont(T);
    assert_eq!(
        resolve_font(&update, tags(false, false), faces()),
        Ok(Some("regular"))
    );
    assert_eq!(
        resolve_font(&update, tags(true, false), faces()),
        Ok(Some("italic"))
    );
    assert_eq!(resolve_font(&update, tags(false, true), faces()), Ok(Some("bold")));
    assert_eq!(
        resolve_font(&update, tags(true, true), faces()),
        Ok(Some("bold italic"))
    );
    assert_eq!(
        resolve_font(&update, tags(true, true), Lookup::<FontFaces<&str>>::Missing),
        Ok(None)
    );
    assert_eq!(
        resolve_font(
            &update,
            tags(true, true),
            Lookup::<FontFaces<&str>>::Mismatch(LookupError::AliasedMutability(C))
        ),
        Err(FontError::InvalidFont(T, LookupError::AliasedMutability(C)))
    );
}

#[test]
fn sizes_pass_through_unchanged_whatever_they_are() {
    let update = UpdateFontSize(T);
    let default = Lookup::Found(DefaultFontSize::new(size(20.0)));
    for own in [0.0f32, -0.0, -12.5, 1.0e30, f32::INFINITY, f32::MIN_POSITIVE] {
        assert_eq!(
            resolve_font_size(&update, Some(FontSize::new(size(own))), default),
            Ok(Some(own.to_bits()))
        );
        assert_eq!(
            resolve_font_size(
                &update,
                None,
                Lookup::Found(DefaultFontSize::new(size(own)))
            ),
            Ok(Some(own.to_bits()))
        );
    }
    let nan = f32::NAN.to_bits();
    assert_eq!(
        resolve_font_size(&update, Some(FontSize::new(nan)), default),
        Ok(Some(nan))
    );
    assert_eq!(
        resolve_font_size(&update, None, Lookup::Missing),
        Ok(None)
    );
    assert_eq!(
        resolve_font_size(
            &update,
            Some(FontSize::new(nan)),
            Lookup::Mismatch(LookupError::QueryDoesNotMatch(C, 0))
        ),
        Err(FontError::InvalidFont(
            T,
            LookupError::QueryDoesNotMatch(C, 0)
        ))
    );
}

#[test]
fn own_colour_wins_over_the_default_colour() {
    let update = UpdateFontColor(T);
    let default = Lookup::Found(DefaultFontColor::new(purple()));
    assert_eq!(
        resolve_font_color(&update, Some(FontColor::new(green())), default),
        Ok(Some(green()))
    );
    assert_eq!(resolve_font_color(&update, None, default), Ok(Some(purple())));
    assert_eq!(
        resolve_font_color(&update, Some(FontColor::new(green())), Lookup::Missing),
        Ok(None)
    );
    assert_eq!(
        resolve_font_color(
            &update,
            None,
            Lookup::Mismatch(LookupError::AliasedMutability(C))
        ),
        Err(FontError::InvalidFont(T, LookupError::AliasedMutability(C)))
    );
}

#[test]
fn resolving_twice_from_the_same_inputs_gives_the_same_twice() {
    let store = Store::new();
    let resolve = || {
        (
            update_font(
                &UpdateFont(T),
                marked(tags(true, false), Some(UsingFont(C))),
                |font| store.faces(font),
                Some(DefaultFont::new(C2)),
            ),
            update_font_size(
                &UpdateFontSize(T),
                marked(None, Some(UsingFont(C))),
                |font| store.size(font),
                Some(DefaultFont::new(C2)),
            ),
            update_font_color(
                &UpdateFontColor(T),
                marked(Some(FontColor::new(green())), Some(UsingFont(C))),
                |font| store.color(font),
                Some(DefaultFont::new(C2)),
            ),
        )
    };
    let first = resolve();
    let second = resolve();
    assert_eq!(first, second);
    assert_eq!(
        first,
        (
            Ok(Some("I".to_string())),
            Ok(Some(size(20.0))),
            Ok(Some(green()))
        )
    );
}

#[test]
fn a_text_without_the_mark_is_left_alone() {
    let store = Store::new();
    let asked = std::cell::Cell::new(0);
    // It names a collection, and a default is set, but nothing is resolved.
    assert_eq!(
        update_font(
            &UpdateFont(T),
            unmarked(tags(true, true), Some(UsingFont(C))),
            |font| {
                asked.set(asked.get() + 1);
                store.faces(font)
            },
            Some(DefaultFont::new(C2))
        ),
        Ok(None)
    );
    assert_eq!(asked.get(), 0);
    assert_eq!(
        update_font_size(
            &UpdateFontSize(T),
            unmarked(Some(FontSize::new(size(25.0))), Some(UsingFont(C))),
            |font| store.size(font),
            Some(DefaultFont::new(C2))
        ),
        Ok(None)
    );
    assert_eq!(
        update_font_color(
            &UpdateFontColor(T),
            unmarked(Some(FontColor::new(green())), None),
            |font| store.color(font),
            Some(DefaultFont::new(C2))
        ),
        Ok(None)
    );
    // Nor is anything reported of it: not that it has no collection,
    assert_eq!(
        update_font(
            &UpdateFont(T),
            unmarked(tags(false, false), None),
            |font| store.faces(font),
            None
        ),
        Ok(None)
    );
    assert_eq!(current_font(T, &unmarked((), None), None), Ok(None));
    // and not that what it names is no collection.
    assert_eq!(
        update_font_size(
            &UpdateFontSize(T),
            unmarked(None, Some(UsingFont(STRANGER))),
            |font| store.size(font),
            None
        ),
        Ok(None)
    );
}
