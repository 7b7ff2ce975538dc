use crate::color::Color;
use crate::entity::Entity;
use crate::error::{FontError, Lookup};
use crate::font::{
    BoldFont, BoldItalicFont, DefaultFont, DefaultFontColor, DefaultFontSize, FontColor, FontSize,
    FontTags, ItalicFont, ReactiveFont, RegularFont, UsedBy, UsingFont,
};
use vstd::prelude::*;

verus! {

/// Asks that the font face of the text it names be resolved again.
#[derive(Clone, Copy, Debug, PartialEq, Eq, Structural)]
pub struct UpdateFont(pub Entity);

/// Asks that the size of the text it names be resolved again.
#[derive(Clone, Copy, Debug, PartialEq, Eq, Structural)]
pub struct UpdateFontSize(pub Entity);

/// Asks that the colour of the text it names be resolved again.
#[derive(Clone, Copy, Debug, PartialEq, Eq, Structural)]
pub struct UpdateFontColor(pub Entity);

/// The four faces of a font collection: regular, italic, bold, bold italic.
pub type FontFaces<H> = (RegularFont<H>, ItalicFont<H>, BoldFont<H>, BoldItalicFont<H>);

/// What the host found of a text when one of its attributes is to be
/// resolved.
#[derive(Clone, Copy, Debug, PartialEq, Eq)]
pub struct TextItem<T> {
    /// The mark of a text that is styled by this crate, where the text has it.
    pub reactive_font: Option<ReactiveFont>,
    /// What the text says of the attribute itself: its tags, its own size or
    /// its own colour.
    pub own: T,
    /// The collection that the text names, where it names one.
    pub using_font: Option<UsingFont>,
}

/// The collection that styles a text: the one the text names, else the
/// default one, else none.
pub open spec fn effective_font(
    using_font: Option<UsingFont>,
    default_font: Option<DefaultFont>,
) -> Option<Entity> {
    match (using_font, default_font) {
        (Some(using_font), _) => Some(using_font.0),
        (None, Some(default_font)) => Some(default_font.0),
        (None, None) => None,
    }
}

/// The collection that styles the text of which `reactive_font` was found.
/// A text that was not found has none, nor has a text without the mark.
pub open spec fn styled_by<T>(
    reactive_font: Lookup<TextItem<T>>,
    default_font: Option<DefaultFont>,
) -> Option<Entity> {
    match reactive_font {
        Lookup::Found(item) => if item.reactive_font is Some {
            effective_font(item.using_font, default_font)
        } else {
            None
        },
        _ => None,
    }
}

/// Where the lookup of a text leads: to the collection that has to be looked
/// up next, to nothing, or to an error. It leads to nothing for a text that is
/// gone and for a text without the mark, which is left alone.
pub open spec fn font_to_consult<T>(
    text: Entity,
    reactive_font: Lookup<TextItem<T>>,
    default_font: Option<DefaultFont>,
) -> Result<Option<Entity>, FontError> {
    match reactive_font {
        Lookup::Missing => Ok(None),
        Lookup::Mismatch(err) => Err(FontError::InvalidReactiveFont(text, err)),
        Lookup::Found(item) => if item.reactive_font is None {
            Ok(None)
        } else {
            match effective_font(item.using_font, default_font) {
                Some(font) => Ok(Some(font)),
                None => Err(FontError::CannotFindFont { text }),
            }
        },
    }
}

/// The face for a pair of style tags: bold italic for both, italic or bold for
/// one, regular for none.
pub open spec fn selected_face<H>(tags: FontTags, fonts: FontFaces<H>) -> H {
    if tags.italic is Some && tags.bold is Some {
        fonts.3.0
    } else if tags.italic is Some {
        fonts.1.0
    } else if tags.bold is Some {
        fonts.2.0
    } else {
        fonts.0.0
    }
}

/// The size of a text: its own where it has one, else the default size of its
/// collection.
pub open spec fn selected_size(font_size: Option<FontSize>, default_font_size: DefaultFontSize) -> u32 {
    match font_size {
        Some(font_size) => font_size.0,
        None => default_font_size.0,
    }
}

/// The colour of a text: its own where it has one, else the default colour of
/// its collection.
pub open spec fn selected_color(
    font_color: Option<FontColor>,
    default_font_color: DefaultFontColor,
) -> Color {
    match font_color {
        Some(font_color) => font_color.0,
        None => default_font_color.0,
    }
}

/// What a resolution comes to once the text's collection was looked up:
/// `value` where the collection was found, nothing where it is gone, and
/// `InvalidFont` where it is alive but is no font collection.
pub open spec fn resolved<D, V>(text: Entity, fonts: Lookup<D>, value: spec_fn(D) -> V) -> Result<
    Option<V>,
    FontError,
> {
    match fonts {
        Lookup::Missing => Ok(None),
        Lookup::Mismatch(err) => Err(FontError::InvalidFont(text, err)),
        Lookup::Found(fonts) => Ok(Some(value(fonts))),
    }
}

/// What one resolution of a text's face comes to, once its collection was
/// looked up: the face to write, nothing because the collection is gone, or an
/// error.
pub open spec fn resolved_font<H>(
    text: Entity,
    tags: FontTags,
    fonts: Lookup<FontFaces<H>>,
) -> Result<Option<H>, FontError> {
    resolved(text, fonts, |fonts: FontFaces<H>| selected_face(tags, fonts))
}

/// What one resolution of a text's size comes to, once its collection was
/// looked up: the text's own size where it has one, else the collection's
/// default size; nothing because the collection is gone; or an error.
pub open spec fn resolved_font_size(
    text: Entity,
    font_size: Option<FontSize>,
    fonts: Lookup<DefaultFontSize>,
) -> Result<Option<u32>, FontError> {
    resolved(
        text,
        fonts,
        |default_font_size: DefaultFontSize| selected_size(font_size, default_font_size),
    )
}

/// What one resolution of a text's colour comes to, once its collection was
/// looked up: the text's own colour where it has one, else the collection's
/// default colour; nothing because the collection is gone; or an error.
pub open spec fn resolved_font_color(
    text: Entity,
    font_color: Option<FontColor>,
    fonts: Lookup<DefaultFontColor>,
) -> Result<Option<Color>, FontError> {
    resolved(
        text,
        fonts,
        |default_font_color: DefaultFontColor| selected_color(font_color, default_font_color),
    )
}

/// What a resolution comes to in a store of font collections, given as the
/// answer the store has for each entity. The text's lookup is judged first,
/// then whether any collection styles the text, then that collection's
/// lookup.
pub open spec fn resolved_in<T, D, V>(
    fonts: spec_fn(Entity) -> Lookup<D>,
    text: Entity,
    reactive_font: Lookup<TextItem<T>>,
    default_font: Option<DefaultFont>,
    value: spec_fn(T, D) -> V,
) -> Result<Option<V>, FontError> {
    match font_to_consult(text, reactive_font, default_font) {
        Err(err) => Err(err),
        Ok(None) => Ok(None),
        Ok(Some(font)) => resolved(
            text,
            fonts(font),
            |found: D| value(reactive_font->Found_0.own, found),
        ),
    }
}

/// The face of a text in a store of font collections.
pub open spec fn font_in<H>(
    fonts: spec_fn(Entity) -> Lookup<FontFaces<H>>,
    text: Entity,
    reactive_font: Lookup<TextItem<FontTags>>,
    default_font: Option<DefaultFont>,
) -> Result<Option<H>, FontError> {
    resolved_in(
        fonts,
        text,
        reactive_font,
        default_font,
        |tags: FontTags, fonts: FontFaces<H>| selected_face(tags, fonts),
    )
}

/// The size of a text in a store of font collections.
pub open spec fn font_size_in(
    fonts: spec_fn(Entity) -> Lookup<DefaultFontSize>,
    text: Entity,
    reactive_font: Lookup<TextItem<Option<FontSize>>>,
    default_font: Option<DefaultFont>,
) -> Result<Option<u32>, FontError> {
    resolved_in(
        fonts,
        text,
        reactive_font,
        default_font,
        |font_size: Option<FontSize>, default_font_size: DefaultFontSize|
            selected_size(font_size, default_font_size),
    )
}

/// The colour of a text in a store of font collections.
pub open spec fn font_color_in(
    fonts: spec_fn(Entity) -> Lookup<DefaultFontColor>,
    text: Entity,
    reactive_font: Lookup<TextItem<Option<FontColor>>>,
    default_font: Option<DefaultFont>,
) -> Result<Option<Color>, FontError> {
    resolved_in(
        fonts,
        text,
        reactive_font,
        default_font,
        |font_color: Option<FontColor>, default_font_color: DefaultFontColor|
            selected_color(font_color, default_font_color),
    )
}

/// The collection to look up for a text, from what was found of the text
/// itself.
///
/// A text that is gone leads nowhere and is no error; nor does a text without
/// the mark, which is left alone. A text that is alive but could not be read
/// is reported as `InvalidReactiveFont`. A marked text that names no
/// collection while no default is set is reported as `CannotFindFont`.
pub fn current_font<T>(
    text: Entity,
    reactive_font: &Lookup<TextItem<T>>,
    default_font: Option<DefaultFont>,
) -> (font: Result<Option<Entity>, FontError>)
    ensures
        font == font_to_consult(text, *reactive_font, default_font),
        font matches Ok(Some(font)) ==> styled_by(*reactive_font, default_font) == Some(font),
{
    match reactive_font {
        Lookup::Missing => Ok(None),
        Lookup::Mismatch(err) => Err(FontError::InvalidReactiveFont(text, *err)),
        Lookup::Found(item) => {
            if item.reactive_font.is_none() {
                return Ok(None);
            }
            match (item.using_font, default_font) {
                (Some(using_font), _) => Ok(Some(using_font.get())),
                (None, Some(default_font)) => Ok(Some(default_font.into_inner())),
                (None, None) => Err(FontError::CannotFindFont { text }),
            }
        },
    }
}

/// Picks the face of a text out of its collection's four, once the collection
/// was looked up.
///
/// A collection that is gone leaves the text as it is and is no error. One
/// that is alive but is no font collection is reported as `InvalidFont`.
pub fn resolve_font<H>(update: &UpdateFont, tags: FontTags, fonts: Lookup<FontFaces<H>>) -> (font:
    Result<Option<H>, FontError>)
    ensures
        font == resolved_font(update.0, tags, fonts),
{
    match fonts {
        Lookup::Missing => Ok(None),
        Lookup::Mismatch(err) => Err(FontError::InvalidFont(update.0, err)),
        Lookup::Found((regular_font, italic_font, bold_font, bold_italic_font)) => {
            let font = match (tags.italic, tags.bold) {
                (Some(_), Some(_)) => bold_italic_font.0,
                (Some(_), _) => italic_font.0,
                (_, Some(_)) => bold_font.0,
                _ => regular_font.0,
            };
            Ok(Some(font))
        },
    }
}

/// Settles the size of a text, once its collection was looked up.
///
/// The text's own size wins over the collection's default size; no size is
/// refused. A collection that is gone leaves the text as it is and is no
/// error, also for a text with a size of its own. One that is alive but is no
/// font collection is reported as `InvalidFont`.
pub fn resolve_font_size(
    update: &UpdateFontSize,
    font_size: Option<FontSize>,
    fonts: Lookup<DefaultFontSize>,
) -> (size: Result<Option<u32>, FontError>)
    ensures
        size == resolved_font_size(update.0, font_size, fonts),
{
    match fonts {
        Lookup::Missing => Ok(None),
        Lookup::Mismatch(err) => Err(FontError::InvalidFont(update.0, err)),
        Lookup::Found(default_font_size) => match font_size {
            Some(font_size) => Ok(Some(font_size.into_inner())),
            None => Ok(Some(default_font_size.into_inner())),
        },
    }
}

/// Settles the colour of a text, once its collection was looked up.
///
/// The text's own colour wins over the collection's default colour. A
/// collection that is gone leaves the text as it is and is no error, also for
/// a text with a colour of its own. One that is alive but is no font
/// collection is reported as `InvalidFont`.
pub fn resolve_font_color(
    update: &UpdateFontColor,
    font_color: Option<FontColor>,
    fonts: Lookup<DefaultFontColor>,
) -> (color: Result<Option<Color>, FontError>)
    ensures
        color == resolved_font_color(update.0, font_color, fonts),
{
    match fonts {
        Lookup::Missing => Ok(None),
        Lookup::Mismatch(err) => Err(FontError::InvalidFont(update.0, err)),
        Lookup::Found(default_font_color) => match font_color {
            Some(font_color) => Ok(Some(font_color.into_inner())),
            None => Ok(Some(default_font_color.into_inner())),
        },
    }
}

/// Whether `fonts` answers for every entity as `store` does.
pub open spec fn answers_as<D, F: Fn(Entity) -> Lookup<D>>(
    fonts: F,
    store: spec_fn(Entity) -> Lookup<D>,
) -> bool {
    forall|entity: Entity, found: Lookup<D>|
        #[trigger] call_ensures(fonts, (entity,), found) ==> found == store(entity)
}

/// Resolves the face of the text that `update` names.
///
/// `reactive_font` is what the host found of the text: its mark, its italic
/// and bold tags and its reference. `fonts` looks a collection up in the
/// host's store; what it answers for the collection that styles the text
/// decides. `Ok(Some(face))` is the face to render the text with; `Ok(None)`
/// says that nothing is to be written, because the text or its collection is
/// gone or because the text is not marked.
pub fn update_font<H, F>(
    update: &UpdateFont,
    reactive_font: Lookup<TextItem<FontTags>>,
    fonts: F,
    default_font: Option<DefaultFont>,
) -> (font: Result<Option<H>, FontError>) where F: Fn(Entity) -> Lookup<FontFaces<H>>
    requires
        forall|entity: Entity| call_requires(fonts, (entity,)),
    ensures
        match font_to_consult(update.0, reactive_font, default_font) {
            Err(err) => font == Err::<Option<H>, FontError>(err),
            Ok(None) => font == Ok::<Option<H>, FontError>(None),
            Ok(Some(collection)) => exists|found: Lookup<FontFaces<H>>|
                #[trigger] call_ensures(fonts, (collection,), found) && font == resolved_font(
                    update.0,
                    reactive_font->Found_0.own,
                    found,
                ),
        },
        forall|store: spec_fn(Entity) -> Lookup<FontFaces<H>>|
            answers_as(fonts, store) ==> font == #[trigger] font_in(
                store,
                update.0,
                reactive_font,
                default_font,
            ),
{
    match current_font(update.0, &reactive_font, default_font) {
        Err(err) => Err(err),
        Ok(None) => Ok(None),
        Ok(Some(collection)) => {
            let found = fonts(collection);
            match reactive_font {
                Lookup::Found(item) => resolve_font(update, item.own, found),
                _ => Ok(None),
            }
        },
    }
}

/// Resolves the size of the text that `update` names.
///
/// `reactive_font` is what the host found of the text: its mark, its own size,
/// if it has one, and its reference. `fonts` looks a collection's default size
/// up in the host's store; what it answers for the collection that styles the
/// text decides. `Ok(Some(size))` is the size to render the text with;
/// `Ok(None)` says that nothing is to be written, because the text or its
/// collection is gone or because the text is not marked.
pub fn update_font_size<F>(
    update: &UpdateFontSize,
    reactive_font: Lookup<TextItem<Option<FontSize>>>,
    fonts: F,
    default_font: Option<DefaultFont>,
) -> (size: Result<Option<u32>, FontError>) where F: Fn(Entity) -> Lookup<DefaultFontSize>
    requires
        forall|entity: Entity| call_requires(fonts, (entity,)),
    ensures
        match font_to_consult(update.0, reactive_font, default_font) {
            Err(err) => size == Err::<Option<u32>, FontError>(err),
            Ok(None) => size == Ok::<Option<u32>, FontError>(None),
            Ok(Some(collection)) => exists|found: Lookup<DefaultFontSize>|
                #[trigger] call_ensures(fonts, (collection,), found) && size == resolved_font_size(
                    update.0,
                    reactive_font->Found_0.own,
                    found,
                ),
        },
        forall|store: spec_fn(Entity) -> Lookup<DefaultFontSize>|
            answers_as(fonts, store) ==> size == #[trigger] font_size_in(
                store,
                update.0,
                reactive_font,
                default_font,
            ),
{
    match current_font(update.0, &reactive_font, default_font) {
        Err(err) => Err(err),
        Ok(None) => Ok(None),
        Ok(Some(collection)) => {
            let found = fonts(collection);
            match reactive_font {
                Lookup::Found(item) => resolve_font_size(update, item.own, found),
                _ => Ok(None),
            }
        },
    }
}

/// Resolves the colour of the text that `update` names.
///
/// `reactive_font` is what the host found of the text: its mark, its own
/// colour, if it has one, and its reference. `fonts` looks a collection's
/// default colour up in the host's store; what it answers for the collection
/// that styles the text decides. `Ok(Some(color))` is the colour to render the
/// text with; `Ok(None)` says that nothing is to be written, because the text
/// or its collection is gone or because the text is not marked.
pub fn update_font_color<F>(
    update: &UpdateFontColor,
    reactive_font: Lookup<TextItem<Option<FontColor>>>,
    fonts: F,
    default_font: Option<DefaultFont>,
) -> (color: Result<Option<Color>, FontError>) where F: Fn(Entity) -> Lookup<DefaultFontColor>
    requires
        forall|entity: Entity| call_requires(fonts, (entity,)),
    ensures
        match font_to_consult(update.0, reactive_font, default_font) {
            Err(err) => color == Err::<Option<Color>, FontError>(err),
            Ok(None) => color == Ok::<Option<Color>, FontError>(None),
            Ok(Some(collection)) => exists|found: Lookup<DefaultFontColor>|
                #[trigger] call_ensures(fonts, (collection,), found) && color
                    == resolved_font_color(update.0, reactive_font->Found_0.own, found),
        },
        forall|store: spec_fn(Entity) -> Lookup<DefaultFontColor>|
            answers_as(fonts, store) ==> color == #[trigger] font_color_in(
                store,
                update.0,
                reactive_font,
                default_font,
            ),
{
    match current_font(update.0, &reactive_font, default_font) {
        Err(err) => Err(err),
        Ok(None) => Ok(None),
        Ok(Some(collection)) => {
            let found = fonts(collection);
            match reactive_font {
                Lookup::Found(item) => resolve_font_color(update, item.own, found),
                _ => Ok(None),
            }
        },
    }
}

/// One face request for each text, in the texts' order.
pub open spec fn font_updates(texts: Seq<Entity>) -> Seq<UpdateFont> {
    texts.map_values(|text: Entity| UpdateFont(text))
}

/// One size request for each text, in the texts' order.
pub open spec fn font_size_updates(texts: Seq<Entity>) -> Seq<UpdateFontSize> {
    texts.map_values(|text: Entity| UpdateFontSize(text))
}

/// One colour request for each text, in the texts' order.
pub open spec fn font_color_updates(texts: Seq<Entity>) -> Seq<UpdateFontColor> {
    texts.map_values(|text: Entity| UpdateFontColor(text))
}

/// The users of the collections given, collection after collection, each
/// collection's users in their order.
pub open spec fn users_of(font_handles: Seq<(Entity, UsedBy)>) -> Seq<Entity>
    decreases font_handles.len(),
{
    if font_handles.len() == 0 {
        Seq::empty()
    } else {
        users_of(font_handles.drop_last()) + font_handles.last().1@
    }
}

/// Whether `font` is one of the collections given.
pub open spec fn holds_font(font_handles: Seq<(Entity, UsedBy)>, font: Entity) -> bool {
    exists|index: int| 0 <= index < font_handles.len() && (#[trigger] font_handles[index]).0 == font
}

/// Whether the default collection is set and is one of the collections given.
pub open spec fn holds_default_font(
    font_handles: Seq<(Entity, UsedBy)>,
    default_font: Option<DefaultFont>,
) -> bool {
    match default_font {
        Some(default_font) => holds_font(font_handles, default_font.0),
        None => false,
    }
}

/// The texts to resolve again when something changed in the collections
/// `font_handles`, each given with its users. Two audiences are told. Where
/// the default collection is among those that changed, the texts that name no
/// collection, `fonts`, come first. Then come the users of each collection
/// that changed. A text is listed once for each way in which it is reached.
pub open spec fn texts_to_update(
    default_font: Option<DefaultFont>,
    fonts: Seq<Entity>,
    font_handles: Seq<(Entity, UsedBy)>,
) -> Seq<Entity> {
    if holds_default_font(font_handles, default_font) {
        fonts + users_of(font_handles)
    } else {
        users_of(font_handles)
    }
}

/// Whether the default collection is set and is one of the collections given.
pub fn default_font_is_among(
    font_handles: &Vec<(Entity, UsedBy)>,
    default_font: Option<DefaultFont>,
) -> (among: bool)
    ensures
        among == holds_default_font(font_handles@, default_font),
{
    match default_font {
        None => false,
        Some(wanted) => {
            let mut index: usize = 0;
            while index < font_handles.len()
                invariant
                    default_font == Some(wanted),
                    index <= font_handles@.len(),
                    forall|before: int|
                        0 <= before < index ==> (#[trigger] font_handles@[before]).0 != wanted.0,
                decreases font_handles@.len() - index,
            {
                if font_handles[index].0 == wanted.0 {
                    assert(font_handles@[index as int].0 == wanted.0);
                    return true;
                }
                index += 1;
            }
            false
        },
    }
}

/// The texts to resolve again when something changed in the collections
/// `font_handles`: see `texts_to_update`.
pub fn audience(
    default_font: Option<DefaultFont>,
    fonts: &Vec<Entity>,
    font_handles: &Vec<(Entity, UsedBy)>,
) -> (texts: Vec<Entity>)
    ensures
        texts@ == texts_to_update(default_font, fonts@, font_handles@),
{
    let mut texts: Vec<Entity> = Vec::new();
    let ghost implicit: Seq<Entity> = Seq::empty();
    // If the default collection has changed, every text that goes by it is told.
    if default_font_is_among(font_handles, default_font) {
        let mut index: usize = 0;
        while index < fonts.len()
            invariant
                index <= fonts@.len(),
                texts@ == fonts@.subrange(0, index as int),
            decreases fonts@.len() - index,
        {
            texts.push(fonts[index]);
            index += 1;
        }
        proof {
            implicit = fonts@;
            assert(fonts@.subrange(0, fonts@.len() as int) =~= fonts@);
        }
    }
    let mut collection: usize = 0;
    while collection < font_handles.len()
        invariant
            collection <= font_handles@.len(),
            texts@ == implicit + users_of(font_handles@.subrange(0, collection as int)),
        decreases font_handles@.len() - collection,
    {
        let users = font_handles[collection].1.collection().as_slice();
        let mut index: usize = 0;
        while index < users.len()
            invariant
                collection < font_handles@.len(),
                users@ == font_handles@[collection as int].1@,
                index <= users@.len(),
                texts@ == implicit + users_of(font_handles@.subrange(0, collection as int))
                    + users@.subrange(0, index as int),
            decreases users@.len() - index,
        {
            texts.push(users[index]);
            index += 1;
        }
        proof {
            let done = font_handles@.subrange(0, collection as int + 1);
            assert(done.drop_last() =~= font_handles@.subrange(0, collection as int));
            assert(done.last() == font_handles@[collection as int]);
            assert(users@.subrange(0, users@.len() as int) =~= users@);
            assert(texts@ =~= implicit + users_of(done));
        }
        collection += 1;
    }
    proof {
        assert(font_handles@.subrange(0, font_handles@.len() as int) =~= font_handles@);
    }
    texts
}

/// One face request for each text, in the texts' order.
pub fn update_fonts(texts: &Vec<Entity>) -> (updates: Vec<UpdateFont>)
    ensures
        updates@ == font_updates(texts@),
{
    let mut updates: Vec<UpdateFont> = Vec::with_capacity(texts.len());
    let mut index: usize = 0;
    while index < texts.len()
        invariant
            index <= texts@.len(),
            updates@ == font_updates(texts@.subrange(0, index as int)),
        decreases texts@.len() - index,
    {
        updates.push(UpdateFont(texts[index]));
        index += 1;
        assert(updates@ =~= font_updates(texts@.subrange(0, index as int)));
    }
    assert(texts@.subrange(0, texts@.len() as int) =~= texts@);
    updates
}

/// One size request for each text, in the texts' order.
pub fn update_font_sizes(texts: &Vec<Entity>) -> (updates: Vec<UpdateFontSize>)
    ensures
        updates@ == font_size_updates(texts@),
{
    let mut updates: Vec<UpdateFontSize> = Vec::with_capacity(texts.len());
    let mut index: usize = 0;
    while index < texts.len()
        invariant
            index <= texts@.len(),
            updates@ == font_size_updates(texts@.subrange(0, index as int)),
        decreases texts@.len() - index,
    {
        updates.push(UpdateFontSize(texts[index]));
        index += 1;
        assert(updates@ =~= font_size_updates(texts@.subrange(0, index as int)));
    }
    assert(texts@.subrange(0, texts@.len() as int) =~= texts@);
    updates
}

/// One colour request for each text, in the texts' order.
pub fn update_font_colors(texts: &Vec<Entity>) -> (updates: Vec<UpdateFontColor>)
    ensures
        updates@ == font_color_updates(texts@),
{
    let mut updates: Vec<UpdateFontColor> = Vec::with_capacity(texts.len());
    let mut index: usize = 0;
    while index < texts.len()
        invariant
            index <= texts@.len(),
            updates@ == font_color_updates(texts@.subrange(0, index as int)),
        decreases texts@.len() - index,
    {
        updates.push(UpdateFontColor(texts[index]));
        index += 1;
        assert(updates@ =~= font_color_updates(texts@.subrange(0, index as int)));
    }
    assert(texts@.subrange(0, texts@.len() as int) =~= texts@);
    updates
}

/// A text was marked as styled by this crate: its face, its size and its
/// colour are all resolved.
pub fn on_add_reactive_font(entity: Entity) -> (updates: (
    UpdateFont,
    UpdateFontSize,
    UpdateFontColor,
))
    ensures
        updates == (UpdateFont(entity), UpdateFontSize(entity), UpdateFontColor(entity)),
{
    (UpdateFont(entity), UpdateFontSize(entity), UpdateFontColor(entity))
}

/// The default collection was replaced: every text that names no collection,
/// `fonts`, has its face, its size and its colour resolved again.
pub fn default_font_changed(fonts: &Vec<Entity>) -> (updates: (
    Vec<UpdateFont>,
    Vec<UpdateFontSize>,
    Vec<UpdateFontColor>,
))
    ensures
        updates.0@ == font_updates(fonts@),
        updates.1@ == font_size_updates(fonts@),
        updates.2@ == font_color_updates(fonts@),
{
    (update_fonts(fonts), update_font_sizes(fonts), update_font_colors(fonts))
}

/// A face changed in the collections `font_handles`: the texts of
/// `texts_to_update` have their face resolved again.
pub fn font_handle_changed(
    default_font: Option<DefaultFont>,
    fonts: &Vec<Entity>,
    font_handles: &Vec<(Entity, UsedBy)>,
) -> (updates: Vec<UpdateFont>)
    ensures
        updates@ == font_updates(texts_to_update(default_font, fonts@, font_handles@)),
{
    let texts = audience(default_font, fonts, font_handles);
    update_fonts(&texts)
}

/// The default size changed in the collections `font_handles`: the texts of
/// `texts_to_update` have their size resolved again.
pub fn default_font_size_changed(
    default_font: Option<DefaultFont>,
    fonts: &Vec<Entity>,
    font_handles: &Vec<(Entity, UsedBy)>,
) -> (updates: Vec<UpdateFontSize>)
    ensures
        updates@ == font_size_updates(texts_to_update(default_font, fonts@, font_handles@)),
{
    let texts = audience(default_font, fonts, font_handles);
    update_font_sizes(&texts)
}

/// The default colour changed in the collections `font_handles`: the texts of
/// `texts_to_update` have their colour resolved again.
pub fn default_font_color_changed(
    default_font: Option<DefaultFont>,
    fonts: &Vec<Entity>,
    font_handles: &Vec<(Entity, UsedBy)>,
) -> (updates: Vec<UpdateFontColor>)
    ensures
        updates@ == font_color_updates(texts_to_update(default_font, fonts@, font_handles@)),
{
    let texts = audience(default_font, fonts, font_handles);
    update_font_colors(&texts)
}

/// A text came to name a collection. The collection that styles it is another
/// now, so its face, its size and its colour are all resolved again.
pub fn selected_font(entity: Entity) -> (updates: (UpdateFont, UpdateFontSize, UpdateFontColor))
    ensures
        updates == (UpdateFont(entity), UpdateFontSize(entity), UpdateFontColor(entity)),
{
    (UpdateFont(entity), UpdateFontSize(entity), UpdateFontColor(entity))
}

/// A text ceased to name a collection. The collection that styles it is
/// another now, so its face, its size and its colour are all resolved again.
pub fn deselected_font(entity: Entity) -> (updates: (UpdateFont, UpdateFontSize, UpdateFontColor))
    ensures
        updates == (UpdateFont(entity), UpdateFontSize(entity), UpdateFontColor(entity)),
{
    (UpdateFont(entity), UpdateFontSize(entity), UpdateFontColor(entity))
}

/// A text was tagged bold or italic: its face is resolved again.
pub fn on_add_font_tag(entity: Entity) -> (update: UpdateFont)
    ensures
        update == UpdateFont(entity),
{
    UpdateFont(entity)
}

/// A text lost its bold or its italic tag: its face is resolved again.
pub fn on_remove_font_tag(entity: Entity) -> (update: UpdateFont)
    ensures
        update == UpdateFont(entity),
{
    UpdateFont(entity)
}

/// A text was given a size of its own: its size is resolved again.
pub fn on_add_font_size(entity: Entity) -> (update: UpdateFontSize)
    ensures
        update == UpdateFontSize(entity),
{
    UpdateFontSize(entity)
}

/// The own size of each of the texts `changed` was set to another value:
/// their sizes are resolved again.
pub fn changed_font_size(changed: &Vec<Entity>) -> (updates: Vec<UpdateFontSize>)
    ensures
        updates@ == font_size_updates(changed@),
{
    update_font_sizes(changed)
}

/// A text lost its own size: its size is resolved again.
pub fn on_remove_font_size(entity: Entity) -> (update: UpdateFontSize)
    ensures
        update == UpdateFontSize(entity),
{
    UpdateFontSize(entity)
}

/// A text was given a colour of its own: its colour is resolved again.
pub fn on_add_font_color(entity: Entity) -> (update: UpdateFontColor)
    ensures
        update == UpdateFontColor(entity),
{
    UpdateFontColor(entity)
}

/// The own colour of each of the texts `changed` was set to another value:
/// their colours are resolved again.
pub fn changed_font_color(changed: &Vec<Entity>) -> (updates: Vec<UpdateFontColor>)
    ensures
        updates@ == font_color_updates(changed@),
{
    update_font_colors(changed)
}

/// A text lost its own colour: its colour is resolved again.
pub fn on_remove_font_color(entity: Entity) -> (update: UpdateFontColor)
    ensures
        update == UpdateFontColor(entity),
{
    UpdateFontColor(entity)
}

} // verus!
