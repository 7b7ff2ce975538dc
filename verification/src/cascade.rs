//! What holds of every resolution: the order of precedence, what is left
//! alone, and who is told of a change. Each statement is made over the
//! functions that say what a resolution comes to.

use crate::color::Color;
use crate::entity::Entity;
use crate::error::{FontError, Lookup};
use crate::font::{
    DefaultFont, DefaultFontColor, DefaultFontSize, FontColor, FontSize, FontTags, ReactiveFont,
    UsedBy, UsingFont,
};
use crate::plugin::{
    effective_font, font_color_in, font_in, font_size_in, holds_default_font, holds_font,
    resolved_font_color, resolved_font_size, resolved_in, selected_face, styled_by,
    texts_to_update, users_of, FontFaces, TextItem,
};
use vstd::prelude::*;

verus! {

/// The value of a rendered attribute after a resolution came to `outcome`:
/// what was resolved, where something was; else what the attribute held
/// before. An error, a text or collection that is gone and a text without the
/// mark all leave the attribute as it was.
pub open spec fn written<V>(before: V, outcome: Result<Option<V>, FontError>) -> V {
    match outcome {
        Ok(Some(value)) => value,
        _ => before,
    }
}

/// What was found of a marked text.
pub open spec fn marked<T>(own: T, using_font: Option<UsingFont>) -> Lookup<TextItem<T>> {
    Lookup::Found(TextItem { reactive_font: Some(ReactiveFont), own, using_font })
}

/// Every outcome of a resolution, with the inputs on which it comes and no
/// others: each outcome is read back to its inputs, and each kind of input is
/// followed to its outcome. The precedence is strict: the text's lookup is
/// judged first, then its mark, then whether any collection styles it, then
/// that collection's lookup. This holds of the face, the size and the colour
/// alike, each of which is `resolved_in` with its own choice of `value`.
pub proof fn lemma_outcomes<T, D, V>(
    fonts: spec_fn(Entity) -> Lookup<D>,
    text: Entity,
    reactive_font: Lookup<TextItem<T>>,
    default_font: Option<DefaultFont>,
    value: spec_fn(T, D) -> V,
)
    ensures
        match resolved_in(fonts, text, reactive_font, default_font, value) {
            Err(FontError::CannotFindFont { text: about }) => {
                &&& about == text
                &&& reactive_font matches Lookup::Found(item)
                &&& item.reactive_font is Some
                &&& item.using_font is None
                &&& default_font is None
            },
            Err(FontError::InvalidReactiveFont(about, err)) => {
                &&& about == text
                &&& reactive_font == Lookup::<TextItem<T>>::Mismatch(err)
            },
            Err(FontError::InvalidFont(about, err)) => {
                &&& about == text
                &&& styled_by(reactive_font, default_font) matches Some(font)
                &&& fonts(font) == Lookup::<D>::Mismatch(err)
            },
            Ok(None) => {
                ||| reactive_font is Missing
                ||| (reactive_font matches Lookup::Found(item) && item.reactive_font is None)
                ||| (styled_by(reactive_font, default_font) matches Some(font) && fonts(font)
                    is Missing)
            },
            Ok(Some(resolved)) => {
                &&& styled_by(reactive_font, default_font) matches Some(font)
                &&& fonts(font) matches Lookup::Found(found)
                &&& resolved == value(reactive_font->Found_0.own, found)
            },
        },
        reactive_font is Missing ==> resolved_in(fonts, text, reactive_font, default_font, value)
            == Ok::<Option<V>, FontError>(None),
        reactive_font matches Lookup::Mismatch(err) ==> resolved_in(
            fonts,
            text,
            reactive_font,
            default_font,
            value,
        ) == Err::<Option<V>, FontError>(FontError::InvalidReactiveFont(text, err)),
        reactive_font matches Lookup::Found(item) ==> (item.reactive_font is None ==> resolved_in(
            fonts,
            text,
            reactive_font,
            default_font,
            value,
        ) == Ok::<Option<V>, FontError>(None)),
        reactive_font matches Lookup::Found(item) ==> (item.reactive_font is Some
            && item.using_font is None && default_font is None ==> resolved_in(
            fonts,
            text,
            reactive_font,
            default_font,
            value,
        ) == Err::<Option<V>, FontError>(FontError::CannotFindFont { text })),
        styled_by(reactive_font, default_font) matches Some(font) ==> resolved_in(
            fonts,
            text,
            reactive_font,
            default_font,
            value,
        ) == (match fonts(font) {
            Lookup::Missing => Ok::<Option<V>, FontError>(None),
            Lookup::Mismatch(err) => Err::<Option<V>, FontError>(
                FontError::InvalidFont(text, err),
            ),
            Lookup::Found(found) => Ok::<Option<V>, FontError>(
                Some(value(reactive_font->Found_0.own, found)),
            ),
        }),
{
}

/// A marked text that is alive, names no collection and finds no default
/// collection set gets `CannotFindFont` with its own name for its face, its
/// size and its colour alike, whatever tags and values of its own it has and
/// whatever the stores hold.
pub proof fn lemma_no_font_to_find<H>(
    text: Entity,
    tags: FontTags,
    font_size: Option<FontSize>,
    font_color: Option<FontColor>,
    faces: spec_fn(Entity) -> Lookup<FontFaces<H>>,
    sizes: spec_fn(Entity) -> Lookup<DefaultFontSize>,
    colors: spec_fn(Entity) -> Lookup<DefaultFontColor>,
)
    ensures
        font_in(faces, text, marked(tags, None), None) == Err::<Option<H>, FontError>(
            FontError::CannotFindFont { text },
        ),
        font_size_in(sizes, text, marked(font_size, None), None) == Err::<Option<u32>, FontError>(
            FontError::CannotFindFont { text },
        ),
        font_color_in(colors, text, marked(font_color, None), None) == Err::<
            Option<Color>,
            FontError,
        >(FontError::CannotFindFont { text }),
{
}

/// A text's own size is what its size resolves to, whatever the default size
/// of its collection is: wherever a size is resolved for a text with a size of
/// its own, it is that one.
pub proof fn lemma_own_size_wins(
    sizes: spec_fn(Entity) -> Lookup<DefaultFontSize>,
    text: Entity,
    font_size: FontSize,
    using_font: Option<UsingFont>,
    default_font: Option<DefaultFont>,
)
    ensures
        forall|default_font_size: DefaultFontSize|
            #[trigger] resolved_font_size(text, Some(font_size), Lookup::Found(default_font_size))
                == Ok::<Option<u32>, FontError>(Some(font_size.0)),
        font_size_in(sizes, text, marked(Some(font_size), using_font), default_font) matches Ok(
            Some(size),
        ) ==> size == font_size.0,
        effective_font(using_font, default_font) matches Some(font) && sizes(font) is Found
            ==> font_size_in(sizes, text, marked(Some(font_size), using_font), default_font)
            == Ok::<Option<u32>, FontError>(Some(font_size.0)),
{
}

/// A text's own colour is what its colour resolves to, whatever the default
/// colour of its collection is.
pub proof fn lemma_own_color_wins(
    colors: spec_fn(Entity) -> Lookup<DefaultFontColor>,
    text: Entity,
    font_color: FontColor,
    using_font: Option<UsingFont>,
    default_font: Option<DefaultFont>,
)
    ensures
        forall|default_font_color: DefaultFontColor|
            #[trigger] resolved_font_color(
                text,
                Some(font_color),
                Lookup::Found(default_font_color),
            ) == Ok::<Option<Color>, FontError>(Some(font_color.0)),
        font_color_in(colors, text, marked(Some(font_color), using_font), default_font) matches Ok(
            Some(color),
        ) ==> color == font_color.0,
        effective_font(using_font, default_font) matches Some(font) && colors(font) is Found
            ==> font_color_in(colors, text, marked(Some(font_color), using_font), default_font)
            == Ok::<Option<Color>, FontError>(Some(font_color.0)),
{
}

/// A text without a size of its own gets the default size of the collection
/// that styles it: the one it names, else the default collection.
pub proof fn lemma_default_size_applies(
    sizes: spec_fn(Entity) -> Lookup<DefaultFontSize>,
    text: Entity,
    using_font: Option<UsingFont>,
    default_font: Option<DefaultFont>,
    font: Entity,
    default_font_size: DefaultFontSize,
)
    requires
        effective_font(using_font, default_font) == Some(font),
        sizes(font) == Lookup::Found(default_font_size),
    ensures
        font_size_in(sizes, text, marked(None, using_font), default_font) == Ok::<
            Option<u32>,
            FontError,
        >(Some(default_font_size.0)),
        using_font matches Some(named) ==> font == named.0,
        using_font is None ==> (default_font matches Some(fallback) && font == fallback.0),
{
}

/// A text without a colour of its own gets the default colour of the
/// collection that styles it: the one it names, else the default collection.
pub proof fn lemma_default_color_applies(
    colors: spec_fn(Entity) -> Lookup<DefaultFontColor>,
    text: Entity,
    using_font: Option<UsingFont>,
    default_font: Option<DefaultFont>,
    font: Entity,
    default_font_color: DefaultFontColor,
)
    requires
        effective_font(using_font, default_font) == Some(font),
        colors(font) == Lookup::Found(default_font_color),
    ensures
        font_color_in(colors, text, marked(None, using_font), default_font) == Ok::<
            Option<Color>,
            FontError,
        >(Some(default_font_color.0)),
        using_font matches Some(named) ==> font == named.0,
        using_font is None ==> (default_font matches Some(fallback) && font == fallback.0),
{
}

/// The face depends on the two tags alone, and for each of their four
/// combinations it is the matching face of the collection that styles the
/// text, as that collection holds it now.
pub proof fn lemma_face_follows_tags<H>(
    faces: spec_fn(Entity) -> Lookup<FontFaces<H>>,
    text: Entity,
    using_font: Option<UsingFont>,
    default_font: Option<DefaultFont>,
    font: Entity,
    fonts: FontFaces<H>,
)
    requires
        effective_font(using_font, default_font) == Some(font),
        faces(font) == Lookup::Found(fonts),
    ensures
        forall|tags: FontTags|
            #[trigger] selected_face(tags, fonts) == (match (tags.bold is Some, tags.italic is Some) {
                (false, false) => fonts.0.0,
                (false, true) => fonts.1.0,
                (true, false) => fonts.2.0,
                (true, true) => fonts.3.0,
            }),
        forall|tags: FontTags|
            #[trigger] font_in(faces, text, marked(tags, using_font), default_font) == Ok::<
                Option<H>,
                FontError,
            >(Some(selected_face(tags, fonts))),
{
}

/// A text without the mark is left alone: nothing is resolved for it and
/// nothing is reported of it, whatever it names and whatever the store holds.
pub proof fn lemma_unmarked_text_is_left_alone<T, D, V>(
    fonts: spec_fn(Entity) -> Lookup<D>,
    text: Entity,
    own: T,
    using_font: Option<UsingFont>,
    default_font: Option<DefaultFont>,
    value: spec_fn(T, D) -> V,
    before: V,
)
    ensures
        ({
            let unmarked = Lookup::Found(TextItem { reactive_font: None, own, using_font });
            let outcome = resolved_in(fonts, text, unmarked, default_font, value);
            &&& outcome == Ok::<Option<V>, FontError>(None)
            &&& written(before, outcome) == before
        }),
{
}

/// A text that is gone is passed over in silence, whatever else holds; so is
/// a text whose collection is gone. Neither is an error and neither writes.
pub proof fn lemma_gone_is_no_error<T, D, V>(
    fonts: spec_fn(Entity) -> Lookup<D>,
    text: Entity,
    reactive_font: Lookup<TextItem<T>>,
    default_font: Option<DefaultFont>,
    value: spec_fn(T, D) -> V,
    before: V,
)
    requires
        reactive_font is Missing || (styled_by(reactive_font, default_font) matches Some(font)
            && fonts(font) is Missing),
    ensures
        resolved_in(fonts, text, reactive_font, default_font, value) == Ok::<Option<V>, FontError>(
            None,
        ),
        written(before, resolved_in(fonts, text, reactive_font, default_font, value)) == before,
{
}

/// What could not be resolved is left as it was: an error writes nothing.
pub proof fn lemma_an_error_writes_nothing<V>(before: V, outcome: Result<Option<V>, FontError>)
    ensures
        outcome is Err ==> written(before, outcome) == before,
{
}

/// A resolution reads nothing that it writes. So where nothing it reads has
/// changed, a second resolution comes to what the first came to, and the
/// face, the size and the colour that a text is rendered with are after the
/// second what they were after the first.
pub proof fn lemma_resolving_again_changes_nothing<H>(
    faces: spec_fn(Entity) -> Lookup<FontFaces<H>>,
    sizes: spec_fn(Entity) -> Lookup<DefaultFontSize>,
    colors: spec_fn(Entity) -> Lookup<DefaultFontColor>,
    text: Entity,
    tagged: Lookup<TextItem<FontTags>>,
    sized: Lookup<TextItem<Option<FontSize>>>,
    colored: Lookup<TextItem<Option<FontColor>>>,
    default_font: Option<DefaultFont>,
    before: (H, u32, Color),
)
    ensures
        ({
            let face = font_in(faces, text, tagged, default_font);
            let size = font_size_in(sizes, text, sized, default_font);
            let color = font_color_in(colors, text, colored, default_font);
            let once = (
                written(before.0, face),
                written(before.1, size),
                written(before.2, color),
            );
            let twice = (written(once.0, face), written(once.1, size), written(once.2, color));
            twice == once
        }),
{
}

/// A resolution reads one collection: the one that styles the text. Two
/// stores that answer alike for that collection give the same outcome,
/// whatever else they hold; and for a text that no collection styles, any two
/// stores do.
pub proof fn lemma_only_its_collection_matters<T, D, V>(
    fonts: spec_fn(Entity) -> Lookup<D>,
    other: spec_fn(Entity) -> Lookup<D>,
    text: Entity,
    reactive_font: Lookup<TextItem<T>>,
    default_font: Option<DefaultFont>,
    value: spec_fn(T, D) -> V,
)
    requires
        styled_by(reactive_font, default_font) matches Some(font) ==> fonts(font) == other(font),
    ensures
        resolved_in(fonts, text, reactive_font, default_font, value) == resolved_in(
            other,
            text,
            reactive_font,
            default_font,
            value,
        ),
{
}

/// The users of some collections are the texts that one of the collections
/// lists.
pub proof fn lemma_users_of(font_handles: Seq<(Entity, UsedBy)>)
    ensures
        forall|text: Entity|
            #![trigger users_of(font_handles).contains(text)]
            users_of(font_handles).contains(text) <==> exists|collection: int|
                0 <= collection < font_handles.len() && (
                #[trigger] font_handles[collection]).1@.contains(text),
    decreases font_handles.len(),
{
    if font_handles.len() > 0 {
        let rest = font_handles.drop_last();
        let last = font_handles.last();
        lemma_users_of(rest);
        let users = users_of(font_handles);
        assert forall|text: Entity| users.contains(text) implies exists|collection: int|
            0 <= collection < font_handles.len() && (#[trigger] font_handles[collection]).1@.contains(
                text,
            ) by {
            let at = choose|at: int| 0 <= at < users.len() && users[at] == text;
            if at < users_of(rest).len() {
                assert(users_of(rest)[at] == text);
                assert(users_of(rest).contains(text));
                let collection = choose|collection: int|
                    0 <= collection < rest.len() && (#[trigger] rest[collection]).1@.contains(text);
                assert(font_handles[collection] == rest[collection]);
            } else {
                assert(last.1@[at - users_of(rest).len()] == text);
                assert(font_handles[font_handles.len() - 1].1@.contains(text));
            }
        }
        assert forall|text: Entity|
            (exists|collection: int|
                0 <= collection < font_handles.len() && (
                #[trigger] font_handles[collection]).1@.contains(text)) implies users.contains(
            text,
        ) by {
            let collection = choose|collection: int|
                0 <= collection < font_handles.len() && (
                #[trigger] font_handles[collection]).1@.contains(text);
            if collection < rest.len() {
                assert(rest[collection] == font_handles[collection]);
                assert(users_of(rest).contains(text));
                let at = choose|at: int|
                    0 <= at < users_of(rest).len() && users_of(rest)[at] == text;
                assert(users[at] == text);
            } else {
                let at = choose|at: int| 0 <= at < last.1@.len() && last.1@[at] == text;
                assert(users[users_of(rest).len() + at] == text);
            }
        }
    }
}

/// Both audiences of a change in font collections are told: every user of a
/// collection that changed, and, where the default collection is among them,
/// every text that names no collection. Nobody else is.
pub proof fn lemma_audience(
    default_font: Option<DefaultFont>,
    fonts: Seq<Entity>,
    font_handles: Seq<(Entity, UsedBy)>,
)
    ensures
        forall|text: Entity|
            #![trigger texts_to_update(default_font, fonts, font_handles).contains(text)]
            texts_to_update(default_font, fonts, font_handles).contains(text) <==> ((
            holds_default_font(font_handles, default_font) && fonts.contains(text)) || exists|
                collection: int,
            |
                0 <= collection < font_handles.len() && (
                #[trigger] font_handles[collection]).1@.contains(text)),
{
    lemma_users_of(font_handles);
    let told = texts_to_update(default_font, fonts, font_handles);
    let users = users_of(font_handles);
    assert forall|text: Entity| told.contains(text) implies (holds_default_font(
        font_handles,
        default_font,
    ) && fonts.contains(text)) || users.contains(text) by {
        let at = choose|at: int| 0 <= at < told.len() && told[at] == text;
        if holds_default_font(font_handles, default_font) {
            if at < fonts.len() {
                assert(fonts[at] == text);
            } else {
                assert(users[at - fonts.len()] == text);
            }
        } else {
            assert(users[at] == text);
        }
    }
    assert forall|text: Entity|
        (holds_default_font(font_handles, default_font) && fonts.contains(text)) || users.contains(
            text,
        ) implies told.contains(text) by {
        if users.contains(text) {
            let at = choose|at: int| 0 <= at < users.len() && users[at] == text;
            if holds_default_font(font_handles, default_font) {
                assert(told[fonts.len() + at] == text);
            } else {
                assert(told[at] == text);
            }
        } else {
            let at = choose|at: int| 0 <= at < fonts.len() && fonts[at] == text;
            assert(told[at] == text);
        }
    }
}

/// Nobody whom a change in font collections concerns is forgotten. Let the
/// collections `font_handles` have changed, let `fonts` hold every marked
/// text that names no collection, and let each collection that changed list
/// every text that names it. Then every text that one of those collections
/// styles is told, be it by name or as the default collection.
///
/// With `lemma_only_its_collection_matters` this is why telling these texts
/// is enough: for a text that is not told, the collection that styles it has
/// not changed, so what the text is rendered with is still what a resolution
/// would come to.
pub proof fn lemma_nobody_is_forgotten<T>(
    default_font: Option<DefaultFont>,
    fonts: Seq<Entity>,
    font_handles: Seq<(Entity, UsedBy)>,
    text: Entity,
    reactive_font: Lookup<TextItem<T>>,
)
    requires
        styled_by(reactive_font, default_font) matches Some(font) && holds_font(font_handles, font),
        styled_by(reactive_font, default_font) is Some && reactive_font->Found_0.using_font
            is None ==> fonts.contains(text),
        forall|collection: int|
            0 <= collection < font_handles.len() && reactive_font->Found_0.using_font == Some(
                UsingFont((#[trigger] font_handles[collection]).0),
            ) ==> font_handles[collection].1@.contains(text),
    ensures
        texts_to_update(default_font, fonts, font_handles).contains(text),
{
    lemma_audience(default_font, fonts, font_handles);
    let font = styled_by(reactive_font, default_font)->0;
    let item = reactive_font->Found_0;
    match item.using_font {
        Some(named) => {
            let collection = choose|collection: int|
                0 <= collection < font_handles.len() && (#[trigger] font_handles[collection]).0
                    == font;
            assert(item.using_font == Some(UsingFont(font_handles[collection].0)));
            assert(font_handles[collection].1@.contains(text));
            assert(exists|collection: int|
                0 <= collection < font_handles.len() && (
                #[trigger] font_handles[collection]).1@.contains(text));
        },
        None => {
            assert(holds_default_font(font_handles, default_font));
        },
    }
    assert(texts_to_update(default_font, fonts, font_handles).contains(text));
}

/// Who is not told of a change in font collections is not concerned by it.
/// Let the store have changed from `before` to `after` in the collections
/// `font_handles` and nowhere else, let `fonts` hold every marked text that
/// names no collection, and let each collection that changed list every text
/// that names it. Then a text that is not told resolves after the change to
/// what it resolved to before: what it is rendered with needs no second look.
pub proof fn lemma_who_is_not_told_is_not_concerned<T, D, V>(
    before: spec_fn(Entity) -> Lookup<D>,
    after: spec_fn(Entity) -> Lookup<D>,
    default_font: Option<DefaultFont>,
    fonts: Seq<Entity>,
    font_handles: Seq<(Entity, UsedBy)>,
    text: Entity,
    reactive_font: Lookup<TextItem<T>>,
    value: spec_fn(T, D) -> V,
)
    requires
        forall|font: Entity| !holds_font(font_handles, font) ==> before(font) == after(font),
        styled_by(reactive_font, default_font) is Some && reactive_font->Found_0.using_font
            is None ==> fonts.contains(text),
        forall|collection: int|
            0 <= collection < font_handles.len() && reactive_font->Found_0.using_font == Some(
                UsingFont((#[trigger] font_handles[collection]).0),
            ) ==> font_handles[collection].1@.contains(text),
        !texts_to_update(default_font, fonts, font_handles).contains(text),
    ensures
        resolved_in(after, text, reactive_font, default_font, value) == resolved_in(
            before,
            text,
            reactive_font,
            default_font,
            value,
        ),
{
    if let Some(font) = styled_by(reactive_font, default_font) {
        if holds_font(font_handles, font) {
            lemma_nobody_is_forgotten(default_font, fonts, font_handles, text, reactive_font);
        }
    }
    lemma_only_its_collection_matters(before, after, text, reactive_font, default_font, value);
}

/// Which collection is the default one concerns the marked texts that name
/// no collection, and nobody else: a text that names one, a text without the
/// mark and a text that was not found each resolve to the same under any
/// default collection.
pub proof fn lemma_default_concerns_texts_without_reference<T, D, V>(
    fonts: spec_fn(Entity) -> Lookup<D>,
    text: Entity,
    reactive_font: Lookup<TextItem<T>>,
    before: Option<DefaultFont>,
    after: Option<DefaultFont>,
    value: spec_fn(T, D) -> V,
)
    requires
        !(reactive_font matches Lookup::Found(item) && item.reactive_font is Some
            && item.using_font is None),
    ensures
        resolved_in(fonts, text, reactive_font, after, value) == resolved_in(
            fonts,
            text,
            reactive_font,
            before,
            value,
        ),
{
}

} // verus!
