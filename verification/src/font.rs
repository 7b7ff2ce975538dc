use crate::color::Color;
use crate::entity::Entity;
use crate::persistent_relationship_source::NeverEmptyVec;
use vstd::prelude::*;
use vstd::std_specs::convert::FromSpecImpl;

verus! {

/// Marks a text that is to be set in italics.
#[derive(Clone, Copy, Debug, PartialEq, Eq, Structural)]
pub struct Italic;

/// Marks a text that is to be set in bold.
#[derive(Clone, Copy, Debug, PartialEq, Eq, Structural)]
pub struct Bold;

/// The style tags of a text, each there or not.
#[derive(Clone, Copy, Debug, PartialEq, Eq, Structural)]
pub struct FontTags {
    pub italic: Option<Italic>,
    pub bold: Option<Bold>,
}

/// How large a text is to be, whatever its collection's default size.
///
/// The size is held as the bit pattern of a single-precision number, the form
/// in which the renderer takes it. No size is refused, and none is computed
/// with: it is chosen and handed on, bit for bit.
#[derive(Clone, Copy, Debug, PartialEq, Eq, Structural)]
pub struct FontSize(pub u32);

/// What colour a text is to have, whatever its collection's default colour.
#[derive(Clone, Copy, Debug, PartialEq, Eq, Structural)]
pub struct FontColor(pub Color);

/// Marks a text that is styled by this crate. Text without the mark is left
/// alone.
#[derive(Clone, Copy, Debug, PartialEq, Eq, Structural)]
pub struct ReactiveFont;

/// The font collection that a text is styled by. A text without one is styled
/// by the default collection.
#[derive(Clone, Copy, Debug, PartialEq, Eq, Structural)]
pub struct UsingFont(pub Entity);

/// The font collection for texts that name none. It need not be set, but then
/// every text has to name its own.
#[derive(Clone, Copy, Debug, PartialEq, Eq, Structural)]
pub struct DefaultFont(pub Entity);

/// The regular face of a font collection, as the handle `H` of the host's
/// asset store.
#[derive(Clone, Debug, PartialEq, Eq, Default)]
pub struct RegularFont<H>(pub H);

/// The italic face of a font collection.
#[derive(Clone, Debug, PartialEq, Eq, Default)]
pub struct ItalicFont<H>(pub H);

/// The bold face of a font collection.
#[derive(Clone, Debug, PartialEq, Eq, Default)]
pub struct BoldFont<H>(pub H);

/// The bold italic face of a font collection.
#[derive(Clone, Debug, PartialEq, Eq, Default)]
pub struct BoldItalicFont<H>(pub H);

/// The size of the texts of a font collection that ask for none of their own,
/// held as a [`FontSize`] is.
#[derive(Clone, Copy, Debug, PartialEq, Eq, Structural)]
pub struct DefaultFontSize(pub u32);

/// The colour of the texts of a font collection that ask for none of their
/// own.
#[derive(Clone, Copy, Debug, PartialEq, Eq, Structural)]
pub struct DefaultFontColor(pub Color);

/// The bit pattern of the single-precision number fifteen: the size of a text
/// whose collection was given none.
pub const DEFAULT_SIZE: u32 = 0x4170_0000;

impl From<u32> for FontSize {
    fn from(value: u32) -> (size: Self) {
        Self::new(value)
    }
}

impl FromSpecImpl<u32> for FontSize {
    open spec fn obeys_from_spec() -> bool {
        true
    }

    open spec fn from_spec(value: u32) -> Self {
        FontSize(value)
    }
}

impl Default for FontSize {
    fn default() -> (size: Self)
        ensures
            size == FontSize(DEFAULT_SIZE),
    {
        Self::new(DEFAULT_SIZE)
    }
}

impl FontSize {
    /// The size with the bit pattern `value`.
    pub fn new(value: u32) -> (size: Self)
        ensures
            size == FontSize(value),
    {
        Self(value)
    }

    /// The size's bit pattern.
    pub fn into_inner(&self) -> (value: u32)
        ensures
            value == self.0,
    {
        self.0
    }
}

impl From<Color> for FontColor {
    fn from(value: Color) -> (color: Self) {
        Self::new(value)
    }
}

impl FromSpecImpl<Color> for FontColor {
    open spec fn obeys_from_spec() -> bool {
        true
    }

    open spec fn from_spec(value: Color) -> Self {
        FontColor(value)
    }
}

impl Default for FontColor {
    fn default() -> (color: Self)
        ensures
            color == FontColor(Color::spec_black()),
    {
        Self(Color::black())
    }
}

impl FontColor {
    /// The colour `value` as a text's own.
    pub fn new(value: Color) -> (color: Self)
        ensures
            color == FontColor(value),
    {
        Self(value)
    }

    /// The colour.
    pub fn into_inner(&self) -> (value: Color)
        ensures
            value == self.0,
    {
        self.0
    }
}

impl UsingFont {
    /// The collection that the text is styled by.
    pub fn get(&self) -> (font: Entity)
        ensures
            font == self.0,
    {
        self.0
    }
}

impl DefaultFont {
    /// Makes `value` the collection for texts that name none.
    pub fn new(value: Entity) -> (font: Self)
        ensures
            font == DefaultFont(value),
    {
        Self(value)
    }

    /// The collection for texts that name none.
    pub fn into_inner(&self) -> (value: Entity)
        ensures
            value == self.0,
    {
        self.0
    }
}

/// All the texts that name one font collection, in the order in which they
/// came to name it.
#[derive(Clone, Debug, PartialEq, Eq)]
pub struct UsedBy(NeverEmptyVec<Entity>);

impl View for UsedBy {
    type V = Seq<Entity>;

    closed spec fn view(&self) -> Seq<Entity> {
        self.0@
    }
}

impl Default for UsedBy {
    fn default() -> (used_by: Self)
        ensures
            used_by@ == Seq::<Entity>::empty(),
    {
        Self(NeverEmptyVec::new())
    }
}

impl UsedBy {
    /// The texts of `collection` as the users of a font collection.
    pub fn new(collection: NeverEmptyVec<Entity>) -> (used_by: Self)
        ensures
            used_by@ == collection@,
    {
        Self(collection)
    }

    /// The texts, as the collection that holds them.
    pub fn collection(&self) -> (collection: &NeverEmptyVec<Entity>)
        ensures
            collection@ == self@,
    {
        &self.0
    }

    /// A copy of the texts, in their order.
    pub fn iter(&self) -> (texts: Vec<Entity>)
        ensures
            texts@ == self@,
    {
        self.0.iter()
    }

    /// How many texts there are.
    pub fn len(&self) -> (len: usize)
        ensures
            len == self@.len(),
    {
        self.0.len()
    }

    /// Always `false`, as of the collection that holds the texts: a font
    /// collection keeps its list of users when the last one has left.
    pub fn is_empty(&self) -> (empty: bool)
        ensures
            !empty,
    {
        self.0.is_empty()
    }
}

impl<H> From<H> for RegularFont<H> {
    fn from(value: H) -> (font: Self) {
        Self::new(value)
    }
}

impl<H> FromSpecImpl<H> for RegularFont<H> {
    open spec fn obeys_from_spec() -> bool {
        true
    }

    open spec fn from_spec(value: H) -> Self {
        RegularFont(value)
    }
}

impl<H> RegularFont<H> {
    /// The regular face with the handle `value`.
    pub fn new(value: H) -> (font: Self)
        ensures
            font == RegularFont(value),
    {
        Self(value)
    }

    /// The face's handle.
    pub fn into_inner(&self) -> (value: &H)
        ensures
            *value == self.0,
    {
        &self.0
    }
}

impl<H> From<H> for ItalicFont<H> {
    fn from(value: H) -> (font: Self) {
        Self::new(value)
    }
}

impl<H> FromSpecImpl<H> for ItalicFont<H> {
    open spec fn obeys_from_spec() -> bool {
        true
    }

    open spec fn from_spec(value: H) -> Self {
        ItalicFont(value)
    }
}

impl<H> ItalicFont<H> {
    /// The italic face with the handle `value`.
    pub fn new(value: H) -> (font: Self)
        ensures
            font == ItalicFont(value),
    {
        Self(value)
    }

    /// The face's handle.
    pub fn into_inner(&self) -> (value: &H)
        ensures
            *value == self.0,
    {
        &self.0
    }
}

impl<H> From<H> for BoldFont<H> {
    fn from(value: H) -> (font: Self) {
        Self::new(value)
    }
}

impl<H> FromSpecImpl<H> for BoldFont<H> {
    open spec fn obeys_from_spec() -> bool {
        true
    }

    open spec fn from_spec(value: H) -> Self {
        BoldFont(value)
    }
}

impl<H> BoldFont<H> {
    /// The bold face with the handle `value`.
    pub fn new(value: H) -> (font: Self)
        ensures
            font == BoldFont(value),
    {
        Self(value)
    }

    /// The face's handle.
    pub fn into_inner(&self) -> (value: &H)
        ensures
            *value == self.0,
    {
        &self.0
    }
}

impl<H> From<H> for BoldItalicFont<H> {
    fn from(value: H) -> (font: Self) {
        Self::new(value)
    }
}

impl<H> FromSpecImpl<H> for BoldItalicFont<H> {
    open spec fn obeys_from_spec() -> bool {
        true
    }

    open spec fn from_spec(value: H) -> Self {
        BoldItalicFont(value)
    }
}

impl<H> BoldItalicFont<H> {
    /// The bold italic face with the handle `value`.
    pub fn new(value: H) -> (font: Self)
        ensures
            font == BoldItalicFont(value),
    {
        Self(value)
    }

    /// The face's handle.
    pub fn into_inner(&self) -> (value: &H)
        ensures
            *value == self.0,
    {
        &self.0
    }
}

impl From<u32> for DefaultFontSize {
    fn from(value: u32) -> (size: Self) {
        Self::new(value)
    }
}

impl FromSpecImpl<u32> for DefaultFontSize {
    open spec fn obeys_from_spec() -> bool {
        true
    }

    open spec fn from_spec(value: u32) -> Self {
        DefaultFontSize(value)
    }
}

impl Default for DefaultFontSize {
    fn default() -> (size: Self)
        ensures
            size == DefaultFontSize(DEFAULT_SIZE),
    {
        Self(DEFAULT_SIZE)
    }
}

impl DefaultFontSize {
    /// The default size with the bit pattern `value`.
    pub fn new(value: u32) -> (size: Self)
        ensures
            size == DefaultFontSize(value),
    {
        Self(value)
    }

    /// The size's bit pattern.
    pub fn into_inner(&self) -> (value: u32)
        ensures
            value == self.0,
    {
        self.0
    }
}

impl Default for DefaultFontColor {
    fn default() -> (color: Self)
        ensures
            color == DefaultFontColor(Color::spec_black()),
    {
        Self(Color::black())
    }
}

impl DefaultFontColor {
    /// The colour `value` as a collection's default.
    pub fn new(value: Color) -> (color: Self)
        ensures
            color == DefaultFontColor(value),
    {
        Self(value)
    }

    /// The colour.
    pub fn into_inner(&self) -> (value: Color)
        ensures
            value == self.0,
    {
        self.0
    }
}

/// A font collection: four faces, the size and the colour of the texts that
/// ask for none of their own, and the texts that name the collection.
///
/// Every part is always there. A collection made by `new` has the default
/// size, the default colour and no users yet.
#[derive(Clone, Debug, PartialEq, Eq, Default)]
pub struct FontCollection<H> {
    pub regular: RegularFont<H>,
    pub italic: ItalicFont<H>,
    pub bold: BoldFont<H>,
    pub bold_italic: BoldItalicFont<H>,
    pub default_size: DefaultFontSize,
    pub default_color: DefaultFontColor,
    pub used_by: UsedBy,
}

impl<H> FontCollection<H> {
    /// A collection of the four faces given, with the default size, the
    /// default colour and no users.
    pub fn new(regular: H, italic: H, bold: H, bold_italic: H) -> (collection: Self)
        ensures
            collection.regular == RegularFont(regular),
            collection.italic == ItalicFont(italic),
            collection.bold == BoldFont(bold),
            collection.bold_italic == BoldItalicFont(bold_italic),
            collection.default_size == DefaultFontSize(DEFAULT_SIZE),
            collection.default_color == DefaultFontColor(Color::spec_black()),
            collection.used_by@ == Seq::<Entity>::empty(),
    {
        Self {
            regular: RegularFont(regular),
            italic: ItalicFont(italic),
            bold: BoldFont(bold),
            bold_italic: BoldItalicFont(bold_italic),
            default_size: DefaultFontSize::default(),
            default_color: DefaultFontColor::default(),
            used_by: UsedBy::default(),
        }
    }
}

} // verus!
