use crate::entity::Entity;
use vstd::prelude::*;

verus! {

/// Why the host's store could not hand out an entity that is alive.
#[derive(Clone, Copy, Debug, PartialEq, Eq, Structural)]
pub enum LookupError {
    /// The entity, in the archetype given, lacks something that was asked of
    /// it, or has something that was ruled out.
    QueryDoesNotMatch(Entity, u32),
    /// The entity was asked for mutably more than once.
    AliasedMutability(Entity),
}

/// What the host's store says of one entity that was looked up.
#[derive(Clone, Copy, Debug, PartialEq, Eq)]
pub enum Lookup<T> {
    /// The entity is alive, and this is what was asked of it.
    Found(T),
    /// The entity is not alive: it was despawned, or never spawned.
    Missing,
    /// The entity is alive but could not be handed out.
    Mismatch(LookupError),
}

/// What keeps a text from being styled. Each error names the text it is about.
#[derive(Clone, Copy, Debug, PartialEq, Eq, Structural)]
pub enum FontError {
    /// The text names no font collection and no default one is set.
    CannotFindFont { text: Entity },
    /// The collection that the text is styled by is alive but is no font
    /// collection; the failed lookup is attached.
    InvalidFont(Entity, LookupError),
    /// The text is alive but is not a text that can be styled; the failed
    /// lookup is attached.
    InvalidReactiveFont(Entity, LookupError),
}

impl FontError {
    /// The text that the error is about.
    pub open spec fn spec_text(self) -> Entity {
        match self {
            FontError::CannotFindFont { text } => text,
            FontError::InvalidFont(text, _) => text,
            FontError::InvalidReactiveFont(text, _) => text,
        }
    }

    /// The text that the error is about.
    pub fn text(&self) -> (text: Entity)
        ensures
            text == self.spec_text(),
    {
        match self {
            FontError::CannotFindFont { text } => *text,
            FontError::InvalidFont(text, _) => *text,
            FontError::InvalidReactiveFont(text, _) => *text,
        }
    }
}

} // verus!
