//! The override directive attached to an entity descriptor.

use vstd::prelude::*;

verus! {

/// What an override directive answers when a node is about to be rendered.
#[derive(Debug, Clone, Copy, PartialEq, Eq, Hash)]
pub enum SqlOverride {
    /// Emit nothing for the node.
    Skip,
    /// Emit exactly this text in place of the node's own rendering.
    Replace(&'static str),
    /// No override: render the node by the rule of its kind.
    UseDefault,
}

/// The override directive of one descriptor: rendering can be switched off,
/// or replaced by text that the author supplied.
#[derive(Debug, Clone, Copy, PartialEq, Eq, Hash)]
pub struct ToSqlConfigEntity {
    pub enabled: bool,
    pub content: Option<&'static str>,
}

impl ToSqlConfigEntity {
    /// The answer of this directive. Switching rendering off wins over
    /// replacement text.
    pub open spec fn directive(self) -> SqlOverride {
        if !self.enabled {
            SqlOverride::Skip
        } else {
            match self.content {
                Some(text) => SqlOverride::Replace(text),
                None => SqlOverride::UseDefault,
            }
        }
    }

    /// Evaluates the directive.
    pub fn resolve(&self) -> (answer: SqlOverride)
        ensures
            answer == self.directive(),
    {
        if !self.enabled {
            SqlOverride::Skip
        } else {
            match self.content {
                Some(text) => SqlOverride::Replace(text),
                None => SqlOverride::UseDefault,
            }
        }
    }

    /// Whether the directive takes rendering away from the rule of the
    /// entity's kind.
    pub fn overrides_default(&self) -> (overridden: bool)
        ensures
            overridden == !(self.directive() is UseDefault),
    {
        !self.enabled || self.content.is_some()
    }

    /// The text that the directive dictates, if it dictates any: the empty
    /// text when rendering is switched off, the replacement text when one
    /// was supplied, and `None` when the entity renders by its own rule.
    pub fn to_sql(&self) -> (dictated: Option<String>)
        ensures
            match self.directive() {
                SqlOverride::Skip => dictated matches Some(s) && s@ == Seq::<char>::empty(),
                SqlOverride::Replace(text) => dictated matches Some(s) && s@ == text@,
                SqlOverride::UseDefault => dictated is None,
            },
    {
        match self.resolve() {
            SqlOverride::Skip => Some(String::new()),
            SqlOverride::Replace(text) => Some(String::from_str(text)),
            SqlOverride::UseDefault => None,
        }
    }
}

impl Default for ToSqlConfigEntity {
    fn default() -> (config: Self)
        ensures
            config == (ToSqlConfigEntity { enabled: true, content: None }),
            config.directive() is UseDefault,
    {
        ToSqlConfigEntity { enabled: true, content: None }
    }
}

} // verus!
