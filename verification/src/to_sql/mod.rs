//! The override directive as an author writes it on a declaration, before
//! it is attached to a descriptor.

use vstd::prelude::*;

pub mod entity;

verus! {

/// An override directive read from a declaration's attributes.
#[derive(Debug, Clone, PartialEq, Eq, Hash)]
pub struct ToSqlConfig {
    pub enabled: bool,
    pub content: Option<String>,
}

/// The value that an author gave the `sql` attribute of a declaration.
#[derive(Debug, Clone, PartialEq, Eq, Hash)]
pub enum SqlAttribute {
    /// `sql = true` or `sql = false`: rendering switched on or off.
    Flag(bool),
    /// `sql = "..."`: the text to emit in place of the default rendering.
    Text(String),
}

impl ToSqlConfig {
    /// Reads the directive off the value of the `sql` attribute: a flag
    /// switches rendering on or off and supplies no text, a text leaves
    /// rendering on and replaces what is rendered.
    pub fn from_attribute(value: SqlAttribute) -> (config: Self)
        ensures
            match value {
                SqlAttribute::Flag(enabled) => config.enabled == enabled && config.content is None,
                SqlAttribute::Text(text) => config.enabled && config.content == Some(text),
            },
    {
        match value {
            SqlAttribute::Flag(enabled) => ToSqlConfig { enabled, content: None },
            SqlAttribute::Text(text) => ToSqlConfig { enabled: true, content: Some(text) },
        }
    }

    /// Whether the directive replaces or suppresses the default rendering,
    /// and with it the default naming.
    pub open spec fn overrides(self) -> bool {
        !self.enabled || self.content is Some
    }

    /// Tells whether the directive replaces or suppresses the default
    /// rendering.
    pub fn overrides_default(&self) -> (overridden: bool)
        ensures
            overridden == self.overrides(),
    {
        !self.enabled || self.content.is_some()
    }
}

impl Default for ToSqlConfig {
    fn default() -> (config: Self)
        ensures
            config.enabled,
            config.content is None,
            !config.overrides(),
    {
        ToSqlConfig { enabled: true, content: None }
    }
}

} // verus!
