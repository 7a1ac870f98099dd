//! The configuration payload handed to a plugin's `init`.
//!
//! The value is an opaque, JSON-like datum whose shape is defined by the
//! plugin alone; the host never validates or interprets it. An empty
//! (`Null`) value is a valid default and is what the host passes when it
//! loads a plugin.

use vstd::prelude::*;

verus! {

/// A JSON-like configuration value: null, boolean, number, text, a
/// sequence of values, or a mapping from field names to values.
pub enum ConfigValue {
    Null,
    Bool(bool),
    Int(i64),
    Text(String),
    Items(Vec<ConfigValue>),
    Fields(Vec<(String, ConfigValue)>),
}

} // verus!
