//! Declarative metadata attributes for configuration schemas: unrelated
//! to the size estimator, but part of this library's public surface.

use vstd::prelude::*;

verus! {

/// A custom attribute on a container, variant, or field of a
/// configuration schema.
///
/// Two forms are supported: a standalone flag, and a key/value pair.
/// Attributes are added to the relevant schema definition as a custom
/// object field; a flag's name becomes the property name with the value
/// `true`, while a key/value pair is added as-is.
#[derive(Clone, Debug)]
pub enum CustomAttribute {
    /// A standalone flag.
    ///
    /// Common for marking items as supporting a particular feature,
    /// such as fields that accept the event template syntax.
    Flag(String),
    /// A key/value pair.
    ///
    /// Used for most metadata, where a given key could have many
    /// possible values, such as the status of a component.
    KeyValue {
        /// The metadata key.
        key: String,
        /// The metadata value.
        value: String,
    },
}

} // verus!
