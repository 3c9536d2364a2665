//! The remap language.
//!
//! A remap description is a comma-separated list of layers; each layer is a
//! name, optional options in brackets, and a braced body of `key -> target`
//! maps, where a target is a key or a key function such as `TT(layer, key)`
//! or `Exit()`.  The compiler tokenizes and parses the description, checks
//! the names it uses, and lowers it to a layer composer.  Every error is
//! anchored at the character position of the token it is about.

pub mod analyze;
pub mod parse;
pub mod tokens;
