//! A markdown syntax tree ([mdast][]) and a canonical serializer for it.
//!
//! The tree is a closed set of tagged variants: parents own an ordered
//! sequence of children, literals own a string value, voids own neither.
//! Every variant carries optional positional information about the source
//! span it came from.
//!
//! [mdast]: https://github.com/syntax-tree/mdast

pub mod generate;
pub mod mdast;
pub mod unist;

pub use generate::to_markdown;
