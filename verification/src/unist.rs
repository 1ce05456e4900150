//! Source coordinates: points and spans ([unist][]).
//!
//! [unist]: https://github.com/syntax-tree/unist

use vstd::prelude::*;

verus! {

/// One place in a source file.
#[derive(Clone, Copy, Debug, Eq, PartialEq, Structural)]
pub struct Point {
    /// 1-indexed line number.
    pub line: usize,
    /// 1-indexed column number.
    pub column: usize,
    /// 0-indexed byte offset.
    pub offset: usize,
}

/// Location of a node in a source file: a half-open span
/// over `[start.offset, end.offset)`.
#[derive(Clone, Copy, Debug, Eq, PartialEq, Structural)]
pub struct Position {
    /// Place of the first character of the parsed source region.
    pub start: Point,
    /// Place of the first character after the parsed source region.
    pub end: Point,
}

} // verus!
