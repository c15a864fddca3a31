//! Elements output descriptors and the interpreter's classification of a
//! spend from its transaction data, with the byte-level script templates,
//! the covenant construction and the descriptor checksum they rest on.
//!
//! The calls into bitcoin, elements and miniscript are gathered in
//! `primitives`; everything else is verified.

pub mod bare;
pub mod bytes;
pub mod checksum;
pub mod covenant;
pub mod descriptor;
pub mod interpreter;
pub mod key;
pub mod laws;
pub mod node;
pub mod pretaproot;
pub mod primitives;
pub mod script;
pub mod segwitv0;
pub mod sh;
pub mod stack;
pub mod text;
