//! Front end of a small statically-typed experimental language.
//!
//! Source text in either of two concrete syntaxes becomes a surface tree —
//! the infix/block family ([`flow`], with [`sitter`] as a second producer of
//! the same style) or the prefix/list family ([`sexpr`]) — and the lowering
//! step ([`lower`]) unifies both into one canonical syntax-agnostic semantic
//! tree ([`sem`]). The structural type system (records, unions, functions,
//! width-parameterized naturals) is a graph of shared, mutable, possibly
//! self-referential aggregates ([`typ`]). Natural literals in all four
//! textual bases share one exact decoding ([`natlit`]); [`ast`] holds the
//! combined front end's own tree family.
//!
//! The grammar productions themselves are an external collaborator's
//! concern: a parsing generator hands over a surface-tree root or a
//! positioned syntax error, and everything from that root on — narrowing,
//! lowering, the type graph — is specified and verified here.

pub mod ast;
pub mod flow;
pub mod lower;
pub mod natlit;
pub mod sem;
pub mod sexpr;
pub mod sitter;
pub mod typ;
