//! A linter for templates in brackets: the engine under its syntax tree, and
//! the decisions of a lint run.
//!
//! The engine gives every node of the tree an identity and keeps the source
//! span of the node apart from its payload:
//! - [`ident`] issues the identities, in increasing order;
//! - [`location`] holds byte ranges and spans;
//! - [`span_map`] maps identities to spans, and stages the spans of one
//!   worker for a commit in one step;
//! - [`node`] and [`nodes`] pair a payload with its identity, as owner, as
//!   read view and as mutable view, and hold runs of sibling nodes;
//! - [`tree`] holds the payloads of the nodes of a template;
//! - [`kind`], [`visitor`] and [`visitor_mut`] traverse the tree.
//!
//! The state of the engine is held in values that the caller owns: an
//! [`ident::AstCounter`] and a [`span_map::SpanMap`]. A program that parses
//! on several threads keeps one of each, behind a lock.
//!
//! The decisions of a run stand in [`cli`], [`settings`], [`resolver`],
//! [`workspace`], [`member`], [`logging`] and [`diagnostics`].

pub mod cli;
pub mod diagnostics;
pub mod ident;
pub mod kind;
pub mod location;
pub mod logging;
pub mod member;
pub mod node;
pub mod nodes;
pub mod resolver;
pub mod settings;
pub mod span_map;
pub mod tree;
pub mod visitor;
pub mod visitor_mut;
pub mod workspace;
