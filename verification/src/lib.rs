//! Composition engine for content-addressed archive packs.
//!
//! A tree of files is flattened breadth first into an index-addressed
//! sequence of entries ([`flatten`], [`fs_adder`]). Each entry is projected
//! into the record tables of the output schemas ([`fs_entry`],
//! [`arx_creator`], [`jim_creator`], [`create`]), which end up in a
//! directory pack ([`store`]). The bytes of files go to a content store that
//! the caller provides. Where the finished packs go on disk is decided by
//! the concatenation mode ([`layout`]).
//!
//! The library reads no file and writes none: the caller walks the
//! filesystem, stores the contents and writes the packs, step by step as the
//! library asks.

pub mod arx_creator;
pub mod create;
pub mod deferred;
pub mod flatten;
pub mod fs_adder;
pub mod fs_entry;
pub mod jim_creator;
pub mod layout;
pub mod mime;
pub mod paths;
pub mod store;
