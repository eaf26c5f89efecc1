//! A builder for syntactically valid source text of a block-structured,
//! C-family-like language: callers grow a tree of declarations (modules,
//! structs, enums, traits, impl blocks, constants, type aliases, raw text)
//! through a fluent API and render it to indented text.
//!
//! The rendering core — the [`Formatter`], the [`Scope`] item composition
//! model and the import consolidation algorithm — carries full functional
//! contracts: the text a render produces is stated exactly, as a function of
//! the tree that was built.

pub mod constant;
pub mod docs;
pub mod formatter;
pub mod function;
pub mod import;
pub mod impls;
pub mod item;
pub mod kinds;
pub mod laws;
pub mod module;
pub mod scope;
pub mod text;
pub mod types;

pub use constant::Const;
pub use docs::Docs;
pub use formatter::Formatter;
pub use formatter::RenderError;
pub use function::Function;
pub use import::Import;
pub use impls::Bound;
pub use impls::Field;
pub use impls::Impl;
pub use item::Item;
pub use kinds::Enum;
pub use kinds::Struct;
pub use kinds::Trait;
pub use kinds::TypeAlias;
pub use module::Module;
pub use scope::Scope;
pub use types::Type;
