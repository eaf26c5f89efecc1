//! The tagged union over every declaration kind a scope can hold, with one
//! render dispatch that says exactly what each variant emits.

use vstd::prelude::*;

use crate::constant::Const;
use crate::constant::const_out;
use crate::formatter::lines_out;
use crate::function::Function;
use crate::function::function_out;
use crate::impls::Impl;
use crate::impls::impl_out;
use crate::kinds::Enum;
use crate::kinds::Struct;
use crate::kinds::Trait;
use crate::kinds::TypeAlias;
use crate::kinds::enum_out;
use crate::kinds::struct_out;
use crate::kinds::trait_out;
use crate::kinds::type_alias_out;
use crate::module::Module;
use crate::module::module_out;
use crate::text::split_lines;

verus! {

/// One declaration held by a scope.
#[derive(Debug)]
pub enum Item {
    /// A nested module; the only recursive kind.
    Module(Module),
    /// A struct declaration.
    Struct(Struct),
    /// A function declaration.
    Function(Function),
    /// A trait declaration.
    Trait(Trait),
    /// An enum declaration.
    Enum(Enum),
    /// An impl block.
    Impl(Impl),
    /// Verbatim text, emitted line by line.
    Raw(String),
    /// A type alias declaration.
    TypeAlias(TypeAlias),
    /// A constant declaration.
    Const(Const),
}

/// The text a raw item renders to: its lines, each at the current depth; an
/// empty raw item still takes its own (blank) line.
pub open spec fn raw_out(v: Seq<char>, level: nat) -> Seq<char> {
    if v.len() == 0 {
        seq!['\n']
    } else {
        lines_out(split_lines(v), level)
    }
}

/// The text one item renders to at the given depth.
pub open spec fn item_out(it: Item, level: nat) -> Seq<char>
    decreases it,
{
    match it {
        Item::Module(m) => module_out(m, level),
        Item::Struct(s) => struct_out(s, level),
        Item::Function(f) => function_out(f, level),
        Item::Trait(t) => trait_out(t, level),
        Item::Enum(e) => enum_out(e, level),
        Item::Impl(im) => impl_out(im, level),
        Item::Raw(v) => raw_out(v@, level),
        Item::TypeAlias(a) => type_alias_out(a, level),
        Item::Const(c) => const_out(c, level),
    }
}

/// The item is a module named `name`.
pub open spec fn is_module_named(it: Item, name: Seq<char>) -> bool {
    it matches Item::Module(m) && m.name@ == name
}

/// Some item is a module named `name`.
pub open spec fn has_module(items: Seq<Item>, name: Seq<char>) -> bool {
    exists|i: int| 0 <= i < items.len() && is_module_named(items[i], name)
}

/// The position of the first module named `name`; the length when there is
/// none.
pub open spec fn first_module_index(items: Seq<Item>, name: Seq<char>) -> int
    decreases items.len(),
{
    if items.len() == 0 {
        0
    } else if is_module_named(items[0], name) {
        0
    } else {
        1 + first_module_index(items.drop_first(), name)
    }
}

/// A match at `i` with none before it pins the first module index to `i`.
pub proof fn lemma_first_module_index_at(items: Seq<Item>, name: Seq<char>, i: int)
    requires
        0 <= i < items.len(),
        is_module_named(items[i], name),
        forall|j: int| 0 <= j < i ==> !is_module_named(items[j], name),
    ensures
        has_module(items, name),
        first_module_index(items, name) == i,
    decreases i,
{
    if i > 0 {
        lemma_first_module_index_at(items.drop_first(), name, i - 1);
    }
}

} // verus!
