//! The inert declaration kinds: struct, trait, enum and type alias. Each is
//! plain data with a one-shot render method and no branching of its own.

use vstd::prelude::*;

use crate::formatter::Formatter;
use crate::formatter::RenderError;
use crate::formatter::block_close_at;
use crate::formatter::block_open_at;
use crate::formatter::line_at;
use crate::types::Type;
use crate::types::type_text;

verus! {

use vstd::string::StringExecFns;

/// A struct declaration.
#[derive(Debug, Clone)]
pub struct Struct {
    /// The struct's name.
    pub name: String,
}

/// The text a struct declaration renders to.
pub open spec fn struct_out(s: Struct, level: nat) -> Seq<char> {
    line_at(level, "struct "@ + s.name@ + ";"@)
}

impl Struct {
    /// A struct declaration with the given name.
    pub fn new(name: &str) -> (s: Struct)
        ensures
            s.name@ == name@,
    {
        Struct { name: String::from_str(name) }
    }

    /// Renders the declaration at the formatter's current depth.
    pub fn fmt(&self, fmt: &mut Formatter) -> (r: Result<(), RenderError>)
        ensures
            r is Ok,
            final(fmt).text() == old(fmt).text() + struct_out(*self, old(fmt).depth()),
            final(fmt).depth() == old(fmt).depth(),
    {
        let mut line = String::new();
        line.append("struct ");
        line.append(self.name.as_str());
        line.append(";");
        fmt.write_line(line.as_str());
        Ok(())
    }
}

/// A trait declaration.
#[derive(Debug, Clone)]
pub struct Trait {
    /// The trait's name.
    pub name: String,
}

/// The text a trait declaration renders to.
pub open spec fn trait_out(t: Trait, level: nat) -> Seq<char> {
    block_open_at(level, "trait "@ + t.name@) + block_close_at(level)
}

impl Trait {
    /// A trait declaration with the given name.
    pub fn new(name: &str) -> (t: Trait)
        ensures
            t.name@ == name@,
    {
        Trait { name: String::from_str(name) }
    }

    /// Renders the declaration at the formatter's current depth.
    pub fn fmt(&self, fmt: &mut Formatter) -> (r: Result<(), RenderError>)
        ensures
            r is Ok,
            final(fmt).text() == old(fmt).text() + trait_out(*self, old(fmt).depth()),
            final(fmt).depth() == old(fmt).depth(),
    {
        let mut header = String::new();
        header.append("trait ");
        header.append(self.name.as_str());
        fmt.open_block(header.as_str());
        fmt.close_block();
        proof {
            assert(fmt.text() =~= old(fmt).text() + trait_out(*self, old(fmt).depth()));
        }
        Ok(())
    }
}

/// An enum declaration.
#[derive(Debug, Clone)]
pub struct Enum {
    /// The enum's name.
    pub name: String,
}

/// The text an enum declaration renders to.
pub open spec fn enum_out(e: Enum, level: nat) -> Seq<char> {
    block_open_at(level, "enum "@ + e.name@) + block_close_at(level)
}

impl Enum {
    /// An enum declaration with the given name.
    pub fn new(name: &str) -> (e: Enum)
        ensures
            e.name@ == name@,
    {
        Enum { name: String::from_str(name) }
    }

    /// Renders the declaration at the formatter's current depth.
    pub fn fmt(&self, fmt: &mut Formatter) -> (r: Result<(), RenderError>)
        ensures
            r is Ok,
            final(fmt).text() == old(fmt).text() + enum_out(*self, old(fmt).depth()),
            final(fmt).depth() == old(fmt).depth(),
    {
        let mut header = String::new();
        header.append("enum ");
        header.append(self.name.as_str());
        fmt.open_block(header.as_str());
        fmt.close_block();
        proof {
            assert(fmt.text() =~= old(fmt).text() + enum_out(*self, old(fmt).depth()));
        }
        Ok(())
    }
}

/// A type alias declaration.
#[derive(Debug, Clone)]
pub struct TypeAlias {
    /// The alias's name.
    pub name: String,
    /// The aliased type.
    pub ty: Type,
}

/// The text a type alias renders to.
pub open spec fn type_alias_out(a: TypeAlias, level: nat) -> Seq<char> {
    line_at(level, "type "@ + a.name@ + " = "@ + type_text(a.ty) + ";"@)
}

impl TypeAlias {
    /// A type alias with the given name and target type.
    pub fn new(name: &str, target: &str) -> (a: TypeAlias)
        ensures
            a.name@ == name@,
            a.ty.name@ == target@,
            a.ty.generics@.len() == 0,
    {
        TypeAlias { name: String::from_str(name), ty: Type::new(target) }
    }

    /// Renders the declaration at the formatter's current depth.
    pub fn fmt(&self, fmt: &mut Formatter) -> (r: Result<(), RenderError>)
        ensures
            r is Ok,
            final(fmt).text() == old(fmt).text() + type_alias_out(*self, old(fmt).depth()),
            final(fmt).depth() == old(fmt).depth(),
    {
        let mut line = String::new();
        line.append("type ");
        line.append(self.name.as_str());
        line.append(" = ");
        let ty = self.ty.to_text();
        line.append(ty.as_str());
        line.append(";");
        fmt.write_line(line.as_str());
        Ok(())
    }
}

} // verus!
