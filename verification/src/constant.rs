//! A constant declaration: documentation, visibility, name, type and value,
//! rendered on one line.

use vstd::prelude::*;

use crate::docs::Docs;
use crate::docs::opt_docs_out;
use crate::formatter::Formatter;
use crate::formatter::RenderError;
use crate::formatter::line_at;
use crate::types::Type;
use crate::types::type_text;

verus! {

use vstd::string::StringExecFns;

/// A constant declaration.
#[derive(Debug, Clone)]
pub struct Const {
    /// Documentation rendered above the declaration.
    pub docs: Option<Docs>,
    /// The visibility token; empty for a private constant.
    pub vis: String,
    /// The constant's name.
    pub name: String,
    /// The constant's type.
    pub ty: Type,
    /// The constant's value, verbatim.
    pub value: String,
}

/// The declaration line of a constant.
pub open spec fn const_line(c: Const) -> Seq<char> {
    let vis_part = if c.vis@.len() == 0 {
        Seq::<char>::empty()
    } else {
        c.vis@ + " "@
    };
    vis_part + "const "@ + c.name@ + ": "@ + type_text(c.ty) + " = "@ + c.value@ + ";"@
}

/// The text a constant declaration renders to: its documentation, then its
/// declaration line.
pub open spec fn const_out(c: Const, level: nat) -> Seq<char> {
    opt_docs_out(c.docs, level) + line_at(level, const_line(c))
}

impl Const {
    /// A constant of the given type; name and value start empty.
    pub fn new(ty: &str) -> (c: Const)
        ensures
            c.docs is None,
            c.vis@ == Seq::<char>::empty(),
            c.name@ == Seq::<char>::empty(),
            c.ty.name@ == ty@,
            c.ty.generics@.len() == 0,
            c.value@ == Seq::<char>::empty(),
    {
        Const {
            docs: None,
            vis: String::new(),
            name: String::new(),
            ty: Type::new(ty),
            value: String::new(),
        }
    }

    /// Sets the constant's documentation.
    pub fn doc(&mut self, docs: Docs) -> (r: &mut Const)
        ensures
            *r == (Const { docs: Some(docs), ..*old(self) }),
            *final(self) == *final(r),
    {
        self.docs = Some(docs);
        self
    }

    /// Sets the constant's visibility.
    pub fn vis(&mut self, vis: &str) -> (r: &mut Const)
        ensures
            (*r).vis@ == vis@,
            *r == (Const { vis: (*r).vis, ..*old(self) }),
            *final(self) == *final(r),
    {
        self.vis = String::from_str(vis);
        self
    }

    /// Sets the constant's type, replacing any generic arguments.
    pub fn ty(&mut self, ty: &str) -> (r: &mut Const)
        ensures
            (*r).ty.name@ == ty@,
            (*r).ty.generics@.len() == 0,
            *r == (Const { ty: (*r).ty, ..*old(self) }),
            *final(self) == *final(r),
    {
        self.ty = Type::new(ty);
        self
    }

    /// Sets the constant's name.
    pub fn name(&mut self, name: &str) -> (r: &mut Const)
        ensures
            (*r).name@ == name@,
            *r == (Const { name: (*r).name, ..*old(self) }),
            *final(self) == *final(r),
    {
        self.name = String::from_str(name);
        self
    }

    /// Sets the constant's value.
    pub fn value(&mut self, value: &str) -> (r: &mut Const)
        ensures
            (*r).value@ == value@,
            *r == (Const { value: (*r).value, ..*old(self) }),
            *final(self) == *final(r),
    {
        self.value = String::from_str(value);
        self
    }

    /// Renders the declaration at the formatter's current depth.
    pub fn fmt(&self, fmt: &mut Formatter) -> (r: Result<(), RenderError>)
        ensures
            r is Ok,
            final(fmt).text() == old(fmt).text() + const_out(*self, old(fmt).depth()),
            final(fmt).depth() == old(fmt).depth(),
    {
        match &self.docs {
            Some(docs) => {
                let _ = docs.fmt(fmt);
            },
            None => {},
        }
        let mut line = String::new();
        if !self.vis.as_str().is_empty() {
            line.append(self.vis.as_str());
            line.append(" ");
        }
        line.append("const ");
        line.append(self.name.as_str());
        line.append(": ");
        let ty = self.ty.to_text();
        line.append(ty.as_str());
        line.append(" = ");
        line.append(self.value.as_str());
        line.append(";");
        proof {
            assert(line@ =~= const_line(*self));
        }
        fmt.write_line(line.as_str());
        proof {
            assert(fmt.text() =~= old(fmt).text() + const_out(*self, old(fmt).depth()));
        }
        Ok(())
    }
}

} // verus!
