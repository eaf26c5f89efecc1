//! A type reference: a name plus generic arguments, rendered inline as
//! `Name<A, B>`.

use vstd::prelude::*;

use crate::text::join;
use crate::text::join_with;

verus! {

use vstd::string::StringExecFns;

/// A type reference appearing in a declaration.
#[derive(Debug, Clone)]
pub struct Type {
    /// The type's name, possibly a full path.
    pub name: String,
    /// Generic arguments, in order.
    pub generics: Vec<String>,
}

/// The inline text a type reference renders to.
pub open spec fn type_text(t: Type) -> Seq<char> {
    if t.generics@.len() == 0 {
        t.name@
    } else {
        t.name@ + "<"@ + join(t.generics.deep_view(), ", "@) + ">"@
    }
}

impl Type {
    /// A type reference with the given name and no generic arguments.
    pub fn new(name: &str) -> (t: Type)
        ensures
            t.name@ == name@,
            t.generics@.len() == 0,
    {
        Type { name: String::from_str(name), generics: Vec::new() }
    }

    /// Adds a generic argument to the type.
    pub fn generic(&mut self, ty: &str) -> (r: &mut Type)
        ensures
            (*r).name == old(self).name,
            (*r).generics.deep_view() == old(self).generics.deep_view().push(ty@),
            *final(self) == *final(r),
    {
        self.generics.push(String::from_str(ty));
        proof {
            assert(self.generics.deep_view() =~= old(self).generics.deep_view().push(ty@));
        }
        self
    }

    /// The inline text of the type: its name, then its generic arguments in
    /// angle brackets when there are any.
    pub fn to_text(&self) -> (r: String)
        ensures
            r@ == type_text(*self),
    {
        let mut out = String::new();
        out.append(self.name.as_str());
        if self.generics.len() > 0 {
            out.append("<");
            let joined = join_with(&self.generics, ", ");
            out.append(joined.as_str());
            out.append(">");
            proof {
                assert(out@ =~= type_text(*self));
            }
        } else {
            proof {
                assert(out@ =~= self.name@);
            }
        }
        out
    }
}

} // verus!
