//! An `impl` block: target type, generics, an optional trait, associated
//! constants and types, `where` bounds, macro annotation lines, and member
//! functions.

use vstd::prelude::*;

use crate::formatter::Formatter;
use crate::formatter::RenderError;
use crate::formatter::block_close_at;
use crate::formatter::block_open_at;
use crate::formatter::line_at;
use crate::formatter::lines_out;
use crate::function::Function;
use crate::function::function_out;
use crate::text::join;
use crate::text::join_with;
use crate::text::opt_view;
use crate::types::Type;
use crate::types::type_text;

verus! {

use vstd::string::StringExecFns;

/// A named member of an impl block: an associated constant or type.
#[derive(Debug, Clone)]
pub struct Field {
    /// The member's name.
    pub name: String,
    /// The member's type.
    pub ty: Type,
    /// The member's value, verbatim; empty for an associated type.
    pub value: String,
    /// The member's visibility, when one is given.
    pub visibility: Option<String>,
}

/// A `where` bound: a name constrained by one or more types.
#[derive(Debug, Clone)]
pub struct Bound {
    /// The bounded name.
    pub name: String,
    /// The constraining types, joined with `+`.
    pub bound: Vec<Type>,
}

/// An impl block.
#[derive(Debug, Clone)]
pub struct Impl {
    /// The type being implemented.
    pub target: Type,
    /// Generics of the block itself (`impl<T>`), not of the target.
    pub generics: Vec<String>,
    /// The trait being implemented, when there is one.
    pub impl_trait: Option<Type>,
    /// Associated constants.
    pub assoc_csts: Vec<Field>,
    /// Associated types.
    pub assoc_tys: Vec<Field>,
    /// `where` bounds.
    pub bounds: Vec<Bound>,
    /// Member functions.
    pub fns: Vec<Function>,
    /// Macro annotation lines written above the block, verbatim.
    pub macros: Vec<String>,
}

/// The generics list in angle brackets, or nothing when there are none.
pub open spec fn generics_text(gs: Seq<Seq<char>>) -> Seq<char> {
    if gs.len() == 0 {
        Seq::empty()
    } else {
        "<"@ + join(gs, ", "@) + ">"@
    }
}

/// The inline text of one `where` bound.
pub open spec fn bound_text(b: Bound) -> Seq<char> {
    b.name@ + ": "@ + join(Seq::new(b.bound@.len(), |i: int| type_text(b.bound@[i])), " + "@)
}

/// The `where` clause, or nothing when there are no bounds.
pub open spec fn bounds_text(bs: Seq<Bound>) -> Seq<char> {
    if bs.len() == 0 {
        Seq::empty()
    } else {
        " where "@ + join(Seq::new(bs.len(), |i: int| bound_text(bs[i])), ", "@)
    }
}

/// The header line of an impl block, before the opening brace.
pub open spec fn impl_header(im: Impl) -> Seq<char> {
    let trait_part = match im.impl_trait {
        Some(t) => " "@ + type_text(t) + " for"@,
        None => Seq::<char>::empty(),
    };
    "impl"@ + generics_text(im.generics.deep_view()) + trait_part + " "@ + type_text(im.target)
        + bounds_text(im.bounds@)
}

/// The declaration line of one associated constant.
pub open spec fn assoc_const_line(f: Field) -> Seq<char> {
    let vis_part = match opt_view(&f.visibility) {
        Some(v) => v + " "@,
        None => Seq::<char>::empty(),
    };
    vis_part + "const "@ + f.name@ + ": "@ + type_text(f.ty) + " = "@ + f.value@ + ";"@
}

/// The declaration line of one associated type.
pub open spec fn assoc_type_line(f: Field) -> Seq<char> {
    "type "@ + f.name@ + " = "@ + type_text(f.ty) + ";"@
}

/// The associated constant lines, in order.
pub open spec fn assoc_consts_out(fs: Seq<Field>, level: nat) -> Seq<char>
    decreases fs.len(),
{
    if fs.len() == 0 {
        Seq::empty()
    } else {
        line_at(level, assoc_const_line(fs[0])) + assoc_consts_out(fs.drop_first(), level)
    }
}

/// The associated type lines, in order.
pub open spec fn assoc_types_out(fs: Seq<Field>, level: nat) -> Seq<char>
    decreases fs.len(),
{
    if fs.len() == 0 {
        Seq::empty()
    } else {
        line_at(level, assoc_type_line(fs[0])) + assoc_types_out(fs.drop_first(), level)
    }
}

/// The member functions, a blank line before each except — when nothing
/// stands above them — the first.
pub open spec fn impl_fns_out(fs: Seq<Function>, level: nat, blank_first: bool) -> Seq<char>
    decreases fs.len(),
{
    if fs.len() == 0 {
        Seq::empty()
    } else {
        let sep = if blank_first {
            seq!['\n']
        } else {
            Seq::<char>::empty()
        };
        sep + function_out(fs[0], level) + impl_fns_out(fs.drop_first(), level, true)
    }
}

/// The text an impl block renders to.
pub open spec fn impl_out(im: Impl, level: nat) -> Seq<char> {
    lines_out(im.macros.deep_view(), level) + block_open_at(level, impl_header(im))
        + assoc_consts_out(im.assoc_csts@, level + 1) + assoc_types_out(im.assoc_tys@, level + 1)
        + impl_fns_out(im.fns@, level + 1, im.assoc_tys@.len() > 0) + block_close_at(level)
}

impl Impl {
    /// An impl block for the given target type, with nothing in it.
    pub fn new(target: &str) -> (im: Impl)
        ensures
            im.target.name@ == target@,
            im.target.generics@.len() == 0,
            im.generics@.len() == 0,
            im.impl_trait is None,
            im.assoc_csts@.len() == 0,
            im.assoc_tys@.len() == 0,
            im.bounds@.len() == 0,
            im.fns@.len() == 0,
            im.macros@.len() == 0,
    {
        Impl {
            target: Type::new(target),
            generics: Vec::new(),
            impl_trait: None,
            assoc_csts: Vec::new(),
            assoc_tys: Vec::new(),
            bounds: Vec::new(),
            fns: Vec::new(),
            macros: Vec::new(),
        }
    }

    /// Adds a generic to the impl block (`impl<T>`), not to the target type.
    pub fn generic(&mut self, name: &str) -> (r: &mut Impl)
        ensures
            (*r).generics.deep_view() == old(self).generics.deep_view().push(name@),
            *r == (Impl { generics: (*r).generics, ..*old(self) }),
            *final(self) == *final(r),
    {
        self.generics.push(String::from_str(name));
        proof {
            assert(self.generics.deep_view() =~= old(self).generics.deep_view().push(name@));
        }
        self
    }

    /// Adds a generic argument to the target type.
    pub fn target_generic(&mut self, ty: &str) -> (r: &mut Impl)
        ensures
            (*r).target.name == old(self).target.name,
            (*r).target.generics.deep_view() == old(self).target.generics.deep_view().push(ty@),
            *r == (Impl { target: (*r).target, ..*old(self) }),
            *final(self) == *final(r),
    {
        let _ = self.target.generic(ty);
        self
    }

    /// Sets the trait the impl block implements.
    pub fn impl_trait(&mut self, ty: &str) -> (r: &mut Impl)
        ensures
            (*r).impl_trait matches Some(t) && t.name@ == ty@ && t.generics@.len() == 0,
            *r == (Impl { impl_trait: (*r).impl_trait, ..*old(self) }),
            *final(self) == *final(r),
    {
        self.impl_trait = Some(Type::new(ty));
        self
    }

    /// Adds a macro annotation line above the block, e.g. `#[async_trait]`.
    pub fn push_macro(&mut self, line: &str) -> (r: &mut Impl)
        ensures
            (*r).macros.deep_view() == old(self).macros.deep_view().push(line@),
            *r == (Impl { macros: (*r).macros, ..*old(self) }),
            *final(self) == *final(r),
    {
        self.macros.push(String::from_str(line));
        proof {
            assert(self.macros.deep_view() =~= old(self).macros.deep_view().push(line@));
        }
        self
    }

    /// Adds an associated constant.
    pub fn associate_const(&mut self, name: &str, ty: &str, value: &str, visibility: &str) -> (r:
        &mut Impl)
        ensures
            (*r).assoc_csts@.len() == old(self).assoc_csts@.len() + 1,
            (*r).assoc_csts@ == old(self).assoc_csts@.push(
                (*r).assoc_csts@[old(self).assoc_csts@.len() as int],
            ),
            assoc_const_line((*r).assoc_csts@.last()) == visibility@ + " "@ + "const "@ + name@
                + ": "@ + ty@ + " = "@ + value@ + ";"@,
            *r == (Impl { assoc_csts: (*r).assoc_csts, ..*old(self) }),
            *final(self) == *final(r),
    {
        self.assoc_csts.push(
            Field {
                name: String::from_str(name),
                ty: Type::new(ty),
                value: String::from_str(value),
                visibility: Some(String::from_str(visibility)),
            },
        );
        self
    }

    /// Adds an associated type.
    pub fn associate_type(&mut self, name: &str, ty: &str) -> (r: &mut Impl)
        ensures
            (*r).assoc_tys@.len() == old(self).assoc_tys@.len() + 1,
            (*r).assoc_tys@ == old(self).assoc_tys@.push(
                (*r).assoc_tys@[old(self).assoc_tys@.len() as int],
            ),
            assoc_type_line((*r).assoc_tys@.last()) == "type "@ + name@ + " = "@ + ty@ + ";"@,
            *r == (Impl { assoc_tys: (*r).assoc_tys, ..*old(self) }),
            *final(self) == *final(r),
    {
        self.assoc_tys.push(
            Field {
                name: String::from_str(name),
                ty: Type::new(ty),
                value: String::new(),
                visibility: None,
            },
        );
        self
    }

    /// Adds a `where` bound.
    pub fn bound(&mut self, name: &str, ty: &str) -> (r: &mut Impl)
        ensures
            (*r).bounds@.len() == old(self).bounds@.len() + 1,
            (*r).bounds@ == old(self).bounds@.push((*r).bounds@[old(self).bounds@.len() as int]),
            bound_text((*r).bounds@.last()) == name@ + ": "@ + ty@,
            *r == (Impl { bounds: (*r).bounds, ..*old(self) }),
            *final(self) == *final(r),
    {
        let mut tys: Vec<Type> = Vec::new();
        tys.push(Type::new(ty));
        self.bounds.push(Bound { name: String::from_str(name), bound: tys });
        proof {
            let b = self.bounds@.last();
            assert(Seq::new(b.bound@.len(), |i: int| type_text(b.bound@[i])) =~= seq![ty@]);
            assert(bound_text(b) =~= name@ + ": "@ + ty@);
        }
        self
    }

    /// Appends a new function and hands it back for further shaping.
    pub fn new_fn(&mut self, name: &str) -> (r: &mut Function)
        ensures
            (*r).name@ == name@,
            (*r).body.deep_view() == Seq::<Seq<char>>::empty(),
            final(self).fns@ == old(self).fns@.push(*final(r)),
            *final(self) == (Impl { fns: final(self).fns, ..*old(self) }),
    {
        let f = Function::new(name);
        let ghost f0 = f;
        self.fns.push(f);
        let last = self.fns.len() - 1;
        let r = &mut self.fns[last];
        proof {
            assert(old(self).fns@.push(f0).update(last as int, *final(r)) =~= old(
                self,
            ).fns@.push(*final(r)));
        }
        r
    }

    /// Appends a function.
    pub fn push_fn(&mut self, item: Function) -> (r: &mut Impl)
        ensures
            (*r).fns@ == old(self).fns@.push(item),
            *r == (Impl { fns: (*r).fns, ..*old(self) }),
            *final(self) == *final(r),
    {
        self.fns.push(item);
        self
    }

    /// The inline text of one `where` bound, as a fresh string.
    fn bound_string(b: &Bound) -> (r: String)
        ensures
            r@ == bound_text(*b),
    {
        let mut tys: Vec<String> = Vec::new();
        let mut k: usize = 0;
        while k < b.bound.len()
            invariant
                k <= b.bound.len(),
                tys.deep_view() == Seq::new(k as nat, |j: int| type_text(b.bound@[j])),
            decreases b.bound.len() - k,
        {
            let ghost prev = tys.deep_view();
            let t = b.bound[k].to_text();
            tys.push(t);
            proof {
                assert(tys.deep_view() =~= prev.push(type_text(b.bound@[k as int])));
                assert(prev.push(type_text(b.bound@[k as int])) =~= Seq::new(
                    k as nat + 1,
                    |j: int| type_text(b.bound@[j]),
                ));
            }
            k = k + 1;
        }
        let mut part = String::new();
        part.append(b.name.as_str());
        part.append(": ");
        let joined = join_with(&tys, " + ");
        part.append(joined.as_str());
        proof {
            assert(tys.deep_view() =~= Seq::new(b.bound@.len(), |j: int| type_text(b.bound@[j])));
            assert(part@ =~= bound_text(*b));
        }
        part
    }

    /// The header line of the block, as a fresh string.
    fn header_string(&self) -> (r: String)
        ensures
            r@ == impl_header(*self),
    {
        let mut header = String::new();
        header.append("impl");
        if self.generics.len() > 0 {
            header.append("<");
            let joined = join_with(&self.generics, ", ");
            header.append(joined.as_str());
            header.append(">");
        }
        proof {
            assert(header@ =~= "impl"@ + generics_text(self.generics.deep_view()));
        }
        match &self.impl_trait {
            Some(t) => {
                header.append(" ");
                let tt = t.to_text();
                header.append(tt.as_str());
                header.append(" for");
            },
            None => {},
        }
        header.append(" ");
        let target = self.target.to_text();
        header.append(target.as_str());
        if self.bounds.len() > 0 {
            header.append(" where ");
            let mut parts: Vec<String> = Vec::new();
            let mut i: usize = 0;
            while i < self.bounds.len()
                invariant
                    i <= self.bounds.len(),
                    parts.deep_view() == Seq::new(i as nat, |k: int| bound_text(self.bounds@[k])),
                decreases self.bounds.len() - i,
            {
                let ghost prev = parts.deep_view();
                let part = Impl::bound_string(&self.bounds[i]);
                parts.push(part);
                proof {
                    assert(parts.deep_view() =~= prev.push(bound_text(self.bounds@[i as int])));
                    assert(prev.push(bound_text(self.bounds@[i as int])) =~= Seq::new(
                        i as nat + 1,
                        |k: int| bound_text(self.bounds@[k]),
                    ));
                }
                i = i + 1;
            }
            let joined = join_with(&parts, ", ");
            header.append(joined.as_str());
            proof {
                assert(parts.deep_view() =~= Seq::new(
                    self.bounds@.len(),
                    |k: int| bound_text(self.bounds@[k]),
                ));
                assert(header@ =~= impl_header(*self));
            }
        } else {
            proof {
                assert(header@ =~= impl_header(*self));
            }
        }
        header
    }

    /// Renders the impl block at the formatter's current depth: the macro
    /// lines, the header, then — one level deeper — the associated constants,
    /// the associated types and the member functions.
    #[verifier::rlimit(60)]
    pub fn fmt(&self, fmt: &mut Formatter) -> (r: Result<(), RenderError>)
        ensures
            r is Ok,
            final(fmt).text() == old(fmt).text() + impl_out(*self, old(fmt).depth()),
            final(fmt).depth() == old(fmt).depth(),
    {
        let ghost level = fmt.depth();
        fmt.write_lines(&self.macros);
        let header = self.header_string();
        fmt.open_block(header.as_str());

        let ghost after_open = fmt.text();
        let ghost csts = self.assoc_csts@;
        let mut i: usize = 0;
        proof {
            assert(csts.subrange(0, csts.len() as int) =~= csts);
        }
        while i < self.assoc_csts.len()
            invariant
                i <= self.assoc_csts.len(),
                csts == self.assoc_csts@,
                fmt.depth() == level + 1,
                fmt.text() + assoc_consts_out(csts.subrange(i as int, csts.len() as int), level + 1)
                    == after_open + assoc_consts_out(csts, level + 1),
            decreases self.assoc_csts.len() - i,
        {
            let ghost rest = csts.subrange(i as int, csts.len() as int);
            let ghost prev = fmt.text();
            let cst = &self.assoc_csts[i];
            let mut line = String::new();
            match &cst.visibility {
                Some(v) => {
                    line.append(v.as_str());
                    line.append(" ");
                },
                None => {},
            }
            line.append("const ");
            line.append(cst.name.as_str());
            line.append(": ");
            let tt = cst.ty.to_text();
            line.append(tt.as_str());
            line.append(" = ");
            line.append(cst.value.as_str());
            line.append(";");
            proof {
                assert(line@ =~= assoc_const_line(csts[i as int]));
            }
            fmt.write_line(line.as_str());
            proof {
                assert(rest[0] == csts[i as int]);
                assert(rest.drop_first() =~= csts.subrange(i as int + 1, csts.len() as int));
                assert(fmt.text() + assoc_consts_out(rest.drop_first(), level + 1) =~= prev
                    + assoc_consts_out(rest, level + 1));
            }
            i = i + 1;
        }
        proof {
            assert(csts.subrange(csts.len() as int, csts.len() as int).len() == 0);
            assert(fmt.text() + Seq::<char>::empty() =~= fmt.text());
        }

        let ghost after_csts = fmt.text();
        let ghost atys = self.assoc_tys@;
        let mut i: usize = 0;
        proof {
            assert(atys.subrange(0, atys.len() as int) =~= atys);
        }
        while i < self.assoc_tys.len()
            invariant
                i <= self.assoc_tys.len(),
                atys == self.assoc_tys@,
                fmt.depth() == level + 1,
                fmt.text() + assoc_types_out(atys.subrange(i as int, atys.len() as int), level + 1)
                    == after_csts + assoc_types_out(atys, level + 1),
            decreases self.assoc_tys.len() - i,
        {
            let ghost rest = atys.subrange(i as int, atys.len() as int);
            let ghost prev = fmt.text();
            let aty = &self.assoc_tys[i];
            let mut line = String::new();
            line.append("type ");
            line.append(aty.name.as_str());
            line.append(" = ");
            let tt = aty.ty.to_text();
            line.append(tt.as_str());
            line.append(";");
            proof {
                assert(line@ =~= assoc_type_line(atys[i as int]));
            }
            fmt.write_line(line.as_str());
            proof {
                assert(rest[0] == atys[i as int]);
                assert(rest.drop_first() =~= atys.subrange(i as int + 1, atys.len() as int));
                assert(fmt.text() + assoc_types_out(rest.drop_first(), level + 1) =~= prev
                    + assoc_types_out(rest, level + 1));
            }
            i = i + 1;
        }
        proof {
            assert(atys.subrange(atys.len() as int, atys.len() as int).len() == 0);
            assert(fmt.text() + Seq::<char>::empty() =~= fmt.text());
        }

        let ghost after_atys = fmt.text();
        let ghost fns = self.fns@;
        let ghost first_blank = self.assoc_tys@.len() > 0;
        let mut i: usize = 0;
        proof {
            assert(fns.subrange(0, fns.len() as int) =~= fns);
        }
        while i < self.fns.len()
            invariant
                i <= self.fns.len(),
                fns == self.fns@,
                first_blank == (self.assoc_tys@.len() > 0),
                fmt.depth() == level + 1,
                fmt.text() + impl_fns_out(
                    fns.subrange(i as int, fns.len() as int),
                    level + 1,
                    i > 0 || first_blank,
                ) == after_atys + impl_fns_out(fns, level + 1, first_blank),
            decreases self.fns.len() - i,
        {
            let ghost rest = fns.subrange(i as int, fns.len() as int);
            let ghost blank = i > 0 || first_blank;
            let ghost prev = fmt.text();
            if i != 0 || self.assoc_tys.len() > 0 {
                fmt.blank_line();
            }
            let func = &self.fns[i];
            let _ = func.fmt(fmt);
            proof {
                assert(rest[0] == fns[i as int]);
                assert(rest.drop_first() =~= fns.subrange(i as int + 1, fns.len() as int));
                assert(fmt.text() + impl_fns_out(rest.drop_first(), level + 1, true) =~= prev
                    + impl_fns_out(rest, level + 1, blank));
            }
            i = i + 1;
        }
        proof {
            assert(fns.subrange(fns.len() as int, fns.len() as int).len() == 0);
            assert(fmt.text() + Seq::<char>::empty() =~= fmt.text());
        }

        fmt.close_block();
        proof {
            assert(fmt.text() =~= old(fmt).text() + impl_out(*self, old(fmt).depth()));
        }
        Ok(())
    }
}

} // verus!
