//! A named, visibility-qualified module wrapping its own scope; the only
//! recursive declaration kind.

use vstd::prelude::*;

use crate::docs::Docs;
use crate::docs::opt_docs_out;
use crate::formatter::Formatter;
use crate::formatter::RenderError;
use crate::formatter::block_close_at;
use crate::formatter::block_open_at;
use crate::formatter::line_at;
use crate::function::Function;
use crate::impls::Impl;
use crate::import::stored_vis;
use crate::import::table_set;
use crate::item::Item;
use crate::item::has_module;
use crate::item::first_module_index;
use crate::kinds::Enum;
use crate::kinds::Struct;
use crate::kinds::Trait;
use crate::scope::Scope;
use crate::scope::is_blank_module;
use crate::scope::scope_out;
use crate::text::first_segment;
use crate::text::opt_view;

verus! {

use vstd::string::StringExecFns;

/// A module declaration: a name, an optional visibility, optional
/// documentation, attribute lines, and the scope of its contents.
#[derive(Debug)]
pub struct Module {
    /// The module's name.
    pub name: String,
    /// The module's visibility, when one is set.
    pub vis: Option<String>,
    /// The module's documentation.
    pub docs: Option<Docs>,
    /// The module's contents.
    pub scope: Scope,
    /// Attribute lines, e.g. `allow(unused_imports)`, rendered as `#[...]`.
    pub attributes: Vec<String>,
}

/// The header line of a module, before the opening brace.
pub open spec fn module_header(m: Module) -> Seq<char> {
    let vis_part = match opt_view(&m.vis) {
        Some(v) => v + " "@,
        None => Seq::<char>::empty(),
    };
    vis_part + "mod "@ + m.name@
}

/// The attribute lines of a module, in order.
pub open spec fn attrs_out(attrs: Seq<Seq<char>>, level: nat) -> Seq<char>
    decreases attrs.len(),
{
    if attrs.len() == 0 {
        Seq::empty()
    } else {
        line_at(level, "#["@ + attrs[0] + "] "@) + attrs_out(attrs.drop_first(), level)
    }
}

/// The text a module renders to: documentation, attributes, the header line
/// with its opening brace, the contents one level deeper, and the closing
/// brace back at the module's own depth.
pub open spec fn module_out(m: Module, level: nat) -> Seq<char>
    decreases m,
{
    opt_docs_out(m.docs, level) + attrs_out(m.attributes.deep_view(), level) + block_open_at(
        level,
        module_header(m),
    ) + scope_out(m.scope, level + 1) + block_close_at(level)
}

impl Module {
    /// A new, blank module with the given name.
    pub fn new(name: &str) -> (m: Module)
        ensures
            is_blank_module(m, name@),
    {
        Module {
            name: String::from_str(name),
            vis: None,
            docs: None,
            scope: Scope::new(),
            attributes: Vec::new(),
        }
    }

    /// Sets the module documentation.
    pub fn doc(&mut self, docs: &str) -> (r: &mut Module)
        ensures
            (*r).docs matches Some(d) && d.docs@ == docs@,
            *r == (Module { docs: (*r).docs, ..*old(self) }),
            *final(self) == *final(r),
    {
        self.docs = Some(Docs::new(docs));
        self
    }

    /// Hands the module's scope out for further shaping.
    pub fn scope(&mut self) -> (r: &mut Scope)
        ensures
            *r == old(self).scope,
            *final(self) == (Module { scope: *final(r), ..*old(self) }),
    {
        &mut self.scope
    }

    /// Sets the module visibility.
    pub fn vis(&mut self, vis: &str) -> (r: &mut Module)
        ensures
            opt_view(&(*r).vis) == Some(vis@),
            *r == (Module { vis: (*r).vis, ..*old(self) }),
            *final(self) == *final(r),
    {
        self.vis = Some(String::from_str(vis));
        self
    }

    /// Imports a type into the module's scope: a `use` statement at the top
    /// of the module. Only the leading path segment of `ty` is recorded.
    pub fn import(&mut self, path: &str, ty: &str) -> (r: &mut Module)
        ensures
            (*r).scope.table() == table_set(
                old(self).scope.table(),
                path@,
                first_segment(ty@),
                stored_vis(old(self).scope.table(), path@, first_segment(ty@)),
            ),
            (*r).scope.spec_items() == old(self).scope.spec_items(),
            (*r).scope.docs_view() == old(self).scope.docs_view(),
            (*r).name == old(self).name,
            (*r).vis == old(self).vis,
            (*r).docs == old(self).docs,
            (*r).attributes == old(self).attributes,
            *final(self) == *final(r),
    {
        let _ = self.scope.import(path, ty);
        self
    }

    /// Adds an attribute line to the module.
    pub fn attr(&mut self, attribute: &str) -> (r: &mut Module)
        ensures
            (*r).attributes.deep_view() == old(self).attributes.deep_view().push(attribute@),
            *r == (Module { attributes: (*r).attributes, ..*old(self) }),
            *final(self) == *final(r),
    {
        self.attributes.push(String::from_str(attribute));
        proof {
            assert(self.attributes.deep_view() =~= old(self).attributes.deep_view().push(
                attribute@,
            ));
        }
        self
    }

    /// Appends a new blank module to the contents and hands it back.
    ///
    /// The caller must not reuse the name of a module already in the
    /// contents; `get_or_new_module` returns the existing one instead.
    pub fn new_module(&mut self, name: &str) -> (r: &mut Module)
        requires
            !has_module(old(self).scope.spec_items(), name@),
        ensures
            is_blank_module(*r, name@),
            final(self).scope.spec_items() == old(self).scope.spec_items().push(
                Item::Module(*final(r)),
            ),
            final(self).scope.table() == old(self).scope.table(),
            final(self).scope.docs_view() == old(self).scope.docs_view(),
            *final(self) == (Module { scope: final(self).scope, ..*old(self) }),
    {
        self.scope.new_module(name)
    }

    /// The first module of the contents with the given name, when one
    /// exists.
    pub fn get_module(&self, name: &str) -> (r: Option<&Module>)
        ensures
            r is Some <==> has_module(self.scope.spec_items(), name@),
            r matches Some(m) ==> self.scope.spec_items()[first_module_index(
                self.scope.spec_items(),
                name@,
            )] == Item::Module(*m),
    {
        self.scope.get_module(name)
    }

    /// The first module of the contents with the given name, for further
    /// shaping, when one exists.
    pub fn get_module_mut(&mut self, name: &str) -> (r: Option<&mut Module>)
        ensures
            r is Some <==> has_module(old(self).scope.spec_items(), name@),
            r matches Some(m) ==> {
                &&& old(self).scope.spec_items()[first_module_index(
                    old(self).scope.spec_items(),
                    name@,
                )] == Item::Module(*m)
                &&& final(self).scope.spec_items() == old(self).scope.spec_items().update(
                    first_module_index(old(self).scope.spec_items(), name@),
                    Item::Module(*final(m)),
                )
                &&& final(self).scope.table() == old(self).scope.table()
                &&& final(self).scope.docs_view() == old(self).scope.docs_view()
                &&& *final(self) == (Module { scope: final(self).scope, ..*old(self) })
            },
            r is None ==> *final(self) == *old(self),
    {
        self.scope.get_module_mut(name)
    }

    /// The first module of the contents with the given name, created blank
    /// when none exists.
    pub fn get_or_new_module(&mut self, name: &str) -> (r: &mut Module)
        ensures
            has_module(old(self).scope.spec_items(), name@) ==> {
                &&& old(self).scope.spec_items()[first_module_index(
                    old(self).scope.spec_items(),
                    name@,
                )] == Item::Module(*r)
                &&& final(self).scope.spec_items() == old(self).scope.spec_items().update(
                    first_module_index(old(self).scope.spec_items(), name@),
                    Item::Module(*final(r)),
                )
            },
            !has_module(old(self).scope.spec_items(), name@) ==> {
                &&& is_blank_module(*r, name@)
                &&& final(self).scope.spec_items() == old(self).scope.spec_items().push(
                    Item::Module(*final(r)),
                )
            },
            final(self).scope.table() == old(self).scope.table(),
            final(self).scope.docs_view() == old(self).scope.docs_view(),
            *final(self) == (Module { scope: final(self).scope, ..*old(self) }),
    {
        self.scope.get_or_new_module(name)
    }

    /// Appends a module to the contents.
    ///
    /// The caller must not reuse the name of a module already in the
    /// contents; `get_or_new_module` avoids the clash.
    pub fn push_module(&mut self, item: Module) -> (r: &mut Module)
        requires
            !has_module(old(self).scope.spec_items(), item.name@),
        ensures
            (*r).scope.spec_items() == old(self).scope.spec_items().push(Item::Module(item)),
            (*r).scope.table() == old(self).scope.table(),
            (*r).scope.docs_view() == old(self).scope.docs_view(),
            *r == (Module { scope: (*r).scope, ..*old(self) }),
            *final(self) == *final(r),
    {
        let _ = self.scope.push_module(item);
        self
    }

    /// Appends a new struct declaration to the contents and hands it back.
    pub fn new_struct(&mut self, name: &str) -> (r: &mut Struct)
        ensures
            (*r).name@ == name@,
            final(self).scope.spec_items() == old(self).scope.spec_items().push(
                Item::Struct(*final(r)),
            ),
            final(self).scope.table() == old(self).scope.table(),
            final(self).scope.docs_view() == old(self).scope.docs_view(),
            *final(self) == (Module { scope: final(self).scope, ..*old(self) }),
    {
        self.scope.new_struct(name)
    }

    /// Appends a struct declaration to the contents.
    pub fn push_struct(&mut self, item: Struct) -> (r: &mut Module)
        ensures
            (*r).scope.spec_items() == old(self).scope.spec_items().push(Item::Struct(item)),
            (*r).scope.table() == old(self).scope.table(),
            (*r).scope.docs_view() == old(self).scope.docs_view(),
            *r == (Module { scope: (*r).scope, ..*old(self) }),
            *final(self) == *final(r),
    {
        let _ = self.scope.push_struct(item);
        self
    }

    /// Appends a new function declaration to the contents and hands it back.
    pub fn new_fn(&mut self, name: &str) -> (r: &mut Function)
        ensures
            (*r).name@ == name@,
            (*r).body.deep_view() == Seq::<Seq<char>>::empty(),
            final(self).scope.spec_items() == old(self).scope.spec_items().push(
                Item::Function(*final(r)),
            ),
            final(self).scope.table() == old(self).scope.table(),
            final(self).scope.docs_view() == old(self).scope.docs_view(),
            *final(self) == (Module { scope: final(self).scope, ..*old(self) }),
    {
        self.scope.new_fn(name)
    }

    /// Appends a function declaration to the contents.
    pub fn push_fn(&mut self, item: Function) -> (r: &mut Module)
        ensures
            (*r).scope.spec_items() == old(self).scope.spec_items().push(Item::Function(item)),
            (*r).scope.table() == old(self).scope.table(),
            (*r).scope.docs_view() == old(self).scope.docs_view(),
            *r == (Module { scope: (*r).scope, ..*old(self) }),
            *final(self) == *final(r),
    {
        let _ = self.scope.push_fn(item);
        self
    }

    /// Appends a new enum declaration to the contents and hands it back.
    pub fn new_enum(&mut self, name: &str) -> (r: &mut Enum)
        ensures
            (*r).name@ == name@,
            final(self).scope.spec_items() == old(self).scope.spec_items().push(
                Item::Enum(*final(r)),
            ),
            final(self).scope.table() == old(self).scope.table(),
            final(self).scope.docs_view() == old(self).scope.docs_view(),
            *final(self) == (Module { scope: final(self).scope, ..*old(self) }),
    {
        self.scope.new_enum(name)
    }

    /// Appends an enum declaration to the contents.
    pub fn push_enum(&mut self, item: Enum) -> (r: &mut Module)
        ensures
            (*r).scope.spec_items() == old(self).scope.spec_items().push(Item::Enum(item)),
            (*r).scope.table() == old(self).scope.table(),
            (*r).scope.docs_view() == old(self).scope.docs_view(),
            *r == (Module { scope: (*r).scope, ..*old(self) }),
            *final(self) == *final(r),
    {
        let _ = self.scope.push_enum(item);
        self
    }

    /// Appends a new impl block to the contents and hands it back.
    pub fn new_impl(&mut self, target: &str) -> (r: &mut Impl)
        ensures
            (*r).target.name@ == target@,
            final(self).scope.spec_items() == old(self).scope.spec_items().push(
                Item::Impl(*final(r)),
            ),
            final(self).scope.table() == old(self).scope.table(),
            final(self).scope.docs_view() == old(self).scope.docs_view(),
            *final(self) == (Module { scope: final(self).scope, ..*old(self) }),
    {
        self.scope.new_impl(target)
    }

    /// Appends an impl block to the contents.
    pub fn push_impl(&mut self, item: Impl) -> (r: &mut Module)
        ensures
            (*r).scope.spec_items() == old(self).scope.spec_items().push(Item::Impl(item)),
            (*r).scope.table() == old(self).scope.table(),
            (*r).scope.docs_view() == old(self).scope.docs_view(),
            *r == (Module { scope: (*r).scope, ..*old(self) }),
            *final(self) == *final(r),
    {
        let _ = self.scope.push_impl(item);
        self
    }

    /// Appends a new trait declaration to the contents and hands it back.
    pub fn new_trait(&mut self, name: &str) -> (r: &mut Trait)
        ensures
            (*r).name@ == name@,
            final(self).scope.spec_items() == old(self).scope.spec_items().push(
                Item::Trait(*final(r)),
            ),
            final(self).scope.table() == old(self).scope.table(),
            final(self).scope.docs_view() == old(self).scope.docs_view(),
            *final(self) == (Module { scope: final(self).scope, ..*old(self) }),
    {
        self.scope.new_trait(name)
    }

    /// Appends a trait declaration to the contents.
    pub fn push_trait(&mut self, item: Trait) -> (r: &mut Module)
        ensures
            (*r).scope.spec_items() == old(self).scope.spec_items().push(Item::Trait(item)),
            (*r).scope.table() == old(self).scope.table(),
            (*r).scope.docs_view() == old(self).scope.docs_view(),
            *r == (Module { scope: (*r).scope, ..*old(self) }),
            *final(self) == *final(r),
    {
        let _ = self.scope.push_trait(item);
        self
    }

    /// Renders the module at the formatter's current depth: documentation,
    /// attribute lines, the header with its opening brace, the contents one
    /// level deeper, then the closing brace.
    #[verifier::rlimit(60)]
    pub fn fmt(&self, fmt: &mut Formatter) -> (r: Result<(), RenderError>)
        ensures
            r is Ok,
            final(fmt).text() == old(fmt).text() + module_out(*self, old(fmt).depth()),
            final(fmt).depth() == old(fmt).depth(),
        decreases *self,
    {
        let ghost level = fmt.depth();
        match &self.docs {
            Some(d) => {
                let _ = d.fmt(fmt);
            },
            None => {},
        }
        let ghost all = self.attributes.deep_view();
        let ghost base = fmt.text();
        let mut i: usize = 0;
        proof {
            assert(all.subrange(0, all.len() as int) =~= all);
        }
        while i < self.attributes.len()
            invariant
                i <= self.attributes.len(),
                all == self.attributes.deep_view(),
                all.len() == self.attributes.len(),
                fmt.depth() == level,
                fmt.text() + attrs_out(all.subrange(i as int, all.len() as int), level) == base
                    + attrs_out(all, level),
            decreases self.attributes.len() - i,
        {
            let ghost rest = all.subrange(i as int, all.len() as int);
            let ghost prev = fmt.text();
            let mut line = String::new();
            line.append("#[");
            line.append(self.attributes[i].as_str());
            line.append("] ");
            fmt.write_line(line.as_str());
            proof {
                assert(rest[0] == all[i as int]);
                assert(rest.drop_first() =~= all.subrange(i as int + 1, all.len() as int));
                assert(fmt.text() + attrs_out(rest.drop_first(), level) =~= prev + attrs_out(
                    rest,
                    level,
                ));
            }
            i = i + 1;
        }
        proof {
            assert(all.subrange(all.len() as int, all.len() as int).len() == 0);
            assert(fmt.text() + Seq::<char>::empty() =~= fmt.text());
        }
        let mut header = String::new();
        match &self.vis {
            Some(v) => {
                header.append(v.as_str());
                header.append(" ");
            },
            None => {},
        }
        header.append("mod ");
        header.append(self.name.as_str());
        proof {
            assert(header@ =~= module_header(*self));
        }
        fmt.open_block(header.as_str());
        let _ = self.scope.fmt(fmt);
        fmt.close_block();
        proof {
            assert(fmt.text() =~= old(fmt).text() + module_out(*self, old(fmt).depth()));
        }
        Ok(())
    }
}

} // verus!
