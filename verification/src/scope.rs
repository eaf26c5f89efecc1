//! A scope: documentation, an insertion-ordered import table, and an ordered
//! sequence of items, with the render entry point and the import
//! consolidation algorithm.
//!
//! Rendering is specified exactly: [`scope_out`] is the text a scope renders
//! to, and [`imports_out`] is the consolidated import block — grouped by
//! visibility, then by path, both in strict first-seen order, never sorted.

use vstd::prelude::*;

use crate::docs::Docs;
use crate::docs::opt_docs_out;
use crate::formatter::Formatter;
use crate::formatter::RenderError;
use crate::formatter::line_at;
use crate::function::Function;
use crate::impls::Impl;
use crate::import::EntryV;
use crate::import::GroupV;
use crate::import::Import;
use crate::import::ImportEntry;
use crate::import::ImportGroup;
use crate::import::entries_view;
use crate::import::lemma_entries_get_absent;
use crate::import::lemma_entries_get_at;
use crate::import::lemma_entries_set_append;
use crate::import::lemma_entries_set_at;
use crate::import::lemma_table_get_absent;
use crate::import::lemma_table_get_at;
use crate::import::lemma_table_set_append;
use crate::import::lemma_table_set_at;
use crate::import::stored_vis;
use crate::import::table_set;
use crate::import::table_view;
use crate::item::Item;
use crate::item::first_module_index;
use crate::item::has_module;
use crate::item::is_module_named;
use crate::item::item_out;
use crate::item::lemma_first_module_index_at;
use crate::kinds::Enum;
use crate::kinds::Struct;
use crate::kinds::Trait;
use crate::kinds::TypeAlias;
use crate::module::Module;
use crate::text::first_segment;
use crate::text::first_segment_of;
use crate::text::join;
use crate::text::join_with;
use crate::text::lines_of;
use crate::text::opt_str_eq;
use crate::text::opt_view;
use crate::text::str_eq;

verus! {

use vstd::pervasive::unreached;
use vstd::string::StringExecFns;

broadcast use crate::import::lemma_table_view_update, crate::import::lemma_table_view_push, crate::import::lemma_entries_view_update, crate::import::lemma_entries_view_push;

/// A scope: documentation, imports, and an ordered sequence of items.
#[derive(Debug)]
pub struct Scope {
    docs: Option<Docs>,
    imports: Vec<ImportGroup>,
    items: Vec<Item>,
}

/// The distinct visibilities over `es` appended to `acc` in first-seen
/// order.
pub open spec fn vis_fold(acc: Seq<Option<Seq<char>>>, es: Seq<EntryV>) -> Seq<Option<Seq<char>>>
    decreases es.len(),
{
    if es.len() == 0 {
        acc
    } else {
        let acc2 = if acc.contains(es[0].vis) {
            acc
        } else {
            acc.push(es[0].vis)
        };
        vis_fold(acc2, es.drop_first())
    }
}

/// `vis_fold` over every group of `t`, in order.
pub open spec fn vis_scan(acc: Seq<Option<Seq<char>>>, t: Seq<GroupV>) -> Seq<Option<Seq<char>>>
    decreases t.len(),
{
    if t.len() == 0 {
        acc
    } else {
        vis_scan(vis_fold(acc, t[0].entries), t.drop_first())
    }
}

/// The distinct visibilities of the whole table, in first-seen order.
pub open spec fn vis_list(t: Seq<GroupV>) -> Seq<Option<Seq<char>>> {
    vis_scan(Seq::empty(), t)
}

/// The type names of the entries in `es` whose visibility is `vis`, in
/// first-seen order.
pub open spec fn tys_for(es: Seq<EntryV>, vis: Option<Seq<char>>) -> Seq<Seq<char>>
    decreases es.len(),
{
    if es.len() == 0 {
        Seq::empty()
    } else {
        let head = if es[0].vis == vis {
            seq![es[0].ty]
        } else {
            Seq::<Seq<char>>::empty()
        };
        head + tys_for(es.drop_first(), vis)
    }
}

/// The body of one import statement: the visibility prefix, the path, and
/// the type name — brace-grouped when more than one name shares the path.
pub open spec fn stmt_text(vis: Option<Seq<char>>, path: Seq<char>, tys: Seq<Seq<char>>) -> Seq<
    char,
> {
    let vis_part = match vis {
        Some(v) => v + " "@,
        None => Seq::<char>::empty(),
    };
    let tys_part = if tys.len() == 1 {
        tys[0]
    } else {
        "{"@ + join(tys, ", "@) + "}"@
    };
    vis_part + "use "@ + path + "::"@ + tys_part + ";"@
}

/// The statement one group emits for one visibility: nothing when no entry
/// of the group carries it.
pub open spec fn group_out(vis: Option<Seq<char>>, g: GroupV, level: nat) -> Seq<char> {
    let tys = tys_for(g.entries, vis);
    if tys.len() == 0 {
        Seq::empty()
    } else {
        line_at(level, stmt_text(vis, g.path, tys))
    }
}

/// The statements of every group for one visibility, in path first-seen
/// order.
pub open spec fn groups_out(vis: Option<Seq<char>>, t: Seq<GroupV>, level: nat) -> Seq<char>
    decreases t.len(),
{
    if t.len() == 0 {
        Seq::empty()
    } else {
        group_out(vis, t[0], level) + groups_out(vis, t.drop_first(), level)
    }
}

/// The statements of every visibility in `vs`, in order.
pub open spec fn vises_out(vs: Seq<Option<Seq<char>>>, t: Seq<GroupV>, level: nat) -> Seq<char>
    decreases vs.len(),
{
    if vs.len() == 0 {
        Seq::empty()
    } else {
        groups_out(vs[0], t, level) + vises_out(vs.drop_first(), t, level)
    }
}

/// The consolidated import block: grouped by visibility, then by path, in
/// strict first-seen order on both levels — a stable partition, never a
/// sort.
pub open spec fn imports_out(t: Seq<GroupV>, level: nat) -> Seq<char> {
    vises_out(vis_list(t), t, level)
}

/// The items of a scope, a blank line between neighbours; `first` is true
/// while nothing has been emitted before them.
pub open spec fn items_out_from(items: Seq<Item>, level: nat, first: bool) -> Seq<char>
    decreases items,
{
    if items.len() == 0 {
        Seq::empty()
    } else {
        let sep = if first {
            Seq::<char>::empty()
        } else {
            seq!['\n']
        };
        sep + item_out(items[0], level) + items_out_from(items.drop_first(), level, false)
    }
}

/// The text a scope renders to: documentation, the consolidated imports
/// followed by one blank line exactly when at least one import was emitted,
/// then the items in insertion order with one blank line between
/// neighbours.
pub open spec fn scope_out(s: Scope, level: nat) -> Seq<char>
    decreases s,
{
    opt_docs_out(s.docs_view_full(), level) + imports_out(s.table(), level) + (if s.table().len()
        > 0 {
        seq!['\n']
    } else {
        Seq::<char>::empty()
    }) + items_out_from(s.spec_items(), level, true)
}

/// The rendered scope with its trailing newline trimmed: what `to_string`
/// returns.
pub open spec fn scope_text(s: Scope) -> Seq<char> {
    let t = scope_out(s, 0);
    if t.len() > 0 && t[t.len() - 1] == '\n' {
        t.drop_last()
    } else {
        t
    }
}

/// A scope with no documentation, no imports and no items.
pub open spec fn is_empty_scope(s: Scope) -> bool {
    &&& s.docs_view() is None
    &&& s.table().len() == 0
    &&& s.spec_items().len() == 0
}

/// A freshly made module: the given name and nothing else.
pub open spec fn is_blank_module(m: Module, name: Seq<char>) -> bool {
    &&& m.name@ == name
    &&& m.vis is None
    &&& m.docs is None
    &&& m.attributes@.len() == 0
    &&& is_empty_scope(m.scope)
}

impl Scope {
    /// The scope's documentation block, when one is set.
    pub closed spec fn docs_view_full(&self) -> Option<Docs> {
        self.docs
    }

    /// The characters of the scope's documentation, when one is set.
    pub open spec fn docs_view(&self) -> Option<Seq<char>> {
        match self.docs_view_full() {
            Some(d) => Some(d.docs@),
            None => None,
        }
    }

    /// The model of the scope's import table.
    pub closed spec fn table(&self) -> Seq<GroupV> {
        table_view(self.imports@)
    }

    /// The scope's items, in insertion order.
    pub closed spec fn spec_items(&self) -> Seq<Item> {
        self.items@
    }

    /// A new, empty scope.
    pub fn new() -> (s: Scope)
        ensures
            is_empty_scope(s),
    {
        let s = Scope { docs: None, imports: Vec::new(), items: Vec::new() };
        proof {
            assert(s.table() =~= Seq::<GroupV>::empty());
        }
        s
    }

    /// Sets the scope documentation.
    pub fn doc(&mut self, docs: &str) -> (r: &mut Scope)
        ensures
            (*r).docs_view() == Some(docs@),
            (*r).table() == old(self).table(),
            (*r).spec_items() == old(self).spec_items(),
            *final(self) == *final(r),
    {
        self.docs = Some(Docs::new(docs));
        self
    }

    /// The position of the first group for `path`, when one exists.
    fn group_index(groups: &Vec<ImportGroup>, path: &str) -> (r: Option<usize>)
        ensures
            match r {
                Some(gi) => {
                    &&& gi < groups@.len()
                    &&& table_view(groups@)[gi as int].path == path@
                    &&& forall|j: int|
                        0 <= j < gi ==> table_view(groups@)[j].path != path@
                },
                None => forall|j: int|
                    0 <= j < groups@.len() ==> table_view(groups@)[j].path != path@,
            },
    {
        let mut gi: usize = 0;
        while gi < groups.len()
            invariant
                gi <= groups@.len(),
                forall|j: int| 0 <= j < gi ==> table_view(groups@)[j].path != path@,
            decreases groups@.len() - gi,
        {
            if str_eq(groups[gi].path.as_str(), path) {
                return Some(gi);
            }
            gi = gi + 1;
        }
        None
    }

    /// The position of the first entry for `ty`, when one exists.
    fn entry_index(entries: &Vec<ImportEntry>, ty: &str) -> (r: Option<usize>)
        ensures
            match r {
                Some(ei) => {
                    &&& ei < entries@.len()
                    &&& entries_view(entries@)[ei as int].ty == ty@
                    &&& forall|j: int|
                        0 <= j < ei ==> entries_view(entries@)[j].ty != ty@
                },
                None => forall|j: int|
                    0 <= j < entries@.len() ==> entries_view(entries@)[j].ty != ty@,
            },
    {
        let mut ei: usize = 0;
        while ei < entries.len()
            invariant
                ei <= entries@.len(),
                forall|j: int| 0 <= j < ei ==> entries_view(entries@)[j].ty != ty@,
            decreases entries@.len() - ei,
        {
            if str_eq(entries[ei].ty.as_str(), ty) {
                return Some(ei);
            }
            ei = ei + 1;
        }
        None
    }

    /// Imports a type into the scope: a `use` statement at the top of the
    /// rendered output. Only the leading path segment of `ty` is recorded,
    /// so `import("a", "b::C")` imports `b` from `a`. Re-importing an
    /// existing (path, type) pair is idempotent; the returned handle can set
    /// the pair's visibility, and a later write overwrites an earlier one.
    #[verifier::rlimit(60)]
    pub fn import(&mut self, path: &str, ty: &str) -> (imp: &mut Import)
        ensures
            (*imp).vis_view() == stored_vis(old(self).table(), path@, first_segment(ty@)),
            final(self).table() == table_set(
                old(self).table(),
                path@,
                first_segment(ty@),
                (*final(imp)).vis_view(),
            ),
            final(self).spec_items() == old(self).spec_items(),
            final(self).docs_view() == old(self).docs_view(),
    {
        let seg = first_segment_of(ty);
        let ghost t0 = self.table();
        let ghost segv = first_segment(ty@);

        let gi: usize = match Scope::group_index(&self.imports, path) {
            Some(g) => g,
            None => {
                let group = ImportGroup { path: String::from_str(path), entries: Vec::new() };
                self.imports.push(group);
                self.imports.len() - 1
            },
        };
        let ghost t1 = self.table();
        proof {
            assert(t1.subrange(0, t0.len() as int) =~= t0);
            assert(t1[gi as int].path == path@);
            assert(forall|j: int| 0 <= j < gi ==> t1[j].path != path@);
            if t1.len() == t0.len() + 1 {
                assert(t1 =~= t0.push(t1[gi as int]));
                assert(t1[gi as int].entries =~= Seq::<EntryV>::empty());
            }
        }

        let ei: usize = match Scope::entry_index(&self.imports[gi].entries, seg.as_str()) {
            Some(e) => e,
            None => {
                let entry = ImportEntry { ty: seg, import: Import::new() };
                let g = &mut self.imports[gi];
                g.entries.push(entry);
                g.entries.len() - 1
            },
        };
        let ghost t2 = self.table();
        proof {
            assert(forall|j: int| 0 <= j < t2.len() && j != gi ==> t2[j] == t1[j]);
            assert(t2[gi as int].path == path@);
            assert(t2[gi as int].entries[ei as int].ty == segv);
            assert(forall|j: int| 0 <= j < ei ==> t2[gi as int].entries[j].ty != segv);
        }

        proof {
            let tv = t2[gi as int].entries[ei as int];
            // what the caller sees in the handle before touching it
            if t1.len() == t0.len() {
                lemma_table_get_at(t0, path@, segv, gi as int);
                if t2[gi as int].entries.len() == t1[gi as int].entries.len() {
                    lemma_entries_get_at(t0[gi as int].entries, segv, ei as int);
                } else {
                    lemma_entries_get_absent(t0[gi as int].entries, segv);
                }
            } else {
                lemma_table_get_absent(t0, path@, segv);
            }
            assert(tv.vis == stored_vis(t0, path@, segv));
            // the table after any visibility the caller leaves in the handle
            assert forall|fv: Option<Seq<char>>|
                #[trigger] table_set(t0, path@, segv, fv) == t2.update(
                    gi as int,
                    GroupV {
                        path: t2[gi as int].path,
                        entries: t2[gi as int].entries.update(
                            ei as int,
                            EntryV { ty: tv.ty, vis: fv },
                        ),
                    },
                ) by {
                let ev = EntryV { ty: tv.ty, vis: fv };
                let goal = t2.update(
                    gi as int,
                    GroupV {
                        path: t2[gi as int].path,
                        entries: t2[gi as int].entries.update(ei as int, ev),
                    },
                );
                if t1.len() == t0.len() {
                    assert(t1 == t0);
                    assert(tv.ty == segv);
                    assert(t2[gi as int].path == path@);
                    if t2[gi as int].entries.len() == t1[gi as int].entries.len() {
                        assert(t2 == t0);
                        lemma_entries_set_at(t0[gi as int].entries, segv, fv, ei as int);
                        lemma_table_set_at(t0, path@, segv, fv, gi as int);
                        assert(table_set(t0, path@, segv, fv) == goal);
                    } else {
                        lemma_entries_set_append(t0[gi as int].entries, segv, fv);
                        lemma_table_set_at(t0, path@, segv, fv, gi as int);
                        assert(t2[gi as int].entries =~= t0[gi as int].entries.push(tv));
                        assert(ei == t0[gi as int].entries.len());
                        assert(t0[gi as int].entries.push(tv).update(ei as int, ev)
                            =~= t0[gi as int].entries.push(ev));
                        assert(t2 =~= t0.update(gi as int, t2[gi as int]));
                        assert(goal =~= t0.update(
                            gi as int,
                            GroupV { path: path@, entries: t0[gi as int].entries.push(ev) },
                        ));
                        assert(table_set(t0, path@, segv, fv) == goal);
                    }
                } else {
                    lemma_table_set_append(t0, path@, segv, fv);
                    assert(gi == t0.len());
                    assert(ei == 0);
                    assert(t2[gi as int].entries =~= seq![tv]);
                    assert(t2[gi as int].entries.update(0, ev) =~= seq![ev]);
                    assert(t2 =~= t0.push(t2[gi as int]));
                    assert(goal =~= t0.push(GroupV { path: path@, entries: seq![ev] }));
                    assert(table_set(t0, path@, segv, fv) == goal);
                }
            }
        }
        let g = &mut self.imports[gi];
        let e = &mut g.entries[ei];
        &mut e.import
    }

    /// Appends a new blank module and hands it back.
    ///
    /// The caller must not reuse the name of a module already in this scope;
    /// `get_or_new_module` returns the existing one instead.
    pub fn new_module(&mut self, name: &str) -> (r: &mut Module)
        requires
            !has_module(old(self).spec_items(), name@),
        ensures
            is_blank_module(*r, name@),
            final(self).spec_items() == old(self).spec_items().push(Item::Module(*final(r))),
            final(self).table() == old(self).table(),
            final(self).docs_view() == old(self).docs_view(),
    {
        let m = Module::new(name);
        let ghost m0 = m;
        self.items.push(Item::Module(m));
        let last = self.items.len() - 1;
        match &mut self.items[last] {
            Item::Module(v) => {
                proof {
                    assert(old(self).items@.push(Item::Module(m0)).update(
                        last as int,
                        Item::Module(*final(v)),
                    ) =~= old(self).items@.push(Item::Module(*final(v))));
                }
                v
            },
            _ => unreached(),
        }
    }

    /// The first module with the given name, for further shaping, when one
    /// exists.
    pub fn get_module_mut(&mut self, name: &str) -> (r: Option<&mut Module>)
        ensures
            r is Some <==> has_module(old(self).spec_items(), name@),
            r matches Some(m) ==> {
                &&& old(self).spec_items()[first_module_index(old(self).spec_items(), name@)]
                    == Item::Module(*m)
                &&& final(self).spec_items() == old(self).spec_items().update(
                    first_module_index(old(self).spec_items(), name@),
                    Item::Module(*final(m)),
                )
                &&& final(self).table() == old(self).table()
                &&& final(self).docs_view() == old(self).docs_view()
            },
            r is None ==> *final(self) == *old(self),
    {
        let mut i: usize = 0;
        while i < self.items.len()
            invariant
                i <= self.items@.len(),
                *self == *old(self),
                forall|j: int| 0 <= j < i ==> !is_module_named(self.items@[j], name@),
            decreases self.items@.len() - i,
        {
            let found: bool = match &self.items[i] {
                Item::Module(m) => str_eq(m.name.as_str(), name),
                _ => false,
            };
            if found {
                proof {
                    lemma_first_module_index_at(self.items@, name@, i as int);
                }
                match &mut self.items[i] {
                    Item::Module(m) => {
                        return Some(m);
                    },
                    _ => {
                        return unreached();
                    },
                }
            }
            i = i + 1;
        }
        None
    }

    /// The first module with the given name, when one exists.
    pub fn get_module(&self, name: &str) -> (r: Option<&Module>)
        ensures
            r is Some <==> has_module(self.spec_items(), name@),
            r matches Some(m) ==> self.spec_items()[first_module_index(self.spec_items(), name@)]
                == Item::Module(*m),
    {
        let mut i: usize = 0;
        while i < self.items.len()
            invariant
                i <= self.items@.len(),
                forall|j: int| 0 <= j < i ==> !is_module_named(self.items@[j], name@),
            decreases self.items@.len() - i,
        {
            match &self.items[i] {
                Item::Module(m) => {
                    if str_eq(m.name.as_str(), name) {
                        proof {
                            lemma_first_module_index_at(self.items@, name@, i as int);
                        }
                        return Some(m);
                    }
                },
                _ => {},
            }
            i = i + 1;
        }
        None
    }

    /// The first module with the given name, created blank when none
    /// exists.
    pub fn get_or_new_module(&mut self, name: &str) -> (r: &mut Module)
        ensures
            has_module(old(self).spec_items(), name@) ==> {
                &&& old(self).spec_items()[first_module_index(old(self).spec_items(), name@)]
                    == Item::Module(*r)
                &&& final(self).spec_items() == old(self).spec_items().update(
                    first_module_index(old(self).spec_items(), name@),
                    Item::Module(*final(r)),
                )
            },
            !has_module(old(self).spec_items(), name@) ==> {
                &&& is_blank_module(*r, name@)
                &&& final(self).spec_items() == old(self).spec_items().push(
                    Item::Module(*final(r)),
                )
            },
            final(self).table() == old(self).table(),
            final(self).docs_view() == old(self).docs_view(),
    {
        let present = self.get_module(name).is_some();
        if present {
            match self.get_module_mut(name) {
                Some(m) => m,
                None => unreached(),
            }
        } else {
            self.new_module(name)
        }
    }

    /// Appends a module.
    ///
    /// The caller must not reuse the name of a module already in this scope;
    /// `get_or_new_module` avoids the clash.
    pub fn push_module(&mut self, item: Module) -> (r: &mut Scope)
        requires
            !has_module(old(self).spec_items(), item.name@),
        ensures
            (*r).spec_items() == old(self).spec_items().push(Item::Module(item)),
            (*r).table() == old(self).table(),
            (*r).docs_view() == old(self).docs_view(),
            *final(self) == *final(r),
    {
        self.items.push(Item::Module(item));
        self
    }

    /// Appends a new struct declaration and hands it back.
    pub fn new_struct(&mut self, name: &str) -> (r: &mut Struct)
        ensures
            (*r).name@ == name@,
            final(self).spec_items() == old(self).spec_items().push(Item::Struct(*final(r))),
            final(self).table() == old(self).table(),
            final(self).docs_view() == old(self).docs_view(),
    {
        let s = Struct::new(name);
        let ghost s0 = s;
        self.items.push(Item::Struct(s));
        let last = self.items.len() - 1;
        match &mut self.items[last] {
            Item::Struct(v) => {
                proof {
                    assert(old(self).items@.push(Item::Struct(s0)).update(
                        last as int,
                        Item::Struct(*final(v)),
                    ) =~= old(self).items@.push(Item::Struct(*final(v))));
                }
                v
            },
            _ => unreached(),
        }
    }

    /// Appends a struct declaration.
    pub fn push_struct(&mut self, item: Struct) -> (r: &mut Scope)
        ensures
            (*r).spec_items() == old(self).spec_items().push(Item::Struct(item)),
            (*r).table() == old(self).table(),
            (*r).docs_view() == old(self).docs_view(),
            *final(self) == *final(r),
    {
        self.items.push(Item::Struct(item));
        self
    }

    /// Appends a new function declaration and hands it back.
    pub fn new_fn(&mut self, name: &str) -> (r: &mut Function)
        ensures
            (*r).name@ == name@,
            (*r).body.deep_view() == Seq::<Seq<char>>::empty(),
            final(self).spec_items() == old(self).spec_items().push(Item::Function(*final(r))),
            final(self).table() == old(self).table(),
            final(self).docs_view() == old(self).docs_view(),
    {
        let f = Function::new(name);
        let ghost f0 = f;
        self.items.push(Item::Function(f));
        let last = self.items.len() - 1;
        match &mut self.items[last] {
            Item::Function(v) => {
                proof {
                    assert(old(self).items@.push(Item::Function(f0)).update(
                        last as int,
                        Item::Function(*final(v)),
                    ) =~= old(self).items@.push(Item::Function(*final(v))));
                }
                v
            },
            _ => unreached(),
        }
    }

    /// Appends a function declaration.
    pub fn push_fn(&mut self, item: Function) -> (r: &mut Scope)
        ensures
            (*r).spec_items() == old(self).spec_items().push(Item::Function(item)),
            (*r).table() == old(self).table(),
            (*r).docs_view() == old(self).docs_view(),
            *final(self) == *final(r),
    {
        self.items.push(Item::Function(item));
        self
    }

    /// Appends a new trait declaration and hands it back.
    pub fn new_trait(&mut self, name: &str) -> (r: &mut Trait)
        ensures
            (*r).name@ == name@,
            final(self).spec_items() == old(self).spec_items().push(Item::Trait(*final(r))),
            final(self).table() == old(self).table(),
            final(self).docs_view() == old(self).docs_view(),
    {
        let t = Trait::new(name);
        let ghost t0 = t;
        self.items.push(Item::Trait(t));
        let last = self.items.len() - 1;
        match &mut self.items[last] {
            Item::Trait(v) => {
                proof {
                    assert(old(self).items@.push(Item::Trait(t0)).update(
                        last as int,
                        Item::Trait(*final(v)),
                    ) =~= old(self).items@.push(Item::Trait(*final(v))));
                }
                v
            },
            _ => unreached(),
        }
    }

    /// Appends a trait declaration.
    pub fn push_trait(&mut self, item: Trait) -> (r: &mut Scope)
        ensures
            (*r).spec_items() == old(self).spec_items().push(Item::Trait(item)),
            (*r).table() == old(self).table(),
            (*r).docs_view() == old(self).docs_view(),
            *final(self) == *final(r),
    {
        self.items.push(Item::Trait(item));
        self
    }

    /// Appends a new enum declaration and hands it back.
    pub fn new_enum(&mut self, name: &str) -> (r: &mut Enum)
        ensures
            (*r).name@ == name@,
            final(self).spec_items() == old(self).spec_items().push(Item::Enum(*final(r))),
            final(self).table() == old(self).table(),
            final(self).docs_view() == old(self).docs_view(),
    {
        let e = Enum::new(name);
        let ghost e0 = e;
        self.items.push(Item::Enum(e));
        let last = self.items.len() - 1;
        match &mut self.items[last] {
            Item::Enum(v) => {
                proof {
                    assert(old(self).items@.push(Item::Enum(e0)).update(
                        last as int,
                        Item::Enum(*final(v)),
                    ) =~= old(self).items@.push(Item::Enum(*final(v))));
                }
                v
            },
            _ => unreached(),
        }
    }

    /// Appends an enum declaration.
    pub fn push_enum(&mut self, item: Enum) -> (r: &mut Scope)
        ensures
            (*r).spec_items() == old(self).spec_items().push(Item::Enum(item)),
            (*r).table() == old(self).table(),
            (*r).docs_view() == old(self).docs_view(),
            *final(self) == *final(r),
    {
        self.items.push(Item::Enum(item));
        self
    }

    /// Appends a new impl block and hands it back.
    pub fn new_impl(&mut self, target: &str) -> (r: &mut Impl)
        ensures
            (*r).target.name@ == target@,
            final(self).spec_items() == old(self).spec_items().push(Item::Impl(*final(r))),
            final(self).table() == old(self).table(),
            final(self).docs_view() == old(self).docs_view(),
    {
        let im = Impl::new(target);
        let ghost i0 = im;
        self.items.push(Item::Impl(im));
        let last = self.items.len() - 1;
        match &mut self.items[last] {
            Item::Impl(v) => {
                proof {
                    assert(old(self).items@.push(Item::Impl(i0)).update(
                        last as int,
                        Item::Impl(*final(v)),
                    ) =~= old(self).items@.push(Item::Impl(*final(v))));
                }
                v
            },
            _ => unreached(),
        }
    }

    /// Appends an impl block.
    pub fn push_impl(&mut self, item: Impl) -> (r: &mut Scope)
        ensures
            (*r).spec_items() == old(self).spec_items().push(Item::Impl(item)),
            (*r).table() == old(self).table(),
            (*r).docs_view() == old(self).docs_view(),
            *final(self) == *final(r),
    {
        self.items.push(Item::Impl(item));
        self
    }

    /// Appends a new constant declaration and hands it back.
    pub fn new_const(&mut self, target: &str) -> (r: &mut crate::constant::Const)
        ensures
            (*r).ty.name@ == target@,
            final(self).spec_items() == old(self).spec_items().push(Item::Const(*final(r))),
            final(self).table() == old(self).table(),
            final(self).docs_view() == old(self).docs_view(),
    {
        let c = crate::constant::Const::new(target);
        let ghost c0 = c;
        self.items.push(Item::Const(c));
        let last = self.items.len() - 1;
        match &mut self.items[last] {
            Item::Const(v) => {
                proof {
                    assert(old(self).items@.push(Item::Const(c0)).update(
                        last as int,
                        Item::Const(*final(v)),
                    ) =~= old(self).items@.push(Item::Const(*final(v))));
                }
                v
            },
            _ => unreached(),
        }
    }

    /// Appends a constant declaration.
    pub fn push_const(&mut self, item: crate::constant::Const) -> (r: &mut Scope)
        ensures
            (*r).spec_items() == old(self).spec_items().push(Item::Const(item)),
            (*r).table() == old(self).table(),
            (*r).docs_view() == old(self).docs_view(),
            *final(self) == *final(r),
    {
        self.items.push(Item::Const(item));
        self
    }

    /// Appends verbatim text, included in the output as it stands.
    pub fn raw(&mut self, val: &str) -> (r: &mut Scope)
        ensures
            (*r).spec_items().len() == old(self).spec_items().len() + 1,
            (*r).spec_items().drop_last() == old(self).spec_items(),
            (*r).spec_items().last() matches Item::Raw(v) && v@ == val@,
            (*r).table() == old(self).table(),
            (*r).docs_view() == old(self).docs_view(),
            *final(self) == *final(r),
    {
        self.items.push(Item::Raw(String::from_str(val)));
        proof {
            assert(self.items@.drop_last() =~= old(self).items@);
        }
        self
    }

    /// Appends a new type alias and hands it back.
    pub fn new_type_alias(&mut self, name: &str, target: &str) -> (r: &mut TypeAlias)
        ensures
            (*r).name@ == name@,
            (*r).ty.name@ == target@,
            final(self).spec_items() == old(self).spec_items().push(Item::TypeAlias(*final(r))),
            final(self).table() == old(self).table(),
            final(self).docs_view() == old(self).docs_view(),
    {
        let a = TypeAlias::new(name, target);
        let ghost a0 = a;
        self.items.push(Item::TypeAlias(a));
        let last = self.items.len() - 1;
        match &mut self.items[last] {
            Item::TypeAlias(v) => {
                proof {
                    assert(old(self).items@.push(Item::TypeAlias(a0)).update(
                        last as int,
                        Item::TypeAlias(*final(v)),
                    ) =~= old(self).items@.push(Item::TypeAlias(*final(v))));
                }
                v
            },
            _ => unreached(),
        }
    }

    /// Appends a type alias.
    pub fn push_type_alias(&mut self, item: TypeAlias) -> (r: &mut Scope)
        ensures
            (*r).spec_items() == old(self).spec_items().push(Item::TypeAlias(item)),
            (*r).table() == old(self).table(),
            (*r).docs_view() == old(self).docs_view(),
            *final(self) == *final(r),
    {
        self.items.push(Item::TypeAlias(item));
        self
    }

    /// The rendered scope, with the trailing newline trimmed.
    pub fn to_string(&self) -> (r: String)
        ensures
            r@ == scope_text(*self),
    {
        let mut fmt = Formatter::new();
        let _ = self.fmt(&mut fmt);
        let out = fmt.into_string();
        let n = out.as_str().unicode_len();
        if n > 0 && out.as_str().get_char(n - 1) == '\n' {
            let trimmed = out.as_str().substring_char(0, n - 1);
            let r = String::from_str(trimmed);
            proof {
                assert(r@ =~= scope_text(*self));
            }
            r
        } else {
            out
        }
    }

    /// Renders the scope at the formatter's current depth.
    pub fn fmt(&self, fmt: &mut Formatter) -> (res: Result<(), RenderError>)
        ensures
            res is Ok,
            final(fmt).text() == old(fmt).text() + scope_out(*self, old(fmt).depth()),
            final(fmt).depth() == old(fmt).depth(),
        decreases *self,
    {
        let ghost level = fmt.depth();
        match &self.docs {
            Some(d) => {
                let _ = d.fmt(fmt);
            },
            None => {},
        }
        self.fmt_imports(fmt);
        if self.imports.len() > 0 {
            fmt.blank_line();
        }
        let ghost items = self.items@;
        let ghost base = fmt.text();
        let mut i: usize = 0;
        proof {
            assert(items.subrange(0, items.len() as int) =~= items);
        }
        while i < self.items.len()
            invariant
                i <= self.items@.len(),
                items == self.items@,
                fmt.depth() == level,
                fmt.text() + items_out_from(
                    items.subrange(i as int, items.len() as int),
                    level,
                    i == 0,
                ) == base + items_out_from(items, level, true),
            decreases self.items@.len() - i,
        {
            let ghost rest = items.subrange(i as int, items.len() as int);
            let ghost first = i == 0;
            let ghost prev = fmt.text();
            if i != 0 {
                fmt.blank_line();
            }
            match &self.items[i] {
                Item::Module(v) => {
                    proof {
                        assert(items[i as int] == Item::Module(*v));
                        assert(decreases_to!(items => items[i as int]));
                    }
                    let _ = v.fmt(fmt);
                },
                Item::Struct(v) => {
                    let _ = v.fmt(fmt);
                    proof {
                        assert(items[i as int] == Item::Struct(*v));
                    }
                },
                Item::Function(v) => {
                    let _ = v.fmt(fmt);
                    proof {
                        assert(items[i as int] == Item::Function(*v));
                    }
                },
                Item::Trait(v) => {
                    let _ = v.fmt(fmt);
                    proof {
                        assert(items[i as int] == Item::Trait(*v));
                    }
                },
                Item::Enum(v) => {
                    let _ = v.fmt(fmt);
                    proof {
                        assert(items[i as int] == Item::Enum(*v));
                    }
                },
                Item::Impl(v) => {
                    let _ = v.fmt(fmt);
                    proof {
                        assert(items[i as int] == Item::Impl(*v));
                    }
                },
                Item::Raw(v) => {
                    if v.as_str().is_empty() {
                        fmt.blank_line();
                    } else {
                        let lines = lines_of(v.as_str());
                        fmt.write_lines(&lines);
                    }
                    proof {
                        assert(items[i as int] == Item::Raw(*v));
                    }
                },
                Item::TypeAlias(v) => {
                    let _ = v.fmt(fmt);
                    proof {
                        assert(items[i as int] == Item::TypeAlias(*v));
                    }
                },
                Item::Const(v) => {
                    let _ = v.fmt(fmt);
                    proof {
                        assert(items[i as int] == Item::Const(*v));
                    }
                },
            }
            proof {
                assert(rest[0] == items[i as int]);
                assert(rest.drop_first() =~= items.subrange(i as int + 1, items.len() as int));
                assert(fmt.text() == prev + (if first {
                    Seq::<char>::empty()
                } else {
                    seq!['\n']
                }) + item_out(items[i as int], level));
                assert(fmt.text() + items_out_from(rest.drop_first(), level, false) =~= prev
                    + items_out_from(rest, level, first));
            }
            i = i + 1;
        }
        proof {
            assert(items.subrange(items.len() as int, items.len() as int).len() == 0);
            assert(fmt.text() + Seq::<char>::empty() =~= fmt.text());
            assert(fmt.text() =~= old(fmt).text() + scope_out(*self, old(fmt).depth()));
        }
        Ok(())
    }

    /// The distinct visibilities of the table, in first-seen order.
    fn collect_vises(&self) -> (r: Vec<Option<String>>)
        ensures
            r.deep_view() == vis_list(self.table()),
    {
        let ghost t = self.table();
        let mut vises: Vec<Option<String>> = Vec::new();
        let mut gi: usize = 0;
        proof {
            assert(t.subrange(0, t.len() as int) =~= t);
            assert(vises.deep_view() =~= Seq::<Option<Seq<char>>>::empty());
        }
        while gi < self.imports.len()
            invariant
                gi <= self.imports@.len(),
                t == self.table(),
                t.len() == self.imports@.len(),
                vis_scan(vises.deep_view(), t.subrange(gi as int, t.len() as int)) == vis_list(t),
            decreases self.imports@.len() - gi,
        {
            let ghost grest = t.subrange(gi as int, t.len() as int);
            let ghost acc0 = vises.deep_view();
            let ghost es = t[gi as int].entries;
            let g = &self.imports[gi];
            let mut ei: usize = 0;
            proof {
                assert(grest[0] == t[gi as int]);
                assert(grest.drop_first() =~= t.subrange(gi as int + 1, t.len() as int));
                assert(es.subrange(0, es.len() as int) =~= es);
            }
            while ei < g.entries.len()
                invariant
                    ei <= g.entries@.len(),
                    es == entries_view(g.entries@),
                    es.len() == g.entries@.len(),
                    vis_fold(vises.deep_view(), es.subrange(ei as int, es.len() as int))
                        == vis_fold(acc0, es),
                decreases g.entries@.len() - ei,
            {
                let ghost erest = es.subrange(ei as int, es.len() as int);
                let ghost prev = vises.deep_view();
                let e = &g.entries[ei];
                let present = Scope::contains_vis(&vises, &e.import.vis);
                if !present {
                    let copy: Option<String> = match &e.import.vis {
                        Some(v) => Some(String::from_str(v.as_str())),
                        None => None,
                    };
                    vises.push(copy);
                }
                proof {
                    assert(erest[0] == es[ei as int]);
                    assert(erest.drop_first() =~= es.subrange(ei as int + 1, es.len() as int));
                    assert(es[ei as int].vis == opt_view(&e.import.vis));
                    if !prev.contains(es[ei as int].vis) {
                        assert(vises.deep_view() =~= prev.push(es[ei as int].vis));
                    }
                }
                ei = ei + 1;
            }
            proof {
                assert(es.subrange(es.len() as int, es.len() as int).len() == 0);
                assert(vis_fold(vises.deep_view(), Seq::<EntryV>::empty()) == vises.deep_view());
            }
            gi = gi + 1;
        }
        proof {
            assert(t.subrange(t.len() as int, t.len() as int).len() == 0);
            assert(vis_scan(vises.deep_view(), Seq::<GroupV>::empty()) == vises.deep_view());
        }
        vises
    }

    /// Whether `x` already stands in `v`.
    fn contains_vis(v: &Vec<Option<String>>, x: &Option<String>) -> (r: bool)
        ensures
            r == v.deep_view().contains(opt_view(x)),
    {
        let mut i: usize = 0;
        while i < v.len()
            invariant
                i <= v@.len(),
                forall|j: int| 0 <= j < i ==> v.deep_view()[j] != opt_view(x),
            decreases v@.len() - i,
        {
            if opt_str_eq(&v[i], x) {
                proof {
                    assert(v.deep_view()[i as int] == opt_view(x));
                }
                return true;
            }
            i = i + 1;
        }
        proof {
            assert(!v.deep_view().contains(opt_view(x)));
        }
        false
    }

    /// The type names of the group's entries with the given visibility, in
    /// first-seen order.
    fn tys_for_group(g: &ImportGroup, vis: &Option<String>) -> (r: Vec<String>)
        ensures
            r.deep_view() == tys_for(entries_view(g.entries@), opt_view(vis)),
    {
        let ghost es = entries_view(g.entries@);
        let ghost v = opt_view(vis);
        let mut tys: Vec<String> = Vec::new();
        let mut ei: usize = 0;
        proof {
            assert(es.subrange(0, es.len() as int) =~= es);
            assert(tys.deep_view() =~= Seq::<Seq<char>>::empty());
            assert(Seq::<Seq<char>>::empty() + tys_for(es, v) =~= tys_for(es, v));
        }
        while ei < g.entries.len()
            invariant
                ei <= g.entries@.len(),
                es == entries_view(g.entries@),
                es.len() == g.entries@.len(),
                v == opt_view(vis),
                tys.deep_view() + tys_for(es.subrange(ei as int, es.len() as int), v) == tys_for(
                    es,
                    v,
                ),
            decreases g.entries@.len() - ei,
        {
            let ghost erest = es.subrange(ei as int, es.len() as int);
            let ghost prev = tys.deep_view();
            let e = &g.entries[ei];
            proof {
                assert(erest[0] == es[ei as int]);
                assert(erest.drop_first() =~= es.subrange(ei as int + 1, es.len() as int));
                assert(es[ei as int].vis == opt_view(&e.import.vis));
            }
            if opt_str_eq(&e.import.vis, vis) {
                tys.push(String::from_str(e.ty.as_str()));
                proof {
                    assert(tys.deep_view() =~= prev.push(es[ei as int].ty));
                    assert(prev + (seq![es[ei as int].ty] + tys_for(erest.drop_first(), v)) =~= (
                    prev + seq![es[ei as int].ty]) + tys_for(erest.drop_first(), v));
                    assert(prev.push(es[ei as int].ty) =~= prev + seq![es[ei as int].ty]);
                }
            } else {
                proof {
                    assert(Seq::<Seq<char>>::empty() + tys_for(erest.drop_first(), v) =~= tys_for(
                        erest.drop_first(),
                        v,
                    ));
                }
            }
            ei = ei + 1;
        }
        proof {
            assert(es.subrange(es.len() as int, es.len() as int).len() == 0);
            assert(tys.deep_view() + Seq::<Seq<char>>::empty() =~= tys.deep_view());
        }
        tys
    }

    /// Writes the consolidated import statements: one per (visibility, path)
    /// pairing that has at least one type, visibilities first-seen first,
    /// paths first-seen first within each.
    fn fmt_imports(&self, fmt: &mut Formatter)
        ensures
            final(fmt).text() == old(fmt).text() + imports_out(self.table(), old(fmt).depth()),
            final(fmt).depth() == old(fmt).depth(),
    {
        let ghost t = self.table();
        let ghost level = fmt.depth();
        let vises = self.collect_vises();
        let ghost vl = vis_list(t);
        let ghost base = fmt.text();
        let mut vi: usize = 0;
        proof {
            assert(vl.subrange(0, vl.len() as int) =~= vl);
        }
        while vi < vises.len()
            invariant
                vi <= vises@.len(),
                vises.deep_view() == vl,
                vl.len() == vises@.len(),
                t == self.table(),
                t.len() == self.imports@.len(),
                fmt.depth() == level,
                fmt.text() + vises_out(vl.subrange(vi as int, vl.len() as int), t, level) == base
                    + vises_out(vl, t, level),
            decreases vises@.len() - vi,
        {
            let ghost vrest = vl.subrange(vi as int, vl.len() as int);
            let ghost prev = fmt.text();
            let ghost v = vl[vi as int];
            let vis = &vises[vi];
            proof {
                assert(vrest[0] == vl[vi as int]);
                assert(vrest.drop_first() =~= vl.subrange(vi as int + 1, vl.len() as int));
                assert(opt_view(vis) == vl[vi as int]);
            }
            let ghost base2 = fmt.text();
            let mut gj: usize = 0;
            proof {
                assert(t.subrange(0, t.len() as int) =~= t);
            }
            while gj < self.imports.len()
                invariant
                    gj <= self.imports@.len(),
                    t == self.table(),
                    t.len() == self.imports@.len(),
                    v == opt_view(vis),
                    fmt.depth() == level,
                    fmt.text() + groups_out(v, t.subrange(gj as int, t.len() as int), level)
                        == base2 + groups_out(v, t, level),
                decreases self.imports@.len() - gj,
            {
                let ghost grest = t.subrange(gj as int, t.len() as int);
                let ghost prev2 = fmt.text();
                let g = &self.imports[gj];
                proof {
                    assert(grest[0] == t[gj as int]);
                    assert(grest.drop_first() =~= t.subrange(gj as int + 1, t.len() as int));
                    assert(entries_view(g.entries@) == t[gj as int].entries);
                    assert(g.path@ == t[gj as int].path);
                }
                let tys = Scope::tys_for_group(g, vis);
                if tys.len() > 0 {
                    let mut line = String::new();
                    match vis {
                        Some(vv) => {
                            line.append(vv.as_str());
                            line.append(" ");
                        },
                        None => {},
                    }
                    line.append("use ");
                    line.append(g.path.as_str());
                    line.append("::");
                    if tys.len() > 1 {
                        line.append("{");
                        let joined = join_with(&tys, ", ");
                        line.append(joined.as_str());
                        line.append("}");
                    } else {
                        line.append(tys[0].as_str());
                        proof {
                            assert(tys.deep_view()[0] == tys_for(t[gj as int].entries, v)[0]);
                        }
                    }
                    line.append(";");
                    proof {
                        assert(line@ =~= stmt_text(v, t[gj as int].path, tys_for(
                            t[gj as int].entries,
                            v,
                        )));
                    }
                    fmt.write_line(line.as_str());
                }
                proof {
                    assert(fmt.text() + groups_out(v, grest.drop_first(), level) =~= prev2
                        + groups_out(v, grest, level));
                }
                gj = gj + 1;
            }
            proof {
                assert(t.subrange(t.len() as int, t.len() as int).len() == 0);
                assert(fmt.text() + Seq::<char>::empty() =~= fmt.text());
                assert(fmt.text() + vises_out(vrest.drop_first(), t, level) =~= prev + vises_out(
                    vrest,
                    t,
                    level,
                ));
            }
            vi = vi + 1;
        }
        proof {
            assert(vl.subrange(vl.len() as int, vl.len() as int).len() == 0);
            assert(fmt.text() + Seq::<char>::empty() =~= fmt.text());
        }
    }
}

impl Default for Scope {
    /// A new, empty scope.
    fn default() -> (s: Scope)
        ensures
            is_empty_scope(s),
    {
        Scope::new()
    }
}

} // verus!
