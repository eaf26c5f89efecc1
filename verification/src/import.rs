//! Imports and the insertion-ordered import table.
//!
//! The table is two-level: import path, then type name, each level kept in
//! first-seen order. Re-inserting a (path, type) pair is idempotent; setting
//! a visibility on an existing pair overwrites it (last write wins). The
//! model of a table is a sequence of [`GroupV`] values, and [`table_set`] /
//! [`table_get`] say exactly what an insertion and a lookup do to it.

use vstd::prelude::*;

use crate::text::opt_view;

verus! {

use vstd::string::StringExecFns;

/// An import (`use` statement) entry: only its visibility is configurable.
#[derive(Debug, Clone)]
pub struct Import {
    /// Import visibility, e.g. `pub` or `pub(crate)`; absent for a private
    /// import.
    pub vis: Option<String>,
}

impl Import {
    /// The visibility's characters, when one is set.
    pub open spec fn vis_view(self) -> Option<Seq<char>> {
        opt_view(&self.vis)
    }

    /// A new import with no visibility.
    pub fn new() -> (i: Import)
        ensures
            i.vis_view() is None,
    {
        Import { vis: None }
    }

    /// Sets the import visibility.
    pub fn vis(&mut self, vis: &str) -> (r: &mut Import)
        ensures
            (*r).vis_view() == Some(vis@),
            *final(self) == *final(r),
    {
        self.vis = Some(String::from_str(vis));
        self
    }
}

impl Default for Import {
    /// A new import with no visibility.
    fn default() -> (i: Import)
        ensures
            i.vis_view() is None,
    {
        Import::new()
    }
}

/// One type name imported from a path, with its import settings.
#[derive(Debug, Clone)]
pub struct ImportEntry {
    /// The imported type's name.
    pub ty: String,
    /// The import settings for this name.
    pub import: Import,
}

/// All type names imported from one path, in first-seen order.
#[derive(Debug, Clone)]
pub struct ImportGroup {
    /// The import path.
    pub path: String,
    /// The names imported from the path, in first-seen order.
    pub entries: Vec<ImportEntry>,
}

/// The model of an entry: the type name and the visibility.
pub struct EntryV {
    pub ty: Seq<char>,
    pub vis: Option<Seq<char>>,
}

/// The model of a group: the path and its entries, in first-seen order.
pub struct GroupV {
    pub path: Seq<char>,
    pub entries: Seq<EntryV>,
}

impl View for ImportEntry {
    type V = EntryV;

    open spec fn view(&self) -> EntryV {
        EntryV { ty: self.ty@, vis: opt_view(&self.import.vis) }
    }
}

impl View for ImportGroup {
    type V = GroupV;

    open spec fn view(&self) -> GroupV {
        GroupV { path: self.path@, entries: entries_view(self.entries@) }
    }
}

/// The models of a sequence of entries.
pub open spec fn entries_view(es: Seq<ImportEntry>) -> Seq<EntryV> {
    Seq::new(es.len(), |i: int| es[i]@)
}

/// The models of a sequence of groups.
pub open spec fn table_view(groups: Seq<ImportGroup>) -> Seq<GroupV> {
    Seq::new(groups.len(), |i: int| groups[i]@)
}

/// `es` with the first entry named `ty` given visibility `vis`, or with a
/// new entry appended when no entry is named `ty`.
pub open spec fn entries_set(es: Seq<EntryV>, ty: Seq<char>, vis: Option<Seq<char>>) -> Seq<EntryV>
    decreases es.len(),
{
    if es.len() == 0 {
        seq![EntryV { ty, vis }]
    } else if es[0].ty == ty {
        seq![EntryV { ty, vis }] + es.drop_first()
    } else {
        seq![es[0]] + entries_set(es.drop_first(), ty, vis)
    }
}

/// `t` with the pair (`path`, `ty`) present and carrying visibility `vis`:
/// the first group for `path` is updated, or a new group is appended when no
/// group has that path.
pub open spec fn table_set(
    t: Seq<GroupV>,
    path: Seq<char>,
    ty: Seq<char>,
    vis: Option<Seq<char>>,
) -> Seq<GroupV>
    decreases t.len(),
{
    if t.len() == 0 {
        seq![GroupV { path, entries: seq![EntryV { ty, vis }] }]
    } else if t[0].path == path {
        seq![GroupV { path, entries: entries_set(t[0].entries, ty, vis) }] + t.drop_first()
    } else {
        seq![t[0]] + table_set(t.drop_first(), path, ty, vis)
    }
}

/// The visibility stored for `ty`, or `None` when no entry is named `ty`.
pub open spec fn entries_get(es: Seq<EntryV>, ty: Seq<char>) -> Option<Option<Seq<char>>>
    decreases es.len(),
{
    if es.len() == 0 {
        None
    } else if es[0].ty == ty {
        Some(es[0].vis)
    } else {
        entries_get(es.drop_first(), ty)
    }
}

/// The visibility stored for (`path`, `ty`), or `None` when the pair is
/// absent.
pub open spec fn table_get(t: Seq<GroupV>, path: Seq<char>, ty: Seq<char>) -> Option<
    Option<Seq<char>>,
>
    decreases t.len(),
{
    if t.len() == 0 {
        None
    } else if t[0].path == path {
        entries_get(t[0].entries, ty)
    } else {
        table_get(t.drop_first(), path, ty)
    }
}

/// The visibility the entry for (`path`, `ty`) would carry right after an
/// insertion that did not set one: what was already stored, or none.
pub open spec fn stored_vis(t: Seq<GroupV>, path: Seq<char>, ty: Seq<char>) -> Option<Seq<char>> {
    match table_get(t, path, ty) {
        Some(v) => v,
        None => None,
    }
}

/// The model of an updated group sequence is the model updated.
pub broadcast proof fn lemma_table_view_update(s: Seq<ImportGroup>, gi: int, g: ImportGroup)
    requires
        0 <= gi < s.len(),
    ensures
        #[trigger] table_view(s.update(gi, g)) == table_view(s).update(gi, g@),
{
    assert(table_view(s.update(gi, g)) =~= table_view(s).update(gi, g@));
}

/// The model of an extended group sequence is the model extended.
pub broadcast proof fn lemma_table_view_push(s: Seq<ImportGroup>, g: ImportGroup)
    ensures
        #[trigger] table_view(s.push(g)) == table_view(s).push(g@),
{
    assert(table_view(s.push(g)) =~= table_view(s).push(g@));
}

/// The model of an updated entry sequence is the model updated.
pub broadcast proof fn lemma_entries_view_update(s: Seq<ImportEntry>, ei: int, e: ImportEntry)
    requires
        0 <= ei < s.len(),
    ensures
        #[trigger] entries_view(s.update(ei, e)) == entries_view(s).update(ei, e@),
{
    assert(entries_view(s.update(ei, e)) =~= entries_view(s).update(ei, e@));
}

/// The model of an extended entry sequence is the model extended.
pub broadcast proof fn lemma_entries_view_push(s: Seq<ImportEntry>, e: ImportEntry)
    ensures
        #[trigger] entries_view(s.push(e)) == entries_view(s).push(e@),
{
    assert(entries_view(s.push(e)) =~= entries_view(s).push(e@));
}

/// Setting an entry that is present at `ei` (and nowhere earlier) updates it
/// in place.
pub proof fn lemma_entries_set_at(es: Seq<EntryV>, ty: Seq<char>, vis: Option<Seq<char>>, ei: int)
    requires
        0 <= ei < es.len(),
        es[ei].ty == ty,
        forall|j: int| 0 <= j < ei ==> es[j].ty != ty,
    ensures
        entries_set(es, ty, vis) == es.update(ei, EntryV { ty, vis }),
    decreases ei,
{
    if ei == 0 {
        assert(entries_set(es, ty, vis) =~= es.update(0, EntryV { ty, vis }));
    } else {
        lemma_entries_set_at(es.drop_first(), ty, vis, ei - 1);
        assert(entries_set(es, ty, vis) =~= es.update(ei, EntryV { ty, vis }));
    }
}

/// Setting an entry that is absent appends it.
pub proof fn lemma_entries_set_append(es: Seq<EntryV>, ty: Seq<char>, vis: Option<Seq<char>>)
    requires
        forall|j: int| 0 <= j < es.len() ==> es[j].ty != ty,
    ensures
        entries_set(es, ty, vis) == es.push(EntryV { ty, vis }),
    decreases es.len(),
{
    if es.len() == 0 {
        assert(entries_set(es, ty, vis) =~= es.push(EntryV { ty, vis }));
    } else {
        lemma_entries_set_append(es.drop_first(), ty, vis);
        assert(entries_set(es, ty, vis) =~= es.push(EntryV { ty, vis }));
    }
}

/// Setting a pair whose path group is first found at `gi` updates that group
/// in place.
pub proof fn lemma_table_set_at(
    t: Seq<GroupV>,
    path: Seq<char>,
    ty: Seq<char>,
    vis: Option<Seq<char>>,
    gi: int,
)
    requires
        0 <= gi < t.len(),
        t[gi].path == path,
        forall|j: int| 0 <= j < gi ==> t[j].path != path,
    ensures
        table_set(t, path, ty, vis) == t.update(
            gi,
            GroupV { path, entries: entries_set(t[gi].entries, ty, vis) },
        ),
    decreases gi,
{
    if gi == 0 {
        assert(table_set(t, path, ty, vis) =~= t.update(
            0,
            GroupV { path, entries: entries_set(t[0].entries, ty, vis) },
        ));
    } else {
        lemma_table_set_at(t.drop_first(), path, ty, vis, gi - 1);
        assert(table_set(t, path, ty, vis) =~= t.update(
            gi,
            GroupV { path, entries: entries_set(t[gi].entries, ty, vis) },
        ));
    }
}

/// Setting a pair whose path has no group appends a fresh group.
pub proof fn lemma_table_set_append(
    t: Seq<GroupV>,
    path: Seq<char>,
    ty: Seq<char>,
    vis: Option<Seq<char>>,
)
    requires
        forall|j: int| 0 <= j < t.len() ==> t[j].path != path,
    ensures
        table_set(t, path, ty, vis) == t.push(
            GroupV { path, entries: seq![EntryV { ty, vis }] },
        ),
    decreases t.len(),
{
    if t.len() == 0 {
        assert(table_set(t, path, ty, vis) =~= t.push(
            GroupV { path, entries: seq![EntryV { ty, vis }] },
        ));
    } else {
        lemma_table_set_append(t.drop_first(), path, ty, vis);
        assert(table_set(t, path, ty, vis) =~= t.push(
            GroupV { path, entries: seq![EntryV { ty, vis }] },
        ));
    }
}

/// Looking a type up in entries whose first match is at `ei` yields that
/// entry's visibility.
pub proof fn lemma_entries_get_at(es: Seq<EntryV>, ty: Seq<char>, ei: int)
    requires
        0 <= ei < es.len(),
        es[ei].ty == ty,
        forall|j: int| 0 <= j < ei ==> es[j].ty != ty,
    ensures
        entries_get(es, ty) == Some(es[ei].vis),
    decreases ei,
{
    if ei > 0 {
        lemma_entries_get_at(es.drop_first(), ty, ei - 1);
    }
}

/// Looking an absent type up yields nothing.
pub proof fn lemma_entries_get_absent(es: Seq<EntryV>, ty: Seq<char>)
    requires
        forall|j: int| 0 <= j < es.len() ==> es[j].ty != ty,
    ensures
        entries_get(es, ty) is None,
    decreases es.len(),
{
    if es.len() > 0 {
        lemma_entries_get_absent(es.drop_first(), ty);
    }
}

/// Looking a pair up whose path group is first found at `gi` looks the type
/// up in that group.
pub proof fn lemma_table_get_at(t: Seq<GroupV>, path: Seq<char>, ty: Seq<char>, gi: int)
    requires
        0 <= gi < t.len(),
        t[gi].path == path,
        forall|j: int| 0 <= j < gi ==> t[j].path != path,
    ensures
        table_get(t, path, ty) == entries_get(t[gi].entries, ty),
    decreases gi,
{
    if gi > 0 {
        lemma_table_get_at(t.drop_first(), path, ty, gi - 1);
    }
}

/// Looking a pair up whose path has no group yields nothing.
pub proof fn lemma_table_get_absent(t: Seq<GroupV>, path: Seq<char>, ty: Seq<char>)
    requires
        forall|j: int| 0 <= j < t.len() ==> t[j].path != path,
    ensures
        table_get(t, path, ty) is None,
    decreases t.len(),
{
    if t.len() > 0 {
        lemma_table_get_absent(t.drop_first(), path, ty);
    }
}

/// Re-inserting an identical (path, type, visibility) triple leaves the
/// table — and hence the rendered statement set — unchanged.
pub proof fn lemma_table_set_idempotent(
    t: Seq<GroupV>,
    path: Seq<char>,
    ty: Seq<char>,
    vis: Option<Seq<char>>,
)
    ensures
        table_set(table_set(t, path, ty, vis), path, ty, vis) == table_set(t, path, ty, vis),
    decreases t.len(),
{
    if t.len() == 0 {
        lemma_entries_set_idempotent(Seq::empty(), ty, vis);
        assert(table_set(table_set(t, path, ty, vis), path, ty, vis) =~= table_set(
            t,
            path,
            ty,
            vis,
        ));
    } else if t[0].path == path {
        lemma_entries_set_idempotent(t[0].entries, ty, vis);
        assert((seq![
            GroupV { path, entries: entries_set(t[0].entries, ty, vis) },
        ] + t.drop_first()).drop_first() =~= t.drop_first());
        assert(table_set(table_set(t, path, ty, vis), path, ty, vis) =~= table_set(
            t,
            path,
            ty,
            vis,
        ));
    } else {
        lemma_table_set_idempotent(t.drop_first(), path, ty, vis);
        assert((seq![t[0]] + table_set(t.drop_first(), path, ty, vis)).drop_first() =~= table_set(
            t.drop_first(),
            path,
            ty,
            vis,
        ));
        assert(table_set(table_set(t, path, ty, vis), path, ty, vis) =~= table_set(
            t,
            path,
            ty,
            vis,
        ));
    }
}

/// Re-setting an entry to the same visibility changes nothing.
pub proof fn lemma_entries_set_idempotent(es: Seq<EntryV>, ty: Seq<char>, vis: Option<Seq<char>>)
    ensures
        entries_set(entries_set(es, ty, vis), ty, vis) == entries_set(es, ty, vis),
    decreases es.len(),
{
    if es.len() == 0 {
        assert(entries_set(entries_set(es, ty, vis), ty, vis) =~= entries_set(es, ty, vis));
    } else if es[0].ty == ty {
        assert((seq![EntryV { ty, vis }] + es.drop_first()).drop_first() =~= es.drop_first());
        assert(entries_set(entries_set(es, ty, vis), ty, vis) =~= entries_set(es, ty, vis));
    } else {
        lemma_entries_set_idempotent(es.drop_first(), ty, vis);
        assert((seq![es[0]] + entries_set(es.drop_first(), ty, vis)).drop_first() =~= entries_set(
            es.drop_first(),
            ty,
            vis,
        ));
        assert(entries_set(entries_set(es, ty, vis), ty, vis) =~= entries_set(es, ty, vis));
    }
}

} // verus!
