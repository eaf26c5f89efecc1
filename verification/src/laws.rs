//! The library-wide laws, each stated over the rendering model and proved
//! once and for all.

use vstd::prelude::*;

use crate::formatter::block_close_at;
use crate::formatter::block_open_at;
use crate::import::GroupV;
use crate::import::lemma_table_set_idempotent;
use crate::import::table_set;
use crate::module::Module;
use crate::module::module_header;
use crate::module::module_out;
use crate::scope::Scope;
use crate::scope::imports_out;
use crate::scope::is_empty_scope;
use crate::scope::items_out_from;
use crate::scope::scope_out;
use crate::scope::scope_text;

verus! {

/// A scope that holds only items — no documentation, no imports — renders as
/// exactly its items in insertion order, one blank line between neighbours:
/// each item contributes its own rendering exactly once, at its own place.
pub proof fn lemma_items_render_in_order(s: Scope, level: nat)
    requires
        s.docs_view() is None,
        s.table().len() == 0,
    ensures
        scope_out(s, level) == items_out_from(s.spec_items(), level, true),
{
    assert(scope_out(s, level) =~= items_out_from(s.spec_items(), level, true));
}

/// A module without documentation and attributes renders as its header line
/// with the opening brace, its contents one level deeper, and the closing
/// brace back at its own level. With `lemma_items_render_in_order` this says
/// that a sequence of `push_module` calls renders each module's header
/// exactly once, in insertion order; applied inductively over the nesting it
/// says that the lines of the contents of `D` nested modules stand at depth
/// `D` and the closing braces come back down one level at a time.
pub proof fn lemma_module_renders_header_then_body(m: Module, level: nat)
    requires
        m.docs is None,
        m.attributes@.len() == 0,
    ensures
        module_out(m, level) == block_open_at(level, module_header(m)) + scope_out(
            m.scope,
            level + 1,
        ) + block_close_at(level),
{
    assert(m.attributes.deep_view().len() == 0);
    assert(module_out(m, level) =~= block_open_at(level, module_header(m)) + scope_out(
        m.scope,
        level + 1,
    ) + block_close_at(level));
}

/// Import consolidation is idempotent: re-inserting an identical
/// (path, type, visibility) triple leaves the rendered statement set
/// unchanged.
pub proof fn lemma_reinsert_renders_same(
    t: Seq<GroupV>,
    path: Seq<char>,
    ty: Seq<char>,
    vis: Option<Seq<char>>,
    level: nat,
)
    ensures
        imports_out(table_set(table_set(t, path, ty, vis), path, ty, vis), level) == imports_out(
            table_set(t, path, ty, vis),
            level,
        ),
{
    lemma_table_set_idempotent(t, path, ty, vis);
}

/// Rendering an empty scope — no items, no imports, no documentation —
/// yields the empty string.
pub proof fn lemma_empty_scope_renders_empty(s: Scope)
    requires
        is_empty_scope(s),
    ensures
        scope_text(s) == Seq::<char>::empty(),
        scope_out(s, 0) == Seq::<char>::empty(),
{
    assert(scope_out(s, 0) =~= Seq::<char>::empty());
}

/// Round-trip stability: the rendered text is a function of the built tree
/// alone, so rendering the same tree twice — without mutation in between —
/// yields byte-identical output.
pub proof fn lemma_render_deterministic(s: Scope, r1: Seq<char>, r2: Seq<char>)
    requires
        r1 == scope_text(s),
        r2 == scope_text(s),
    ensures
        r1 == r2,
{
}

} // verus!
