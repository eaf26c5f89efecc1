//! Documentation attached to a scope, a module or a declaration, rendered as
//! one `///` comment line per line of text.

use vstd::prelude::*;

use crate::formatter::Formatter;
use crate::formatter::RenderError;
use crate::formatter::line_at;
use crate::text::split_lines;

verus! {

use vstd::string::StringExecFns;

/// A documentation block.
#[derive(Debug, Clone)]
pub struct Docs {
    /// The documentation text; newlines separate comment lines.
    pub docs: String,
}

/// The text a documentation block renders to at the given depth: one `///`
/// line per line of the text.
pub open spec fn docs_out(docs: Seq<char>, level: nat) -> Seq<char> {
    doc_lines_out(split_lines(docs), level)
}

/// The documentation text above a declaration, when it carries any.
pub open spec fn opt_docs_out(d: Option<Docs>, level: nat) -> Seq<char> {
    match d {
        Some(docs) => docs_out(docs.docs@, level),
        None => Seq::empty(),
    }
}

/// The given lines, each rendered as a `///` comment line.
pub open spec fn doc_lines_out(lines: Seq<Seq<char>>, level: nat) -> Seq<char>
    decreases lines.len(),
{
    if lines.len() == 0 {
        Seq::empty()
    } else {
        line_at(level, "/// "@ + lines[0]) + doc_lines_out(lines.drop_first(), level)
    }
}

impl Docs {
    /// A documentation block holding the given text.
    pub fn new(docs: &str) -> (d: Docs)
        ensures
            d.docs@ == docs@,
    {
        Docs { docs: String::from_str(docs) }
    }

    /// Renders the block: each line of the text as a `///` comment line at
    /// the formatter's current depth.
    pub fn fmt(&self, fmt: &mut Formatter) -> (r: Result<(), RenderError>)
        ensures
            r is Ok,
            final(fmt).text() == old(fmt).text() + docs_out(self.docs@, old(fmt).depth()),
            final(fmt).depth() == old(fmt).depth(),
    {
        let lines = crate::text::lines_of(self.docs.as_str());
        let ghost all = lines.deep_view();
        let ghost base = fmt.text();
        let ghost level = fmt.depth();
        let mut i: usize = 0;
        proof {
            assert(all.subrange(0, all.len() as int) =~= all);
        }
        while i < lines.len()
            invariant
                i <= lines.len(),
                all == lines.deep_view(),
                all.len() == lines.len(),
                fmt.depth() == level,
                fmt.text() + doc_lines_out(all.subrange(i as int, all.len() as int), level) == base
                    + doc_lines_out(all, level),
            decreases lines.len() - i,
        {
            let ghost rest = all.subrange(i as int, all.len() as int);
            let ghost prev = fmt.text();
            let mut line = String::new();
            line.append("/// ");
            line.append(lines[i].as_str());
            fmt.write_line(line.as_str());
            proof {
                assert(rest[0] == all[i as int]);
                assert(rest.drop_first() =~= all.subrange(i as int + 1, all.len() as int));
                assert(doc_lines_out(rest, level) == line_at(level, "/// "@ + rest[0])
                    + doc_lines_out(rest.drop_first(), level));
                assert(fmt.text() + doc_lines_out(rest.drop_first(), level) =~= prev
                    + doc_lines_out(rest, level));
            }
            i = i + 1;
        }
        proof {
            assert(all.subrange(all.len() as int, all.len() as int).len() == 0);
            assert(fmt.text() + Seq::<char>::empty() =~= fmt.text());
        }
        Ok(())
    }
}

} // verus!
