//! The indentation-aware text sink that every renderer writes through.
//!
//! A `Formatter` owns the output buffer, so a write can never be rejected by
//! an underlying sink; rendering is therefore infallible, and every render
//! method returns `Ok`. The `RenderError` type exists so that render methods
//! keep the conventional `Result` shape, but no value of it is ever made.

use vstd::prelude::*;

verus! {

use vstd::string::StringExecFns;

/// The error type of the render methods. The formatter writes into an owned
/// buffer, so no render in this crate ever produces one.
#[derive(Debug)]
pub struct RenderError;

/// One indentation unit: four spaces per open block.
pub open spec fn spaces(n: nat) -> Seq<char> {
    Seq::new(n, |i: int| ' ')
}

/// The text `write_line` emits at depth `level`: the indentation, the line
/// body, and a newline. An empty line carries no indentation.
pub open spec fn line_at(level: nat, s: Seq<char>) -> Seq<char> {
    if s.len() == 0 {
        seq!['\n']
    } else {
        spaces(4 * level) + s + seq!['\n']
    }
}

/// The given lines, each written at depth `level`.
pub open spec fn lines_out(lines: Seq<Seq<char>>, level: nat) -> Seq<char>
    decreases lines.len(),
{
    if lines.len() == 0 {
        Seq::empty()
    } else {
        line_at(level, lines[0]) + lines_out(lines.drop_first(), level)
    }
}

/// The text `open_block` emits at depth `level` for a given header.
pub open spec fn block_open_at(level: nat, header: Seq<char>) -> Seq<char> {
    line_at(level, header + " {"@)
}

/// The text `close_block` emits once the depth has returned to `level`.
pub open spec fn block_close_at(level: nat) -> Seq<char> {
    line_at(level, "}"@)
}

/// Owns the output text and the current indentation depth.
///
/// Every line written while `depth()` is `N` is prefixed by exactly `N`
/// indentation units; `open_block` and `close_block` move the depth up and
/// down by one. The depth is kept as one marker per open block rather than a
/// counter, so opening a block needs no overflow precondition.
pub struct Formatter {
    out: String,
    open_blocks: Vec<()>,
}

impl Formatter {
    /// The text written so far.
    pub closed spec fn text(&self) -> Seq<char> {
        self.out@
    }

    /// The current indentation depth, in blocks.
    pub closed spec fn depth(&self) -> nat {
        self.open_blocks@.len()
    }

    /// A fresh formatter: no text, depth zero.
    pub fn new() -> (f: Formatter)
        ensures
            f.text() == Seq::<char>::empty(),
            f.depth() == 0,
    {
        Formatter { out: String::new(), open_blocks: Vec::new() }
    }

    /// Hands the accumulated text out; the formatter is spent.
    pub fn into_string(self) -> (s: String)
        ensures
            s@ == self.text(),
    {
        self.out
    }

    /// Writes one line: the current indentation, then `s`, then a newline.
    pub fn write_line(&mut self, s: &str)
        ensures
            final(self).text() == old(self).text() + line_at(old(self).depth(), s@),
            final(self).depth() == old(self).depth(),
    {
        if s.is_empty() {
            self.out.append("\n");
            proof {
                reveal_strlit("\n");
                assert(self.out@ =~= old(self).out@ + line_at(old(self).depth(), s@));
            }
            return ;
        }
        let n = self.open_blocks.len();
        let mut i: usize = 0;
        while i < n
            invariant
                i <= n,
                n == self.open_blocks@.len(),
                self.open_blocks@ == old(self).open_blocks@,
                self.out@ == old(self).out@ + spaces(4 * i as nat),
            decreases n - i,
        {
            self.out.append("    ");
            proof {
                reveal_strlit("    ");
                assert(old(self).out@ + spaces(4 * (i as nat + 1)) =~= old(self).out@ + spaces(
                    4 * i as nat,
                ) + "    "@);
            }
            i = i + 1;
        }
        self.out.append(s);
        self.out.append("\n");
        proof {
            reveal_strlit("\n");
            assert(self.out@ =~= old(self).out@ + line_at(old(self).depth(), s@));
        }
    }

    /// Writes each of the given lines at the current depth.
    pub fn write_lines(&mut self, lines: &Vec<String>)
        ensures
            final(self).text() == old(self).text() + lines_out(
                lines.deep_view(),
                old(self).depth(),
            ),
            final(self).depth() == old(self).depth(),
    {
        let ghost all = lines.deep_view();
        let ghost base = self.text();
        let ghost level = self.depth();
        let mut i: usize = 0;
        proof {
            assert(all.subrange(0, all.len() as int) =~= all);
        }
        while i < lines.len()
            invariant
                i <= lines.len(),
                all == lines.deep_view(),
                all.len() == lines.len(),
                self.depth() == level,
                self.text() + lines_out(all.subrange(i as int, all.len() as int), level) == base
                    + lines_out(all, level),
            decreases lines.len() - i,
        {
            let ghost rest = all.subrange(i as int, all.len() as int);
            let ghost prev = self.text();
            self.write_line(lines[i].as_str());
            proof {
                assert(rest[0] == all[i as int]);
                assert(rest.drop_first() =~= all.subrange(i as int + 1, all.len() as int));
                assert(lines_out(rest, level) == line_at(level, rest[0]) + lines_out(
                    rest.drop_first(),
                    level,
                ));
                assert(self.text() + lines_out(rest.drop_first(), level) =~= prev + lines_out(
                    rest,
                    level,
                ));
            }
            i = i + 1;
        }
        proof {
            assert(all.subrange(all.len() as int, all.len() as int).len() == 0);
            assert(self.text() + Seq::<char>::empty() =~= self.text());
        }
    }

    /// Writes a bare newline, with no indentation: the blank separator line.
    pub fn blank_line(&mut self)
        ensures
            final(self).text() == old(self).text() + seq!['\n'],
            final(self).depth() == old(self).depth(),
    {
        self.out.append("\n");
        proof {
            reveal_strlit("\n");
            assert(self.out@ =~= old(self).out@ + seq!['\n']);
        }
    }

    /// Writes the header line with an opening brace and goes one level deeper.
    pub fn open_block(&mut self, header: &str)
        ensures
            final(self).text() == old(self).text() + block_open_at(old(self).depth(), header@),
            final(self).depth() == old(self).depth() + 1,
    {
        let mut line = String::new();
        line.append(header);
        line.append(" {");
        self.write_line(line.as_str());
        self.open_blocks.push(());
    }

    /// Comes back up one level and writes the closing brace at that depth.
    pub fn close_block(&mut self)
        requires
            old(self).depth() >= 1,
        ensures
            final(self).text() == old(self).text() + block_close_at(
                (old(self).depth() - 1) as nat,
            ),
            final(self).depth() == old(self).depth() - 1,
    {
        let _ = self.open_blocks.pop();
        self.write_line("}");
    }
}

} // verus!
