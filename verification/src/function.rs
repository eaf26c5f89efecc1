//! A function declaration: inert data with a one-shot render method.

use vstd::prelude::*;

use crate::formatter::Formatter;
use crate::formatter::RenderError;
use crate::formatter::block_close_at;
use crate::formatter::block_open_at;
use crate::formatter::lines_out;
use crate::text::split_lines;

verus! {

use vstd::string::StringExecFns;

/// A function declaration: a name and the body's lines.
#[derive(Debug, Clone)]
pub struct Function {
    /// The function's name.
    pub name: String,
    /// The body, one entry per line, rendered verbatim inside the braces.
    pub body: Vec<String>,
}

/// The text a function declaration renders to: its signature line, then the
/// body lines one block deeper.
pub open spec fn function_out(f: Function, level: nat) -> Seq<char> {
    block_open_at(level, "fn "@ + f.name@ + "()"@) + lines_out(f.body.deep_view(), level + 1)
        + block_close_at(level)
}

impl Function {
    /// A function declaration with the given name and an empty body.
    pub fn new(name: &str) -> (f: Function)
        ensures
            f.name@ == name@,
            f.body.deep_view() == Seq::<Seq<char>>::empty(),
    {
        let f = Function { name: String::from_str(name), body: Vec::new() };
        proof {
            assert(f.body.deep_view() =~= Seq::<Seq<char>>::empty());
        }
        f
    }

    /// Appends the lines of `line` to the body.
    pub fn line(&mut self, line: &str) -> (r: &mut Function)
        ensures
            (*r).name == old(self).name,
            (*r).body.deep_view() == old(self).body.deep_view() + split_lines(line@),
            *final(self) == *final(r),
    {
        let mut lines = crate::text::lines_of(line);
        let ghost prev = self.body.deep_view();
        self.body.append(&mut lines);
        proof {
            assert(self.body.deep_view() =~= prev + split_lines(line@));
        }
        self
    }

    /// Renders the declaration at the formatter's current depth.
    pub fn fmt(&self, fmt: &mut Formatter) -> (r: Result<(), RenderError>)
        ensures
            r is Ok,
            final(fmt).text() == old(fmt).text() + function_out(*self, old(fmt).depth()),
            final(fmt).depth() == old(fmt).depth(),
    {
        let mut header = String::new();
        header.append("fn ");
        header.append(self.name.as_str());
        header.append("()");
        fmt.open_block(header.as_str());
        fmt.write_lines(&self.body);
        fmt.close_block();
        proof {
            assert(fmt.text() =~= old(fmt).text() + function_out(*self, old(fmt).depth()));
        }
        Ok(())
    }
}

} // verus!
