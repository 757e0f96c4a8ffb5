use vstd::prelude::*;

use crate::text::{decimal, push_decimal, push_str};

verus! {

/// A source position attached to each link of a location stack.
#[derive(Clone, Copy)]
pub struct StaticLocation {
    file: &'static str,
    line: u32,
    column: u32,
}

impl StaticLocation {
    /// The file name.
    pub closed spec fn spec_file(&self) -> Seq<char> {
        self.file@
    }

    /// The line number.
    pub closed spec fn spec_line(&self) -> u32 {
        self.line
    }

    /// The column number.
    pub closed spec fn spec_column(&self) -> u32 {
        self.column
    }

    /// The rendered form `file:line:column`.
    pub open spec fn spec_text(&self) -> Seq<char> {
        self.spec_file() + seq![':'] + decimal(self.spec_line() as nat) + seq![':'] + decimal(
            self.spec_column() as nat,
        )
    }

    pub fn new(file: &'static str, line: u32, column: u32) -> (r: Self)
        ensures
            r.spec_file() == file@,
            r.spec_line() == line,
            r.spec_column() == column,
    {
        StaticLocation { file, line, column }
    }

    pub fn file(&self) -> (r: &'static str)
        ensures
            r@ == self.spec_file(),
    {
        self.file
    }

    pub fn line(&self) -> (r: u32)
        ensures
            r == self.spec_line(),
    {
        self.line
    }

    pub fn column(&self) -> (r: u32)
        ensures
            r == self.spec_column(),
    {
        self.column
    }

    /// Appends the rendered form of this location to `out`.
    pub fn write_text(&self, out: &mut String)
        ensures
            final(out)@ == old(out)@ + self.spec_text(),
    {
        proof {
            reveal_strlit(":");
        }
        let ghost start = out@;
        push_str(out, self.file);
        push_str(out, ":");
        push_decimal(out, self.line as u64);
        push_str(out, ":");
        push_decimal(out, self.column as u64);
        assert(out@ =~= start + self.spec_text());
    }

    /// The rendered form `file:line:column`.
    pub fn to_text(&self) -> (r: String)
        ensures
            r@ == self.spec_text(),
    {
        let mut out = String::new();
        self.write_text(&mut out);
        out
    }
}

} // verus!
