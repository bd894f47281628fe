//! A call of an external program as a value, so that its argument list can
//! be checked without starting anything.

use vstd::prelude::*;

use crate::paths;
use crate::text::{self, trimmed};

verus! {

/// One call: the program and its arguments, in order.
#[derive(Debug, Clone, PartialEq, Eq)]
pub struct Invocation {
    pub program: String,
    pub args: Vec<String>,
}

/// A program that ran to its end.
#[derive(Debug, Clone, PartialEq, Eq)]
pub struct Completed {
    pub success: bool,
    pub stdout: String,
    pub stderr: String,
}

/// How many characters of the error stream are kept, besides the mark that
/// says the front was cut.
pub const TAIL: usize = 400;

/// The end of a text of errors fit for a message: trimmed, and past
/// `TAIL` characters only the last `TAIL + 1` behind an ellipsis.
pub open spec fn tail_of(stderr: Seq<char>) -> Seq<char> {
    let t = trimmed(stderr);
    if t.len() > TAIL {
        seq!['…'] + t.skip(t.len() - TAIL - 1)
    } else {
        t
    }
}

/// The views of a run of string slices.
pub open spec fn views(v: Seq<&str>) -> Seq<Seq<char>> {
    Seq::new(v.len(), |i: int| v[i]@)
}

impl Invocation {
    /// The views of the arguments.
    pub open spec fn args_of(self) -> Seq<Seq<char>> {
        Seq::new(self.args@.len(), |i: int| self.args@[i]@)
    }

    /// A call of `program` with no arguments yet.
    pub fn new(program: &str) -> (r: Invocation)
        ensures
            r.program@ == program@,
            r.args_of() == Seq::<Seq<char>>::empty(),
    {
        let r = Invocation { program: program.to_owned(), args: Vec::new() };
        assert(r.args_of() =~= Seq::<Seq<char>>::empty());
        r
    }

    /// The same call with one more argument.
    pub fn arg(self, arg: &str) -> (r: Invocation)
        ensures
            r.program@ == self.program@,
            r.args_of() == self.args_of().push(arg@),
    {
        let mut args = self.args;
        let ghost before = args@;
        args.push(arg.to_owned());
        let r = Invocation { program: self.program, args };
        assert(r.args_of() =~= self.args_of().push(arg@));
        r
    }

    /// The same call with more arguments, in order.
    pub fn args(self, more: &[&str]) -> (r: Invocation)
        ensures
            r.program@ == self.program@,
            r.args_of() == self.args_of() + views(more@),
    {
        let mut r = self;
        let ghost start = r.args_of();
        let mut i: usize = 0;
        while i < more.len()
            invariant
                i <= more.len(),
                r.program@ == self.program@,
                r.args_of() == start + views(more@.take(i as int)),
            decreases more.len() - i,
        {
            r = r.arg(more[i]);
            i = i + 1;
            assert(r.args_of() =~= start + views(more@.take(i as int)));
        }
        assert(more@.take(more.len() as int) =~= more@);
        r
    }

    /// The arguments as text, for comparing in tests. Always there: the
    /// arguments are text already.
    pub fn args_as_str(&self) -> (r: Option<Vec<&str>>)
        ensures
            r matches Some(v) && views(v@) == self.args_of(),
    {
        let mut v: Vec<&str> = Vec::new();
        let mut i: usize = 0;
        while i < self.args.len()
            invariant
                i <= self.args@.len(),
                v@.len() == i,
                views(v@) == self.args_of().take(i as int),
            decreases self.args@.len() - i,
        {
            let a: &str = self.args[i].as_str();
            assert(a@ == self.args_of()[i as int]);
            let ghost before = v@;
            v.push(a);
            i = i + 1;
            assert(forall|j: int| 0 <= j < i - 1 ==> views(before)[j] == self.args_of()[j]);
            assert(views(v@) =~= self.args_of().take(i as int));
        }
        assert(self.args_of().take(self.args@.len() as int) =~= self.args_of());
        Some(v)
    }

    /// The name shown in messages: the program's file name, or the whole
    /// path when it has none.
    pub open spec fn name_of(self) -> Seq<char> {
        match paths::file_name(self.program@) {
            Some(n) => n,
            None => self.program@,
        }
    }

    /// The name shown in messages.
    pub fn program_name(&self) -> (r: String)
        ensures
            r@ == self.name_of(),
    {
        let p = text::chars_of(self.program.as_str());
        match paths::file_name_of(p.as_slice()) {
            Some(n) => text::string_of(n.as_slice()),
            None => self.program.clone(),
        }
    }
}

impl Completed {
    /// The end of the error stream, for a message.
    pub fn stderr_tail(&self) -> (r: String)
        ensures
            r@ == tail_of(self.stderr@),
    {
        let t = text::trim(self.stderr.as_str());
        if t.len() > TAIL {
            let mut v: Vec<char> = Vec::new();
            v.push('…');
            let rest = text::slice_chars(t.as_slice(), t.len() - TAIL - 1, t.len());
            text::append_chars(&mut v, rest.as_slice());
            assert(v@ =~= seq!['…'] + t@.skip(t@.len() - TAIL - 1));
            text::string_of(v.as_slice())
        } else {
            text::string_of(t.as_slice())
        }
    }
}

/// The tail of the error stream stays short: at most one character past
/// the limit, and the ellipsis.
pub proof fn lemma_tail_is_short(stderr: Seq<char>)
    ensures
        tail_of(stderr).len() <= TAIL + 2,
        tail_of(stderr).len() <= trimmed(stderr).len() + 1,
{
}

} // verus!
