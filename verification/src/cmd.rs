//! One program invocation: a program name and its ordered argument list.
//!
//! A `Command` is built directly, grown with `arg` and `args`, or parsed
//! from a command string with `parse_str`. It carries no side effect of its
//! own: nothing happens until it is handed to a pipeline and spawned.

use vstd::prelude::*;

use crate::error::APipeError;
use crate::tokenizer::{
    is_space_char, lemma_blank_line_yields_no_tokens, lemma_tokens_from_nonempty, spec_tokens,
    tokenize,
};

verus! {

/// Appending one string to a vector appends its characters to the deep view.
proof fn lemma_deep_view_push(before: Seq<String>, after: &Vec<String>, item: String)
    requires
        after@ == before.push(item),
    ensures
        after.deep_view() == Seq::new(before.len(), |i: int| before[i]@).push(item@),
{
    let deep = Seq::new(before.len(), |i: int| before[i]@);
    assert forall|i: int| 0 <= i < after.deep_view().len() implies after.deep_view()[i]
        == deep.push(item@)[i] by {
        if i < before.len() {
            assert(after@[i] == before[i]);
        } else {
            assert(after@[i] == item);
        }
    }
    assert(after.deep_view() =~~= deep.push(item@));
}

/// The description of one program invocation.
pub struct Command {
    program: String,
    args: Vec<String>,
}

impl Command {
    /// The program name.
    pub closed spec fn program_spec(&self) -> Seq<char> {
        self.program@
    }

    /// The argument list, in order.
    pub closed spec fn args_spec(&self) -> Seq<Seq<char>> {
        self.args.deep_view()
    }

    /// A command's one invariant: the program name is never empty. The
    /// arguments are opaque strings and may hold anything.
    pub open spec fn wf(&self) -> bool {
        self.program_spec().len() > 0
    }

    /// Holds when this command is exactly what tokenizing `line` yields:
    /// the first token as the program name and the remaining tokens, in
    /// order, as the argument list.
    pub open spec fn parses(self, line: Seq<char>) -> bool {
        &&& spec_tokens(line).len() > 0
        &&& self.program_spec() == spec_tokens(line)[0]
        &&& self.args_spec() == spec_tokens(line).drop_first()
    }

    /// A new command with no argument yet. The program's existence is not
    /// checked here; that is the launcher's business at spawn time.
    pub fn new(program: &str) -> (r: Command)
        requires
            program@.len() > 0,
        ensures
            r.wf(),
            r.program_spec() == program@,
            r.args_spec().len() == 0,
    {
        Command { program: program.to_owned(), args: Vec::new() }
    }

    /// This command with one more argument at the end of the list.
    pub fn arg(self, value: &str) -> (r: Command)
        ensures
            r.program_spec() == self.program_spec(),
            r.args_spec() == self.args_spec().push(value@),
    {
        let ghost orig = self.args.deep_view();
        let mut this = self;
        this.args.push(value.to_owned());
        proof {
            assert(this.args.deep_view() =~~= orig.push(value@));
        }
        this
    }

    /// This command with every given argument appended, in order.
    pub fn args(self, values: &Vec<String>) -> (r: Command)
        ensures
            r.program_spec() == self.program_spec(),
            r.args_spec() == self.args_spec() + values.deep_view(),
    {
        let ghost orig = self.args.deep_view();
        let ghost orig_program = self.program@;
        let mut this = self;
        let mut k: usize = 0;
        while k < values.len()
            invariant
                k <= values.len(),
                this.program@ == orig_program,
                this.args.deep_view() == orig + values.deep_view().take(k as int),
            decreases values.len() - k,
        {
            let item: String = values[k].clone();
            proof {
                assert(item@ == values.deep_view()[k as int]);
            }
            let ghost prev = this.args@;
            let ghost prev_deep = this.args.deep_view();
            let ghost pushed = item;
            this.args.push(item);
            proof {
                lemma_deep_view_push(prev, &this.args, pushed);
                assert(prev_deep =~~= Seq::new(prev.len(), |i: int| prev[i]@));
                assert(this.args.deep_view() =~~= prev_deep.push(pushed@));
                assert(this.args.deep_view() =~~= orig + values.deep_view().take(k + 1));
            }
            k = k + 1;
        }
        proof {
            assert(orig + values.deep_view().take(values.len() as int) =~~= orig
                + values.deep_view());
        }
        this
    }

    /// The program name.
    pub fn get_program(&self) -> (r: &String)
        ensures
            r@ == self.program_spec(),
    {
        &self.program
    }

    /// The argument list, in order.
    pub fn get_args(&self) -> (r: &Vec<String>)
        ensures
            r.deep_view() == self.args_spec(),
    {
        &self.args
    }

    /// Parses a whole command string: the first token names the program,
    /// the remaining tokens are its arguments. A string with no token at
    /// all is rejected, so a parsed command never has an empty program
    /// name.
    pub fn parse_str(line: &str) -> (r: Result<Command, APipeError>)
        ensures
            parse_outcome(line@, r),
    {
        let mut toks = tokenize(line);
        if toks.len() == 0 {
            Err(APipeError::MissingCommand(line.to_owned()))
        } else {
            proof {
                lemma_tokens_from_nonempty(line@, 0);
            }
            let ghost all = toks.deep_view();
            let ghost whole = toks@;
            let program = toks.remove(0);
            proof {
                assert(toks@ =~= whole.subrange(1, whole.len() as int));
                assert(toks.deep_view() =~~= all.drop_first());
            }
            Ok(Command { program, args: toks })
        }
    }
}

/// What `parse_str` returns: a command exactly when the string holds at
/// least one token — it then parses the string and is well formed — and
/// the missing-command error, carrying the string, otherwise.
pub open spec fn parse_outcome(line: Seq<char>, r: Result<Command, APipeError>) -> bool {
    &&& (r is Ok <==> spec_tokens(line).len() > 0)
    &&& (r matches Ok(cmd) ==> cmd.parses(line) && cmd.wf())
    &&& (r matches Err(e) ==> e matches APipeError::MissingCommand(m) && m@ == line)
}

/// A command string that is empty or blank space alone never parses: it
/// fails with the missing-command error carrying that string, and in
/// particular no command with an empty program name is ever handed back.
pub proof fn lemma_blank_line_never_parses(line: Seq<char>, r: Result<Command, APipeError>)
    requires
        forall|k: int| 0 <= k < line.len() ==> is_space_char(line[k]),
        parse_outcome(line, r),
    ensures
        r matches Err(e) && e matches APipeError::MissingCommand(m) && m@ == line,
{
    lemma_blank_line_yields_no_tokens(line);
}

} // verus!
