//! Command lines, and the settings that decide whether they are run.
use vstd::prelude::*;

use crate::text;

verus! {

/// The settings of the aqua backend.
pub struct AquaSettings {
    /// Whether provenance and signatures are verified.
    pub slsa: bool,
    /// Whether checksum files are verified with cosign.
    pub cosign: bool,
    /// Arguments that the user adds to each call of cosign.
    pub cosign_extra_args: Option<Vec<String>>,
}

/// A program to be run, with its arguments and with what is added to its environment.
pub struct CommandLine {
    pub program: String,
    pub args: Vec<String>,
    pub envs: Vec<(String, String)>,
}

/// A program to be run, with its arguments and with what is added to its environment.
pub struct CommandLineView {
    pub program: Seq<char>,
    pub args: Seq<Seq<char>>,
    pub envs: Seq<(Seq<char>, Seq<char>)>,
}

impl View for CommandLine {
    type V = CommandLineView;

    open spec fn view(&self) -> CommandLineView {
        CommandLineView {
            program: self.program@,
            args: text::texts(self.args@),
            envs: text::pairs(self.envs@),
        }
    }
}

/// A command line without arguments.
pub open spec fn bare(program: Seq<char>) -> CommandLineView {
    CommandLineView { program, args: Seq::empty(), envs: Seq::empty() }
}

impl CommandLineView {
    /// The command line with one more argument.
    pub open spec fn arg(self, arg: Seq<char>) -> CommandLineView {
        CommandLineView { args: self.args.push(arg), ..self }
    }

    /// The command line with further arguments.
    pub open spec fn args(self, args: Seq<Seq<char>>) -> CommandLineView {
        CommandLineView { args: self.args + args, ..self }
    }

    /// The command line with one more variable in its environment.
    pub open spec fn env(self, name: Seq<char>, value: Seq<char>) -> CommandLineView {
        CommandLineView { envs: self.envs.push((name, value)), ..self }
    }
}

impl CommandLine {
    /// A command line without arguments.
    pub fn new(program: String) -> (r: CommandLine)
        ensures
            r@ == bare(program@),
    {
        let r = CommandLine { program, args: Vec::new(), envs: Vec::new() };
        assert(r@.args =~= Seq::<Seq<char>>::empty());
        assert(r@.envs =~= Seq::<(Seq<char>, Seq<char>)>::empty());
        r
    }

    /// The command line with one more argument.
    pub fn arg(self, arg: &str) -> (r: CommandLine)
        ensures
            r@ == self@.arg(arg@),
    {
        let CommandLine { program, mut args, envs } = self;
        args.push(arg.to_owned());
        assert(text::texts(args@) =~= text::texts(self.args@).push(arg@));
        CommandLine { program, args, envs }
    }

    /// The command line with further arguments.
    pub fn args(self, more: &Vec<String>) -> (r: CommandLine)
        ensures
            r@ == self@.args(text::texts(more@)),
    {
        let mut r = self;
        let mut i: usize = 0;
        assert(self@.args + text::texts(more@).take(0) =~= self@.args);
        while i < more.len()
            invariant
                i <= more@.len(),
                r@ == self@.args(text::texts(more@).take(i as int)),
            decreases more.len() - i,
        {
            r = r.arg(more[i].as_str());
            proof {
                let all = text::texts(more@);
                assert(all.take(i + 1) =~= all.take(i as int).push(more@[i as int]@));
                assert(self@.args + all.take(i + 1) =~= (self@.args + all.take(i as int)).push(
                    more@[i as int]@,
                ));
            }
            i = i + 1;
        }
        assert(text::texts(more@).take(more@.len() as int) =~= text::texts(more@));
        r
    }

    /// The command line with one more variable in its environment.
    pub fn env(self, name: &str, value: &str) -> (r: CommandLine)
        ensures
            r@ == self@.env(name@, value@),
    {
        let CommandLine { program, args, mut envs } = self;
        envs.push((name.to_owned(), value.to_owned()));
        assert(text::pairs(envs@) =~= text::pairs(self.envs@).push((name@, value@)));
        CommandLine { program, args, envs }
    }
}

/// A command line begins without arguments; each argument, and each variable of the environment, goes
/// after those before it.
pub proof fn law_command_line(
    program: Seq<char>,
    args: Seq<Seq<char>>,
    envs: Seq<(Seq<char>, Seq<char>)>,
    arg: Seq<char>,
    more: Seq<Seq<char>>,
    name: Seq<char>,
    value: Seq<char>,
)
    ensures
        bare(program) == (CommandLineView {
            program,
            args: Seq::<Seq<char>>::empty(),
            envs: Seq::<(Seq<char>, Seq<char>)>::empty(),
        }),
        ({
            let command = CommandLineView { program, args, envs };
            &&& command.arg(arg) == (CommandLineView { program, args: args + seq![arg], envs })
            &&& command.args(more) == (CommandLineView { program, args: args + more, envs })
            &&& command.env(name, value) == (CommandLineView {
                program,
                args,
                envs: envs + seq![(name, value)],
            })
        }),
{
    assert(args.push(arg) == args + seq![arg]);
    assert(envs.push((name, value)) == envs + seq![(name, value)]);
}

} // verus!
