//! How a command line is described: each command with its arguments and
//! its sub-commands.

use crate::api::{lemma_views_push, text_view, views};
use vstd::prelude::*;

verus! {

/// One argument of a command, as the command line offers it.
#[derive(Debug, PartialEq, Eq)]
pub struct ArgSpec {
    /// The name under which the value is found once it was given.
    pub id: String,
    /// The letter behind one hyphen that introduces the value, if any.
    pub short: Option<char>,
    /// The word behind two hyphens that introduces the value, if any. An
    /// argument with neither a letter nor a word is given by its place.
    pub long: Option<String>,
    /// Whether the command is refused without the argument.
    pub required: bool,
}

/// What a value of [`ArgSpec`] is in contracts: each text as the sequence of
/// its characters, each list as the sequence of its items.
pub struct ArgSpecView {
    pub id: Seq<char>,
    pub short: Option<char>,
    pub long: Option<Seq<char>>,
    pub required: bool,
}

impl View for ArgSpec {
    type V = ArgSpecView;

    open spec fn view(&self) -> ArgSpecView {
        ArgSpecView {
            id: self.id@,
            short: self.short,
            long: match self.long {
                Some(word) => Some(word@),
                None => None,
            },
            required: self.required,
        }
    }
}

impl Clone for ArgSpec {
    fn clone(&self) -> (r: ArgSpec)
        ensures
            r@ == self@,
    {
        ArgSpec {
            id: self.id.clone(),
            short: self.short,
            long: match &self.long {
                Some(word) => Some(word.clone()),
                None => None,
            },
            required: self.required,
        }
    }
}

impl ArgSpecView {
    /// An argument that is given by its place.
    pub open spec fn positional(id: Seq<char>, required: bool) -> ArgSpecView {
        ArgSpecView { id, short: None, long: None, required }
    }

    /// An argument that is introduced by the word `id` behind two hyphens.
    pub open spec fn option(id: Seq<char>, required: bool) -> ArgSpecView {
        ArgSpecView { id, short: None, long: Some(id), required }
    }

    /// An argument that is introduced by the word `id` behind two hyphens
    /// or by the letter `short` behind one.
    pub open spec fn short_option(id: Seq<char>, short: char, required: bool) -> ArgSpecView {
        ArgSpecView { id, short: Some(short), long: Some(id), required }
    }
}

impl ArgSpec {
    /// An argument that is given by its place and may be left out.
    pub fn new(id: &str) -> (r: ArgSpec)
        ensures
            r@ == ArgSpecView::positional(id@, false),
    {
        ArgSpec { id: id.to_string(), short: None, long: None, required: false }
    }

    /// The argument, introduced by `letter` behind one hyphen.
    pub fn short(self, letter: char) -> (r: ArgSpec)
        ensures
            r@ == (ArgSpecView { short: Some(letter), ..self@ }),
    {
        ArgSpec { id: self.id, short: Some(letter), long: self.long, required: self.required }
    }

    /// The argument, introduced by `word` behind two hyphens.
    pub fn long(self, word: &str) -> (r: ArgSpec)
        ensures
            r@ == (ArgSpecView { long: Some(word@), ..self@ }),
    {
        ArgSpec {
            id: self.id,
            short: self.short,
            long: Some(word.to_string()),
            required: self.required,
        }
    }

    /// The argument, required or not as `required` says.
    pub fn required(self, required: bool) -> (r: ArgSpec)
        ensures
            r@ == (ArgSpecView { required: required, ..self@ }),
    {
        ArgSpec { id: self.id, short: self.short, long: self.long, required }
    }
}

/// A command as the command line offers it: its name, what is said of it,
/// its arguments and its sub-commands.
#[derive(Debug, PartialEq, Eq)]
pub struct CommandSpec {
    pub name: String,
    pub version: Option<String>,
    pub author: Option<String>,
    pub about: Option<String>,
    /// Whether help is shown where the command is given nothing.
    pub arg_required_else_help: bool,
    pub args: Vec<ArgSpec>,
    pub subcommands: Vec<CommandSpec>,
}

/// What a value of [`CommandSpec`] is in contracts: each text as the
/// sequence of its characters, the arguments and the sub-commands as
/// sequences of their views.
pub struct CommandSpecView {
    pub name: Seq<char>,
    pub version: Option<Seq<char>>,
    pub author: Option<Seq<char>>,
    pub about: Option<Seq<char>>,
    pub arg_required_else_help: bool,
    pub args: Seq<ArgSpecView>,
    pub subcommands: Seq<CommandSpecView>,
}

/// The view of `command`.
pub open spec fn command_view(command: CommandSpec) -> CommandSpecView
    decreases command,
{
    CommandSpecView {
        name: command.name@,
        version: text_view(command.version),
        author: text_view(command.author),
        about: text_view(command.about),
        arg_required_else_help: command.arg_required_else_help,
        args: views(command.args@),
        subcommands: Seq::new(
            command.subcommands@.len(),
            |i: int|
                if 0 <= i < command.subcommands@.len() {
                    command_view(command.subcommands@[i])
                } else {
                    arbitrary()
                },
        ),
    }
}

impl View for CommandSpec {
    type V = CommandSpecView;

    open spec fn view(&self) -> CommandSpecView {
        command_view(*self)
    }
}

impl CommandSpecView {
    /// The command that is called `name`, takes the arguments `args`, and
    /// has nothing else: no sub-command and nothing said of it.
    pub open spec fn plain(name: Seq<char>, args: Seq<ArgSpecView>) -> CommandSpecView {
        CommandSpecView {
            name,
            version: None,
            author: None,
            about: None,
            arg_required_else_help: false,
            args,
            subcommands: Seq::empty(),
        }
    }

    /// The command that is called `name` and has the sub-commands
    /// `subcommands`, but no arguments and nothing said of it.
    pub open spec fn group(name: Seq<char>, subcommands: Seq<CommandSpecView>) -> CommandSpecView {
        CommandSpecView { subcommands, ..CommandSpecView::plain(name, Seq::empty()) }
    }
}

/// The views of the sub-commands of a command are the sub-commands of its
/// view.
pub proof fn lemma_subcommand_views(command: CommandSpec)
    ensures
        command@.subcommands.len() == command.subcommands@.len(),
        forall|i: int|
            0 <= i < command.subcommands@.len() ==> #[trigger] command@.subcommands[i]
                == command.subcommands@[i]@,
{
}

impl CommandSpec {
    /// A command without arguments and sub-commands, of which nothing is
    /// said.
    pub fn new(name: &str) -> (r: CommandSpec)
        ensures
            r@ == CommandSpecView::plain(name@, Seq::empty()),
    {
        let r = CommandSpec {
            name: name.to_string(),
            version: None,
            author: None,
            about: None,
            arg_required_else_help: false,
            args: Vec::new(),
            subcommands: Vec::new(),
        };
        assert(r@.args =~= Seq::<ArgSpecView>::empty());
        assert(r@.subcommands =~= Seq::<CommandSpecView>::empty());
        r
    }

    /// The command with its version.
    pub fn version(self, version: &str) -> (r: CommandSpec)
        ensures
            r@ == (CommandSpecView { version: Some(version@), ..self@ }),
    {
        let mut r = self;
        r.version = Some(version.to_string());
        r
    }

    /// The command with its author.
    pub fn author(self, author: &str) -> (r: CommandSpec)
        ensures
            r@ == (CommandSpecView { author: Some(author@), ..self@ }),
    {
        let mut r = self;
        r.author = Some(author.to_string());
        r
    }

    /// The command with a line on what it is for.
    pub fn about(self, about: &str) -> (r: CommandSpec)
        ensures
            r@ == (CommandSpecView { about: Some(about@), ..self@ }),
    {
        let mut r = self;
        r.about = Some(about.to_string());
        r
    }

    /// The command, showing help where it is given nothing or not, as
    /// `yes` says.
    pub fn arg_required_else_help(self, yes: bool) -> (r: CommandSpec)
        ensures
            r@ == (CommandSpecView { arg_required_else_help: yes, ..self@ }),
    {
        let mut r = self;
        r.arg_required_else_help = yes;
        r
    }

    /// The command with `subcommand` behind its sub-commands.
    pub fn subcommand(self, subcommand: CommandSpec) -> (r: CommandSpec)
        ensures
            r@ == (CommandSpecView {
                subcommands: self@.subcommands.push(subcommand@),
                ..self@
            }),
    {
        let mut r = self;
        r.subcommands.push(subcommand);
        proof {
            lemma_subcommand_views(self);
            lemma_subcommand_views(r);
            assert(r@.subcommands =~= self@.subcommands.push(subcommand@));
        }
        r
    }

    /// The command with `args` behind its arguments.
    pub fn args<const N: usize>(self, args: [ArgSpec; N]) -> (r: CommandSpec)
        ensures
            r@ == (CommandSpecView { args: self@.args + views(args@), ..self@ }),
    {
        let mut r = self;
        let mut i: usize = 0;
        assert(self@.args + views(args@.take(0)) =~= self@.args);
        while i < N
            invariant
                i <= N,
                r@ == (CommandSpecView {
                    args: self@.args + views(args@.take(i as int)),
                    ..self@
                }),
            decreases N - i,
        {
            let arg = args[i].clone();
            proof {
                lemma_views_push(r.args@, arg);
                assert(args@.take(i as int + 1) =~= args@.take(i as int).push(args@[i as int]));
                lemma_views_push(args@.take(i as int), args@[i as int]);
                assert(views(r.args@).push(arg@) =~= self@.args + views(
                    args@.take(i as int + 1),
                ));
            }
            r.args.push(arg);
            i += 1;
        }
        assert(args@.take(N as int) =~= args@);
        r
    }
}

} // verus!
