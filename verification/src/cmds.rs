//! REPL command definitions: a command's name, the kind of argument it
//! accepts, its help line, and the lookup and help rendering over a command
//! table. The action a command triggers is an opaque value the surrounding
//! application supplies.

use vstd::prelude::*;
use vstd::string::StringExecFns;

verus! {

/// Command arguments variants.
#[derive(Clone, Copy, PartialEq, Eq, Structural, Debug)]
pub enum CmdArgs {
    /// No arguments.
    NoArgs,
    /// Command accepts a local filename.
    Filename,
    /// Optional unprocessed text may be accepted.
    Text,
    /// A Rust expression.
    Expr,
}

/// A command definition. The action is any copyable value the surrounding
/// application dispatches on (typically a function pointer).
pub struct Command<A> {
    /// The command name.
    pub name: String,
    /// Arguments expected type.
    pub arg_type: CmdArgs,
    /// Help string.
    pub help: String,
    /// Action to take.
    pub action: A,
}

/// Mathematical image of a [`Command`].
pub ghost struct CommandV<A> {
    pub name: Seq<char>,
    pub arg_type: CmdArgs,
    pub help: Seq<char>,
    pub action: A,
}

impl<A> View for Command<A> {
    type V = CommandV<A>;

    open spec fn view(&self) -> CommandV<A> {
        CommandV {
            name: self.name@,
            arg_type: self.arg_type,
            help: self.help@,
            action: self.action,
        }
    }
}

impl<A> Command<A> {
    /// A command from its parts.
    pub fn new(name: String, arg_type: CmdArgs, help: String, action: A) -> (r: Command<A>)
        ensures
            r@.name == name@,
            r@.arg_type == arg_type,
            r@.help == help@,
            r@.action == action,
    {
        Command { name, arg_type, help, action }
    }
}

impl<A: Copy> Clone for Command<A> {
    /// An equal command.
    fn clone(&self) -> (r: Self)
        ensures
            r@ == self@,
    {
        Command {
            name: self.name.clone(),
            arg_type: self.arg_type,
            help: self.help.clone(),
            action: self.action,
        }
    }
}

/// The usage hint printed after a command's name.
pub open spec fn arg_hint(a: CmdArgs) -> Seq<char> {
    match a {
        CmdArgs::NoArgs => Seq::empty(),
        CmdArgs::Filename => " <filename>"@,
        CmdArgs::Text => " [text]"@,
        CmdArgs::Expr => " <expr>"@,
    }
}

/// One help line: name, usage hint, a space, the help text, a newline.
pub open spec fn cmd_line<A>(c: CommandV<A>) -> Seq<char> {
    c.name + arg_hint(c.arg_type) + " "@ + c.help + "\n"@
}

/// The help lines of all commands, in table order.
pub open spec fn help_lines<A>(cmds: Seq<CommandV<A>>) -> Seq<char>
    decreases cmds.len(),
{
    if cmds.len() == 0 {
        Seq::empty()
    } else {
        help_lines(cmds.drop_last()) + cmd_line(cmds.last())
    }
}

/// The first command of the table bearing `name`, if any.
pub open spec fn find_cmd<A>(cmds: Seq<CommandV<A>>, name: Seq<char>) -> Option<CommandV<A>>
    decreases cmds.len(),
{
    if cmds.len() == 0 {
        Option::None
    } else if cmds[0].name == name {
        Option::Some(cmds[0])
    } else {
        find_cmd(cmds.drop_first(), name)
    }
}

/// The text a lookup failure reports.
pub open spec fn unrecognized(name: Seq<char>) -> Seq<char> {
    "unrecognized command: "@ + name
}

/// The full help response: the looked-up command's line, the lookup failure
/// text, or — with no command asked for — the heading and every line.
pub open spec fn help_response<A>(cmds: Seq<CommandV<A>>, query: Option<Seq<char>>) -> Seq<char> {
    match query {
        Option::Some(q) => match find_cmd(cmds, q) {
            Option::Some(c) => cmd_line(c),
            Option::None => unrecognized(q),
        },
        Option::None => "Available commands:\n"@ + help_lines(cmds),
    }
}

/// Append one command's help line.
fn append_cmd_line<A>(out: &mut String, c: &Command<A>)
    ensures
        final(out)@ == old(out)@ + cmd_line(c@),
{
    out.append(c.name.as_str());
    match c.arg_type {
        CmdArgs::NoArgs => {},
        CmdArgs::Filename => out.append(" <filename>"),
        CmdArgs::Text => out.append(" [text]"),
        CmdArgs::Expr => out.append(" <expr>"),
    }
    out.append(" ");
    out.append(c.help.as_str());
    out.append("\n");
}

/// A table of commands that can be searched and can describe itself.
pub trait Commands<A>: Sized {
    /// The commands the table holds, in order.
    spec fn cmds_view(&self) -> Seq<CommandV<A>>;

    /// Builds the help string of the commands.
    fn build_help_response(&self, command: Option<&str>) -> (r: String)
        ensures
            r@ == help_response(
                self.cmds_view(),
                match command {
                    Option::Some(c) => Option::Some(c@),
                    Option::None => Option::None,
                },
            ),
    ;

    /// Convenience function to look up the commands and return if found.
    fn find_command(&self, command: &str) -> (r: Result<Command<A>, String>)
        ensures
            (match find_cmd(self.cmds_view(), command@) {
                Option::Some(c) => r matches Result::Ok(rc) && rc@ == c,
                Option::None => r matches Result::Err(e) && e@ == unrecognized(command@),
            }),
    ;
}

impl<A: Copy> Commands<A> for Vec<Command<A>> {
    open spec fn cmds_view(&self) -> Seq<CommandV<A>> {
        self@.map_values(|c: Command<A>| c@)
    }

    fn build_help_response(&self, command: Option<&str>) -> (r: String)
        ensures
            r@ == help_response(
                self.cmds_view(),
                match command {
                    Option::Some(c) => Option::Some(c@),
                    Option::None => Option::None,
                },
            ),
    {
        let mut ret = String::new();
        match command {
            Option::Some(cmd) => {
                match self.find_command(cmd) {
                    Result::Err(e) => ret.append(e.as_str()),
                    Result::Ok(c) => append_cmd_line(&mut ret, &c),
                }
            },
            Option::None => {
                ret.append("Available commands:\n");
                let ghost cmds = self.cmds_view();
                let mut i: usize = 0;
                while i < self.len()
                    invariant
                        i <= self.len(),
                        cmds == self.cmds_view(),
                        ret@ == "Available commands:\n"@ + help_lines(cmds.take(i as int)),
                    decreases self.len() - i,
                {
                    proof {
                        let prefix = cmds.take(i as int + 1);
                        assert(prefix.drop_last() =~= cmds.take(i as int));
                        assert(prefix.last() == cmds[i as int]);
                    }
                    append_cmd_line(&mut ret, &self[i]);
                    i += 1;
                }
                proof {
                    assert(cmds.take(self.len() as int) =~= cmds);
                }
            },
        }
        ret
    }

    fn find_command(&self, command: &str) -> (r: Result<Command<A>, String>)
        ensures
            (match find_cmd(self.cmds_view(), command@) {
                Option::Some(c) => r matches Result::Ok(rc) && rc@ == c,
                Option::None => r matches Result::Err(e) && e@ == unrecognized(command@),
            }),
    {
        let ghost cmds = self.cmds_view();
        proof {
            assert(cmds.skip(0) =~= cmds);
        }
        let mut i: usize = 0;
        while i < self.len()
            invariant
                i <= self.len(),
                cmds == self.cmds_view(),
                find_cmd(cmds.skip(i as int), command@) == find_cmd(cmds, command@),
            decreases self.len() - i,
        {
            let ghost rest = cmds.skip(i as int);
            proof {
                assert(rest[0] == cmds[i as int]);
                assert(rest.drop_first() =~= cmds.skip(i as int + 1));
            }
            if crate::text::str_eq(self[i].name.as_str(), command) {
                return Result::Ok(self[i].clone());
            }
            i += 1;
        }
        proof {
            assert(cmds.skip(self.len() as int) =~= Seq::<CommandV<A>>::empty());
        }
        let mut e = String::new();
        e.append("unrecognized command: ");
        e.append(command);
        proof {
            assert(e@ =~= unrecognized(command@));
        }
        Result::Err(e)
    }
}

} // verus!
