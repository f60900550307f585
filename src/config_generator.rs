use vstd::prelude::*;

use crate::text::{push_char, push_text, same_text};

verus! {

/// Declares `std::io::Error`, which an error of this module carries.
#[verifier::external_type_specification]
#[verifier::external_body]
pub struct ExIoError(std::io::Error);

/// What an [ArgumentDescription] holds.
pub struct ArgumentView {
    pub name: Seq<char>,
    pub value: Seq<char>,
    pub description: Option<Seq<char>>,
    pub is_flag: bool,
    pub default_value: Option<Seq<char>>,
}

/// The view of an optional string.
pub open spec fn opt_string_view(v: Option<String>) -> Option<Seq<char>> {
    match v {
        Some(s) => Some(s@),
        None => None,
    }
}

/// One command-line argument of a check command.
pub struct ArgumentDescription {
    name: String,
    value: String,
    description: Option<String>,
    is_flag: bool,
    default_value: Option<String>,
}

impl View for ArgumentDescription {
    type V = ArgumentView;

    closed spec fn view(&self) -> ArgumentView {
        ArgumentView {
            name: self.name@,
            value: self.value@,
            description: opt_string_view(self.description),
            is_flag: self.is_flag,
            default_value: opt_string_view(self.default_value),
        }
    }
}

/// The command-line arguments of a check command, from which an Icinga `CheckCommand` object is
/// written.
pub struct CommandDescription {
    arguments: Vec<ArgumentDescription>,
}

impl View for CommandDescription {
    type V = Seq<ArgumentView>;

    closed spec fn view(&self) -> Seq<ArgumentView> {
        self.arguments@.map_values(|a: ArgumentDescription| a@)
    }
}

/// This error is returned when the check command configuration cannot be written.
pub enum ToIcingaCommandError {
    /// The path of the running executable could not be read.
    Io(std::io::Error),
    /// The path of the running executable is not valid Unicode.
    InvalidExecutablePath,
    /// The arguments could not be described.
    CommandDescriptionFromError(CommandDescriptionFromError),
}

/// This error is returned when an argument cannot be described.
#[derive(Copy, Clone, Debug, PartialEq, Eq, Structural)]
pub enum CommandDescriptionFromError {
    /// The argument has no long form.
    MissingLongArgument,
}

/// A text with a backslash before every `"` and every `$`.
pub open spec fn escaped(s: Seq<char>) -> Seq<char>
    decreases s.len(),
{
    if s.len() == 0 {
        seq![]
    } else {
        let c = s.last();
        if c == '"' || c == '$' {
            escaped(s.drop_last()).push('\\').push(c)
        } else {
            escaped(s.drop_last()).push(c)
        }
    }
}

/// Puts a backslash before every `"` and every `$`, for a string in the Icinga configuration
/// language.
pub fn escape_string(s: &str) -> (r: String)
    ensures
        r@ == escaped(s@),
{
    let mut out = String::new();
    let n = s.unicode_len();
    let mut i: usize = 0;
    while i < n
        invariant
            n == s@.len(),
            i <= n,
            out@ == escaped(s@.subrange(0, i as int)),
        decreases n - i,
    {
        let c = s.get_char(i);
        assert(s@.subrange(0, i + 1).drop_last() =~= s@.subrange(0, i as int));
        if c == '"' || c == '$' {
            push_char(&mut out, '\\');
        }
        push_char(&mut out, c);
        i += 1;
    }
    assert(s@.subrange(0, n as int) =~= s@);
    out
}

/// The block of one argument in the `arguments` dictionary.
pub open spec fn argument_block(a: ArgumentView) -> Seq<char> {
    "  \""@ + a.name + "\" = {\n"@ + (if a.is_flag {
        "    set_if = \"$"@
    } else {
        "    value = \"$"@
    }) + a.value + "$\"\n"@ + match a.description {
        Some(d) => "    description = \""@ + escaped(d) + "\"\n"@,
        None => seq![],
    } + "  }\n"@
}

/// The blocks of all arguments, in order.
pub open spec fn argument_blocks(args: Seq<ArgumentView>) -> Seq<char>
    decreases args.len(),
{
    if args.len() == 0 {
        seq![]
    } else {
        argument_blocks(args.drop_last()) + argument_block(args.last())
    }
}

/// The default value line of an argument, if it has a default value.
pub open spec fn default_line(a: ArgumentView) -> Seq<char> {
    match a.default_value {
        Some(d) => "  vars."@ + a.value + " = \""@ + escaped(d) + "\"\n"@,
        None => seq![],
    }
}

/// The default value lines of all arguments, in order.
pub open spec fn default_lines(args: Seq<ArgumentView>) -> Seq<char>
    decreases args.len(),
{
    if args.len() == 0 {
        seq![]
    } else {
        default_lines(args.drop_last()) + default_line(args.last())
    }
}

/// The `CheckCommand` object for a command named `name` that runs the executable `exe`.
pub open spec fn icinga_command(name: Seq<char>, exe: Seq<char>, args: Seq<ArgumentView>) -> Seq<
    char,
> {
    "object CheckCommand \""@ + name + "\" {\n"@ + "  command = [ \""@ + exe + "\" ]\n"@
        + "  arguments = {\n"@ + argument_blocks(args) + "\n"@ + default_lines(args) + "}\n"@
}

impl ArgumentDescription {
    /// Appends the block of this argument.
    fn push_block(&self, out: &mut String)
        ensures
            final(out)@ == old(out)@ + argument_block(self@),
    {
        push_text(out, "  \"");
        push_text(out, self.name.as_str());
        push_text(out, "\" = {\n");
        if self.is_flag {
            push_text(out, "    set_if = \"$");
        } else {
            push_text(out, "    value = \"$");
        }
        push_text(out, self.value.as_str());
        push_text(out, "$\"\n");
        match &self.description {
            Some(d) => {
                push_text(out, "    description = \"");
                let e = escape_string(d.as_str());
                push_text(out, e.as_str());
                push_text(out, "\"\n");
            },
            None => {},
        }
        push_text(out, "  }\n");
        assert(final(out)@ =~= old(out)@ + argument_block(self@));
    }

    /// Appends the default value line of this argument.
    fn push_default(&self, out: &mut String)
        ensures
            final(out)@ == old(out)@ + default_line(self@),
    {
        match &self.default_value {
            Some(d) => {
                push_text(out, "  vars.");
                push_text(out, self.value.as_str());
                push_text(out, " = \"");
                let e = escape_string(d.as_str());
                push_text(out, e.as_str());
                push_text(out, "\"\n");
                assert(final(out)@ =~= old(out)@ + default_line(self@));
            },
            None => {
                assert(final(out)@ =~= old(out)@ + default_line(self@));
            },
        }
    }
}

impl CommandDescription {
    /// Writes the Icinga `CheckCommand` object named `name` for these arguments. `current_exe` is
    /// the path of the running executable, absent when that path is not valid Unicode.
    pub fn to_icinga_command(&self, name: &str, current_exe: Option<&str>) -> (r: Result<
        String,
        ToIcingaCommandError,
    >)
        ensures
            current_exe is None <==> r matches Err(ToIcingaCommandError::InvalidExecutablePath),
            r is Ok <==> current_exe is Some,
            r matches Ok(s) ==> s@ == icinga_command(name@, current_exe->0@, self@),
    {
        let exe = match current_exe {
            Some(e) => e,
            None => {
                return Err(ToIcingaCommandError::InvalidExecutablePath);
            },
        };
        let mut out = String::new();
        push_text(&mut out, "object CheckCommand \"");
        push_text(&mut out, name);
        push_text(&mut out, "\" {\n");
        push_text(&mut out, "  command = [ \"");
        push_text(&mut out, exe);
        push_text(&mut out, "\" ]\n");
        push_text(&mut out, "  arguments = {\n");
        let ghost head = out@;
        let n = self.arguments.len();
        let mut i: usize = 0;
        while i < n
            invariant
                n == self.arguments.len(),
                i <= n,
                out@ == head + argument_blocks(self@.subrange(0, i as int)),
            decreases n - i,
        {
            assert(self@.subrange(0, i + 1).drop_last() =~= self@.subrange(0, i as int));
            assert(self@[i as int] == self.arguments[i as int]@);
            self.arguments[i].push_block(&mut out);
            assert(out@ =~= head + argument_blocks(self@.subrange(0, i + 1)));
            i += 1;
        }
        assert(self@.subrange(0, n as int) =~= self@);
        push_text(&mut out, "\n");
        let ghost middle = out@;
        let mut i: usize = 0;
        while i < n
            invariant
                n == self.arguments.len(),
                i <= n,
                out@ == middle + default_lines(self@.subrange(0, i as int)),
            decreases n - i,
        {
            assert(self@.subrange(0, i + 1).drop_last() =~= self@.subrange(0, i as int));
            assert(self@[i as int] == self.arguments[i as int]@);
            self.arguments[i].push_default(&mut out);
            assert(out@ =~= middle + default_lines(self@.subrange(0, i + 1)));
            i += 1;
        }
        push_text(&mut out, "}\n");
        assert(out@ =~= icinga_command(name@, exe@, self@));
        Ok(out)
    }
}

/// What the description of an argument is made from, as plain values: its long name, its help
/// text, the names of its possible values, and its default values (each absent where it is not
/// valid Unicode).
pub struct ArgumentSchema {
    pub long: Option<String>,
    pub help: Option<String>,
    pub possible_values: Vec<String>,
    pub default_values: Vec<Option<String>>,
}

/// What an [ArgumentSchema] holds.
pub struct ArgumentSchemaView {
    pub long: Option<Seq<char>>,
    pub help: Option<Seq<char>>,
    pub possible_values: Seq<Seq<char>>,
    pub default_values: Seq<Option<Seq<char>>>,
}

impl View for ArgumentSchema {
    type V = ArgumentSchemaView;

    open spec fn view(&self) -> ArgumentSchemaView {
        ArgumentSchemaView {
            long: opt_string_view(self.long),
            help: opt_string_view(self.help),
            possible_values: self.possible_values@.map_values(|v: String| v@),
            default_values: self.default_values@.map_values(|v: Option<String>| opt_string_view(v)),
        }
    }
}

/// The views of a list of argument schemas.
pub open spec fn schema_views(args: Seq<ArgumentSchema>) -> Seq<ArgumentSchemaView> {
    args.map_values(|a: ArgumentSchema| a@)
}

/// A name with every `-` replaced by `_`.
pub open spec fn dashes_to_underscores(s: Seq<char>) -> Seq<char>
    decreases s.len(),
{
    if s.len() == 0 {
        seq![]
    } else {
        dashes_to_underscores(s.drop_last()).push(
            if s.last() == '-' {
                '_'
            } else {
                s.last()
            },
        )
    }
}

/// An argument is a flag when its possible values are exactly `true` and `false`.
pub open spec fn is_flag_values(values: Seq<Seq<char>>) -> bool {
    values.len() == 2 && values.contains("true"@) && values.contains("false"@)
}

/// The first default value, if there is one and it is valid Unicode.
pub open spec fn first_default(values: Seq<Option<Seq<char>>>) -> Option<Seq<char>> {
    if values.len() == 0 {
        None
    } else {
        values[0]
    }
}

/// The description of an argument that has a long name.
pub open spec fn described(a: ArgumentSchemaView) -> ArgumentView {
    ArgumentView {
        name: a.long->0,
        value: dashes_to_underscores(a.long->0),
        description: a.help,
        is_flag: is_flag_values(a.possible_values),
        default_value: first_default(a.default_values),
    }
}

/// Whether some argument lacks a long name.
pub open spec fn some_long_missing(args: Seq<ArgumentSchemaView>) -> bool {
    exists|i: int| 0 <= i < args.len() && (#[trigger] args[i]).long is None
}

/// Copies an optional string.
fn copy_opt(v: &Option<String>) -> (r: Option<String>)
    ensures
        opt_string_view(r) == opt_string_view(*v),
{
    match v {
        Some(s) => Some(s.clone()),
        None => None,
    }
}

/// Replaces every `-` by `_`.
fn underscored(s: &str) -> (r: String)
    ensures
        r@ == dashes_to_underscores(s@),
{
    let mut out = String::new();
    let n = s.unicode_len();
    let mut i: usize = 0;
    while i < n
        invariant
            n == s@.len(),
            i <= n,
            out@ == dashes_to_underscores(s@.subrange(0, i as int)),
        decreases n - i,
    {
        let c = s.get_char(i);
        assert(s@.subrange(0, i + 1).drop_last() =~= s@.subrange(0, i as int));
        if c == '-' {
            push_char(&mut out, '_');
        } else {
            push_char(&mut out, c);
        }
        i += 1;
    }
    assert(s@.subrange(0, n as int) =~= s@);
    out
}

/// Whether one of `values` is `t`.
fn contains_text(values: &Vec<String>, t: &str) -> (r: bool)
    ensures
        r == values@.map_values(|v: String| v@).contains(t@),
{
    let ghost views = values@.map_values(|v: String| v@);
    let mut i: usize = 0;
    while i < values.len()
        invariant
            views == values@.map_values(|v: String| v@),
            i <= values.len(),
            forall|k: int| 0 <= k < i ==> views[k] != t@,
        decreases values.len() - i,
    {
        if same_text(values[i].as_str(), t) {
            assert(views[i as int] == t@);
            return true;
        }
        i += 1;
    }
    false
}

impl ArgumentSchema {
    /// Describes this argument; `None` when it has no long name.
    fn describe(&self) -> (r: Option<ArgumentDescription>)
        ensures
            r is None <==> self@.long is None,
            r matches Some(d) ==> d@ == described(self@),
    {
        let long = match &self.long {
            Some(l) => l,
            None => {
                return None;
            },
        };
        proof {
            reveal_strlit("true");
            reveal_strlit("false");
        }
        let is_flag = self.possible_values.len() == 2 && contains_text(&self.possible_values, "true")
            && contains_text(&self.possible_values, "false");
        let default_value = if self.default_values.len() == 0 {
            None
        } else {
            copy_opt(&self.default_values[0])
        };
        Some(
            ArgumentDescription {
                name: long.clone(),
                value: underscored(long.as_str()),
                description: copy_opt(&self.help),
                is_flag,
                default_value,
            },
        )
    }
}

impl CommandDescription {
    /// Describes the arguments of a command, in order. Fails when an argument has no long name.
    pub fn from_arguments(args: &Vec<ArgumentSchema>) -> (r: Result<
        CommandDescription,
        CommandDescriptionFromError,
    >)
        ensures
            r is Err <==> some_long_missing(schema_views(args@)),
            r matches Err(e) ==> e == CommandDescriptionFromError::MissingLongArgument,
            r matches Ok(d) ==> d@ == schema_views(args@).map_values(
                |a: ArgumentSchemaView| described(a),
            ),
    {
        let ghost views = schema_views(args@);
        let mut arguments: Vec<ArgumentDescription> = Vec::new();
        let mut i: usize = 0;
        while i < args.len()
            invariant
                views == schema_views(args@),
                i <= args.len(),
                arguments.len() == i,
                forall|k: int| 0 <= k < i ==> (#[trigger] views[k]).long is Some,
                forall|k: int| 0 <= k < i ==> (#[trigger] arguments@[k])@ == described(views[k]),
            decreases args.len() - i,
        {
            match args[i].describe() {
                Some(d) => {
                    arguments.push(d);
                },
                None => {
                    assert(views[i as int].long is None);
                    return Err(CommandDescriptionFromError::MissingLongArgument);
                },
            }
            i += 1;
        }
        let r = CommandDescription { arguments };
        assert(r@ =~= views.map_values(|a: ArgumentSchemaView| described(a)));
        Ok(r)
    }
}

/// Declares `clap::Command`, the argument schema of a command-line program.
#[verifier::external_type_specification]
#[verifier::external_body]
pub struct ExCommand(clap::Command);

/// Declares `clap::Arg`, one argument of a `clap::Command`.
#[verifier::external_type_specification]
#[verifier::external_body]
pub struct ExArg(clap::Arg);

/// Relies on `clap::Command::get_arguments`: the arguments of the command, in order.
#[verifier::external_body]
fn command_arguments(cmd: &clap::Command) -> Vec<&clap::Arg> {
    cmd.get_arguments().collect()
}

/// Relies on `clap::Arg::get_long`: the long name of the argument, if it has one.
#[verifier::external_body]
fn arg_long(arg: &clap::Arg) -> Option<String> {
    arg.get_long().map(|s| s.to_owned())
}

/// Relies on `clap::Arg::get_help`: the help text of the argument, if it has one.
#[verifier::external_body]
fn arg_help(arg: &clap::Arg) -> Option<String> {
    arg.get_help().map(|s| s.to_string())
}

/// Relies on `clap::Arg::get_possible_values`: the names of the values the argument accepts.
#[verifier::external_body]
fn arg_possible_values(arg: &clap::Arg) -> Vec<String> {
    arg.get_possible_values().iter().map(|v| v.get_name().to_owned()).collect()
}

/// Relies on `clap::Arg::get_default_values`: the default values of the argument, each absent
/// where it is not valid Unicode.
#[verifier::external_body]
fn arg_default_values(arg: &clap::Arg) -> Vec<Option<String>> {
    arg.get_default_values().iter().map(|v| v.to_str().map(|s| s.to_owned())).collect()
}

impl CommandDescription {
    /// Describes the arguments of a clap command. Fails when an argument has no long name.
    pub fn from_command(cmd: &clap::Command) -> (r: Result<
        CommandDescription,
        CommandDescriptionFromError,
    >)
        ensures
            r matches Err(e) ==> e == CommandDescriptionFromError::MissingLongArgument,
    {
        let args = command_arguments(cmd);
        let mut schemas: Vec<ArgumentSchema> = Vec::new();
        let mut i: usize = 0;
        while i < args.len()
            decreases args.len() - i,
        {
            let arg = args[i];
            schemas.push(
                ArgumentSchema {
                    long: arg_long(arg),
                    help: arg_help(arg),
                    possible_values: arg_possible_values(arg),
                    default_values: arg_default_values(arg),
                },
            );
            i += 1;
        }
        CommandDescription::from_arguments(&schemas)
    }
}

impl<'a> TryFrom<&'a clap::Command> for CommandDescription {
    type Error = CommandDescriptionFromError;

    fn try_from(cmd: &'a clap::Command) -> (r: Result<
        CommandDescription,
        CommandDescriptionFromError,
    >)
        ensures
            r matches Err(e) ==> e == CommandDescriptionFromError::MissingLongArgument,
    {
        CommandDescription::from_command(cmd)
    }
}

/// The description depends on what clap reports of the command, which Verus cannot see, so no
/// spec value of the result is given; [CommandDescription::from_arguments] states it exactly.
impl<'a> vstd::std_specs::convert::TryFromSpecImpl<&'a clap::Command> for CommandDescription {
    open spec fn obeys_try_from_spec() -> bool {
        false
    }

    open spec fn try_from_spec(v: &'a clap::Command) -> Result<
        CommandDescription,
        CommandDescriptionFromError,
    > {
        arbitrary()
    }
}

} // verus!
