//! The command description the variable model is built from: the shape of
//! a program's metadata, flags, positional arguments and subcommands, as
//! plain values.

use vstd::prelude::*;

verus! {

/// What an argument does with values on the command line.
#[derive(Debug, Clone, Copy, PartialEq, Eq, Structural)]
pub enum ArgKind {
    /// Stores one value.
    StoreValue,
    /// Appends values.
    AppendValues,
    /// A boolean flag: takes no value.
    Flag,
}

/// Whether an argument of this kind consumes a value.
pub open spec fn spec_takes_values(k: ArgKind) -> bool {
    k == ArgKind::StoreValue || k == ArgKind::AppendValues
}

/// One argument of a command: a flag or a positional.
pub struct ArgModel {
    /// Short flag character, if any (`-x`).
    pub short: Option<char>,
    /// Long flag word, if any (`--word`).
    pub long: Option<String>,
    /// Declared value names; the first one is displayed.
    pub value_names: Vec<String>,
    /// Help text, markdown-capable.
    pub help: Option<String>,
    /// Hidden arguments are left out of the options table.
    pub hidden: bool,
    /// Whether the argument is positional.
    pub positional: bool,
    /// Whether the argument is required.
    pub required: bool,
    /// Whether the argument collects everything after `--`.
    pub rest: bool,
    /// Declared possible values, in order.
    pub possible_values: Vec<String>,
    /// Declared default values, in order.
    pub default_values: Vec<String>,
    /// What the argument does with values.
    pub kind: ArgKind,
    /// Environment variable the argument reads, if any.
    pub env_var: Option<String>,
}

/// A direct subcommand: its name and a short description.
pub struct SubcommandModel {
    pub name: String,
    pub about: Option<String>,
}

/// A command description: metadata, arguments and subcommands.
pub struct CommandModel {
    pub name: String,
    /// Explicit binary name, preferred over `name` when present.
    pub bin_name: Option<String>,
    pub author: Option<String>,
    pub version: Option<String>,
    pub about: Option<String>,
    pub after_help: Option<String>,
    pub args: Vec<ArgModel>,
    pub subcommands: Vec<SubcommandModel>,
}

impl ArgModel {
    /// An argument with nothing declared: no flags, no values, hidden off.
    pub fn new() -> (r: ArgModel)
        ensures
            r.short is None,
            r.long is None,
            r.value_names@ =~= Seq::<String>::empty(),
            r.help is None,
            !r.hidden,
            !r.positional,
            !r.required,
            !r.rest,
            r.possible_values@ =~= Seq::<String>::empty(),
            r.default_values@ =~= Seq::<String>::empty(),
            r.kind == ArgKind::Flag,
            r.env_var is None,
    {
        ArgModel {
            short: None,
            long: None,
            value_names: Vec::new(),
            help: None,
            hidden: false,
            positional: false,
            required: false,
            rest: false,
            possible_values: Vec::new(),
            default_values: Vec::new(),
            kind: ArgKind::Flag,
            env_var: None,
        }
    }
}

impl CommandModel {
    /// A command with the given name and nothing else declared.
    pub fn new(name: String) -> (r: CommandModel)
        ensures
            r.name == name,
            r.bin_name is None,
            r.author is None,
            r.version is None,
            r.about is None,
            r.after_help is None,
            r.args@ =~= Seq::<ArgModel>::empty(),
            r.subcommands@ =~= Seq::<SubcommandModel>::empty(),
    {
        CommandModel {
            name,
            bin_name: None,
            author: None,
            version: None,
            about: None,
            after_help: None,
            args: Vec::new(),
            subcommands: Vec::new(),
        }
    }
}

} // verus!
