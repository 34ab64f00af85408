//! The default section templates and the default section order.

use vstd::prelude::*;

verus! {

/// Default template for the "title" section.
pub const TEMPLATE_TITLE: &'static str = "# **${name}** ${version}";

/// Default template for the "author" section.
pub const TEMPLATE_AUTHOR: &'static str = "\n*by* ${author}\n";

/// Default template for the "usage" section.
pub const TEMPLATE_USAGE: &'static str = "\n**Usage: ** `${name} [options]${positional-args}`\n";

/// Default template for the "positionals" section.
pub const TEMPLATE_POSITIONALS: &'static str = "\n${positional-lines\n* `${key}` : ${help}\n}\n";

/// Default template for the "description" section.
pub const TEMPLATE_DESCRIPTION: &'static str = "\n${about}\n";

/// Default template for the "subcommands" section.
pub const TEMPLATE_SUBCOMMANDS: &'static str =
    "\n**Subcommands:**\n${subcommand-lines\n* `${sub-name}`: ${sub-about}\n}\n";

/// Default template for an "examples" section.
pub const TEMPLATE_EXAMPLES: &'static str = "\n**Examples:**\n${after_help}\n";

/// Default template for the "options" section.
pub const TEMPLATE_OPTIONS: &'static str = "
**Options:**
|:-:|:-:|:-:|:-|
| short | long | value | description |
|:-:|:-|:-:|:-|
${option-lines
| ${short} | ${long} | ${value} | ${help}${possible_values}${default} |
}
|-
";

/// A template for the "options" section with the value merged into the
/// short and long columns.
pub const TEMPLATE_OPTIONS_MERGED_VALUE: &'static str = "
**Options:**
|:-:|:-:|:-|
|short|long|description|
|:-:|:-|:-|
${option-lines
|${short} *${value-short-braced}*|${long} *${value-long-braced}*|${help}${possible_values}${default}|
}
|-
";

/// A list-style template for the "options" section.
pub const TEMPLATE_OPTIONS_LIST: &'static str = "
**Options:**
${option-lines
* `${flags-compact}` `${value-braced}`
    *${help}*${details-default}${details-possible-values}${details-env}
}
";

/// A compact-table template for the "options" section.
pub const TEMPLATE_OPTIONS_COMPACT_TABLE: &'static str = "
**Options:**
|:-|:-|
|flags|description|
|---|---|
${option-lines
|`${flags-compact}` `${value-braced}`|${help}${possible_values}${default}|
}
|-
";

/// A verbose template for the "options" section.
pub const TEMPLATE_OPTIONS_VERBOSE: &'static str = "
**Options:**
${option-lines
---
**`${flags-compact}`** `${value-braced}`
> ${help}
${details-default}${details-possible-values}${details-env}
}
";

/// The nine recognized section keys, in default rendering order; the
/// "introduction" key has no built-in template and is an insertion point
/// for caller-supplied content.
pub fn default_template_keys() -> (r: Vec<&'static str>)
    ensures
        r@.len() == 9,
        r@[0]@ == "title"@,
        r@[1]@ == "author"@,
        r@[2]@ == "description"@,
        r@[3]@ == "introduction"@,
        r@[4]@ == "usage"@,
        r@[5]@ == "positionals"@,
        r@[6]@ == "options"@,
        r@[7]@ == "subcommands"@,
        r@[8]@ == "examples"@,
{
    vec![
        "title",
        "author",
        "description",
        "introduction",
        "usage",
        "positionals",
        "options",
        "subcommands",
        "examples",
    ]
}

} // verus!
