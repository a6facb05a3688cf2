//! Calling a tool by name and reporting the outcome as text: the observation
//! that the reasoning loop feeds back to the model, and the reply to a manual
//! command.

use vstd::prelude::*;
use vstd::string::StringExecFns;
use crate::text::{same_text, slice_of, trim, trimmed};
use crate::tools::{find_by_name, lookup, outcome_text, Tool};

verus! {

/// One line for each tool: its name, a bar, its description.
pub open spec fn describe_all<T: Tool>(tools: Seq<T>) -> Seq<char>
    decreases tools.len(),
{
    if tools.len() == 0 {
        Seq::empty()
    } else {
        describe_all(tools.drop_last()) + tools.last().name_text() + " | "@
            + tools.last().description_text() + "\n"@
    }
}

/// The tools' names, in order, with a comma and a space between two of them.
pub open spec fn name_list<T: Tool>(tools: Seq<T>) -> Seq<char>
    decreases tools.len(),
{
    if tools.len() == 0 {
        Seq::empty()
    } else if tools.len() == 1 {
        tools[0].name_text()
    } else {
        name_list(tools.drop_last()) + ", "@ + tools.last().name_text()
    }
}

/// The answer to a request for the list of tools: a heading, then one line
/// for each tool with the command that calls it and its description.
pub open spec fn tool_listing<T: Tool>(tools: Seq<T>) -> Seq<char>
    decreases tools.len(),
{
    if tools.len() == 0 {
        "Available tools:\n"@
    } else {
        tool_listing(tools.drop_last()) + "  !"@ + tools.last().name_text() + " - "@
            + tools.last().description_text() + "\n"@
    }
}

/// The observation for a call of the tool `name` that gave `out`: the result
/// itself, or a line that carries the failure's message.
pub open spec fn observation_text(name: Seq<char>, out: Result<Seq<char>, Seq<char>>) -> Seq<char> {
    match out {
        Ok(s) => s,
        Err(e) => "Tool `"@ + name + "` error: "@ + e,
    }
}

/// The observation where no tool is called `name`.
pub open spec fn unknown_tool_text<T: Tool>(tools: Seq<T>, name: Seq<char>) -> Seq<char> {
    "Unknown tool `"@ + name + "`. Available tools: "@ + name_list(tools)
}

/// Whether `obs` is an observation that a call of `name` with `input` may
/// give: what the tool found under that name returned, as text, or the notice
/// that there is none.
pub open spec fn observed<T: Tool>(
    tools: Seq<T>,
    name: Seq<char>,
    input: Seq<char>,
    obs: Seq<char>,
) -> bool {
    match lookup(tools, name) {
        Some(i) => exists|out: Result<Seq<char>, Seq<char>>| #[trigger]
            tools[i].may_return(input, out) && obs == observation_text(name, out),
        None => obs == unknown_tool_text(tools, name),
    }
}

/// The reply to a manual call of the tool `name` that gave `out`: the result
/// under a line that marks it as a tool's, or the failure's message.
pub open spec fn manual_result_text(name: Seq<char>, out: Result<Seq<char>, Seq<char>>) -> Seq<
    char,
> {
    match out {
        Ok(s) => "[tool:"@ + name + "]\n"@ + s,
        Err(e) => "Tool `"@ + name + "` error: "@ + e,
    }
}

/// The reply to a manual call of a tool that does not exist.
pub open spec fn unknown_manual_text<T: Tool>(tools: Seq<T>, name: Seq<char>) -> Seq<char> {
    "Unknown tool: "@ + name + "\nAvailable tools: "@ + name_list(tools)
}

/// The reply to a manual command without a tool's name.
pub open spec fn usage_text() -> Seq<char> {
    "Usage: !<tool> [args]. Try !tools to list tools."@
}

/// Whether `reply` answers the manual command `name` with `args`: the list
/// of tools for `tools` and `help`, the usage for an empty name, else what
/// the tool gave or the notice that there is none.
pub open spec fn manual_reply<T: Tool>(
    tools: Seq<T>,
    name: Seq<char>,
    args: Seq<char>,
    reply: Seq<char>,
) -> bool {
    if name == "tools"@ || name == "help"@ {
        reply == tool_listing(tools)
    } else if name.len() == 0 {
        reply == usage_text()
    } else {
        match lookup(tools, name) {
            Some(i) => exists|out: Result<Seq<char>, Seq<char>>| #[trigger]
                tools[i].may_return(args, out) && reply == manual_result_text(name, out),
            None => reply == unknown_manual_text(tools, name),
        }
    }
}

/// The part of a command before its first space: the tool's name.
pub open spec fn command_name(s: Seq<char>) -> Seq<char>
    decreases s.len(),
{
    if s.len() == 0 || s[0] == ' ' {
        Seq::empty()
    } else {
        seq![s[0]] + command_name(s.drop_first())
    }
}

/// What follows the first space of a command, untrimmed.
pub open spec fn after_space(s: Seq<char>) -> Seq<char>
    decreases s.len(),
{
    if s.len() == 0 {
        Seq::empty()
    } else if s[0] == ' ' {
        s.drop_first()
    } else {
        after_space(s.drop_first())
    }
}

/// The arguments of a command: what follows its first space, trimmed.
pub open spec fn command_args(s: Seq<char>) -> Seq<char> {
    trimmed(after_space(s))
}

/// The two texts that the prompt shows of the tools: their descriptions, one
/// per line, and the list of their names.
pub fn build_tool_descriptions<T: Tool>(tools: &Vec<T>) -> (r: (String, String))
    ensures
        r.0@ == describe_all(tools@),
        r.1@ == name_list(tools@),
{
    let mut descs = String::new();
    let mut names = String::new();
    let mut i: usize = 0;
    assert(tools@.take(0).len() == 0);
    while i < tools.len()
        invariant
            i <= tools.len(),
            descs@ == describe_all(tools@.take(i as int)),
            names@ == name_list(tools@.take(i as int)),
        decreases tools.len() - i,
    {
        let ghost before = tools@.take(i as int);
        let ghost now = tools@.take(i + 1);
        assert(now.drop_last() =~= before);
        assert(now.last() == tools@[i as int]);
        if i > 0 {
            names.append(", ");
        } else {
            assert(names@ + tools@[0].name_text() =~= tools@[0].name_text());
        }
        names.append(tools[i].name());
        descs.append(tools[i].name());
        descs.append(" | ");
        descs.append(tools[i].description());
        descs.append("\n");
        i += 1;
    }
    assert(tools@.take(tools.len() as int) =~= tools@);
    (descs, names)
}

/// The list of tools that answers the commands `tools` and `help`.
pub fn list_tools<T: Tool>(tools: &Vec<T>) -> (r: String)
    ensures
        r@ == tool_listing(tools@),
{
    let mut out = String::from_str("Available tools:\n");
    let mut i: usize = 0;
    assert(tools@.take(0).len() == 0);
    while i < tools.len()
        invariant
            i <= tools.len(),
            out@ == tool_listing(tools@.take(i as int)),
        decreases tools.len() - i,
    {
        let ghost before = tools@.take(i as int);
        let ghost now = tools@.take(i + 1);
        assert(now.drop_last() =~= before);
        assert(now.last() == tools@[i as int]);
        out.append("  !");
        out.append(tools[i].name());
        out.append(" - ");
        out.append(tools[i].description());
        out.append("\n");
        i += 1;
    }
    assert(tools@.take(tools.len() as int) =~= tools@);
    out
}

/// The observation for a call of `name` that gave `outcome`.
pub fn observe(name: &str, outcome: &Result<String, String>) -> (r: String)
    ensures
        r@ == observation_text(name@, outcome_text(*outcome)),
{
    match outcome {
        Ok(s) => s.clone(),
        Err(e) => {
            let mut out = String::from_str("Tool `");
            out.append(name);
            out.append("` error: ");
            out.append(e.as_str());
            out
        },
    }
}

/// The observation where `name` is no tool's name.
pub fn unknown_tool<T: Tool>(tools: &Vec<T>, name: &str) -> (r: String)
    ensures
        r@ == unknown_tool_text(tools@, name@),
{
    let (_, names) = build_tool_descriptions(tools);
    let mut out = String::from_str("Unknown tool `");
    out.append(name);
    out.append("`. Available tools: ");
    out.append(names.as_str());
    out
}

/// Calls the tool `name` with `input` and gives the observation. A failure
/// of the tool and an unknown name come back as text as well.
pub fn dispatch<T: Tool>(tools: &Vec<T>, name: &str, input: &str) -> (r: String)
    ensures
        observed(tools@, name@, input@, r@),
{
    match find_by_name(tools, name) {
        Some(tool) => {
            let outcome = tool.invoke(input);
            observe(name, &outcome)
        },
        None => unknown_tool(tools, name),
    }
}

/// The reply to a manual call of `name` that gave `outcome`.
pub fn manual_result(name: &str, outcome: &Result<String, String>) -> (r: String)
    ensures
        r@ == manual_result_text(name@, outcome_text(*outcome)),
{
    match outcome {
        Ok(s) => {
            let mut out = String::from_str("[tool:");
            out.append(name);
            out.append("]\n");
            out.append(s.as_str());
            out
        },
        Err(e) => {
            let mut out = String::from_str("Tool `");
            out.append(name);
            out.append("` error: ");
            out.append(e.as_str());
            out
        },
    }
}

/// Answers the manual command `name` with `args`.
pub fn run_manual<T: Tool>(tools: &Vec<T>, name: &str, args: &str) -> (r: String)
    ensures
        manual_reply(tools@, name@, args@, r@),
{
    if same_text(name, "tools") || same_text(name, "help") {
        return list_tools(tools);
    }
    if name.unicode_len() == 0 {
        return String::from_str("Usage: !<tool> [args]. Try !tools to list tools.");
    }
    match find_by_name(tools, name) {
        Some(tool) => {
            let outcome = tool.invoke(args);
            manual_result(name, &outcome)
        },
        None => {
            let (_, names) = build_tool_descriptions(tools);
            let mut out = String::from_str("Unknown tool: ");
            out.append(name);
            out.append("\nAvailable tools: ");
            out.append(names.as_str());
            out
        },
    }
}

/// Splits a command into the tool's name and the trimmed arguments.
pub fn split_command(cmd: &Vec<char>) -> (r: (Vec<char>, Vec<char>))
    ensures
        r.0@ == command_name(cmd@),
        r.1@ == command_args(cmd@),
{
    let n: usize = cmd.len();
    let mut i: usize = 0;
    assert(cmd@.skip(0) =~= cmd@);
    assert(cmd@.take(0) + command_name(cmd@) =~= command_name(cmd@));
    while i < n && cmd[i] != ' '
        invariant
            i <= n == cmd.len(),
            command_name(cmd@) == cmd@.take(i as int) + command_name(cmd@.skip(i as int)),
            after_space(cmd@) == after_space(cmd@.skip(i as int)),
        decreases n - i,
    {
        assert(cmd@.skip(i as int).drop_first() =~= cmd@.skip(i + 1));
        assert(cmd@.take(i + 1) =~= cmd@.take(i as int) + seq![cmd@[i as int]]);
        assert(cmd@.take(i as int) + (seq![cmd@[i as int]] + command_name(cmd@.skip(i + 1)))
            =~= cmd@.take(i + 1) + command_name(cmd@.skip(i + 1)));
        i += 1;
    }
    let name = slice_of(cmd, 0, i);
    assert(cmd@.take(i as int) + Seq::<char>::empty() =~= cmd@.subrange(0, i as int));
    if i < n {
        let rest = slice_of(cmd, i + 1, n);
        assert(cmd@.skip(i as int).drop_first() =~= cmd@.subrange(i + 1, n as int));
        (name, trim(&rest))
    } else {
        let rest: Vec<char> = Vec::new();
        (name, trim(&rest))
    }
}

} // verus!
