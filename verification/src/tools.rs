//! The tools that the agent can call, the registry that finds them by name,
//! and the texts that report what a call gave.

use vstd::prelude::*;
use vstd::string::StringExecFns;
use crate::text::{
    chars_of, eq_ignore_ascii_case, same_ignoring_ascii_case, starts_with, string_of, trim, trimmed,
};

verus! {

/// What a tool call gave, as text: the result, or the failure's message.
pub open spec fn outcome_text(r: Result<String, String>) -> Result<Seq<char>, Seq<char>> {
    match r {
        Ok(s) => Ok(s@),
        Err(e) => Err(e@),
    }
}

/// A named capability that the agent can invoke with a text argument.
pub trait Tool: Send + Sync {
    /// The tool's name.
    spec fn name_text(&self) -> Seq<char>;

    /// One line that says what the tool does.
    spec fn description_text(&self) -> Seq<char>;

    /// Whether a call with `args` may give `out`.
    spec fn may_return(&self, args: Seq<char>, out: Result<Seq<char>, Seq<char>>) -> bool;

    /// The name by which the tool is called.
    fn name(&self) -> (r: &str)
        ensures
            r@ == self.name_text(),
    ;

    /// What the tool does, in one line.
    fn description(&self) -> (r: &str)
        ensures
            r@ == self.description_text(),
    ;

    /// Runs the tool on `args`: its result, or the message of its failure.
    fn invoke(&self, args: &str) -> (r: Result<String, String>)
        ensures
            self.may_return(args@, outcome_text(r)),
    ;
}

/// Reports the current local time.
pub struct TimeTool;

/// Gives its argument back, trimmed.
pub struct EchoTool;

/// What every report of the time tool begins with.
pub open spec fn time_prefix() -> Seq<char> {
    "Current local time: "@
}

/// The current local time as year, month, day, hour, minute and second.
///
/// Trusted: this calls `chrono::Local::now` and formats the result with
/// `DateTime::format`. Nothing is stated of the text, which depends on the
/// clock and the time zone of the machine. `Local::now` panics where the
/// system clock stands before 1970 or the system gives no offset from UTC
/// for the moment.
#[verifier::external_body]
fn local_timestamp() -> (r: String) {
    chrono::Local::now().format("%Y-%m-%d %H:%M:%S").to_string()
}

/// The time tool's report for the time stamp `stamp`.
pub fn time_report(stamp: &str) -> (r: String)
    ensures
        r@ == time_prefix() + stamp@,
{
    let mut out = String::from_str("Current local time: ");
    out.append(stamp);
    out
}

impl Tool for TimeTool {
    open spec fn name_text(&self) -> Seq<char> {
        "time"@
    }

    open spec fn description_text(&self) -> Seq<char> {
        "Show the current local time. Usage: !time"@
    }

    open spec fn may_return(&self, args: Seq<char>, out: Result<Seq<char>, Seq<char>>) -> bool {
        out is Ok && starts_with(out->Ok_0, time_prefix())
    }

    fn name(&self) -> (r: &str) {
        "time"
    }

    fn description(&self) -> (r: &str) {
        "Show the current local time. Usage: !time"
    }

    fn invoke(&self, args: &str) -> (r: Result<String, String>) {
        let stamp = local_timestamp();
        let report = time_report(stamp.as_str());
        assert(report@.subrange(0, time_prefix().len() as int) =~= time_prefix());
        Ok(report)
    }
}

impl Tool for EchoTool {
    open spec fn name_text(&self) -> Seq<char> {
        "echo"@
    }

    open spec fn description_text(&self) -> Seq<char> {
        "Echo back the given text. Usage: !echo <text>"@
    }

    open spec fn may_return(&self, args: Seq<char>, out: Result<Seq<char>, Seq<char>>) -> bool {
        out == Ok::<Seq<char>, Seq<char>>(trimmed(args))
    }

    fn name(&self) -> (r: &str) {
        "echo"
    }

    fn description(&self) -> (r: &str) {
        "Echo back the given text. Usage: !echo <text>"
    }

    fn invoke(&self, args: &str) -> (r: Result<String, String>) {
        let cs = chars_of(args);
        let t = trim(&cs);
        Ok(string_of(&t))
    }
}

/// One of the tools that come with the agent.
pub enum BuiltinTool {
    Time(TimeTool),
    Echo(EchoTool),
}

impl Tool for BuiltinTool {
    open spec fn name_text(&self) -> Seq<char> {
        match self {
            BuiltinTool::Time(t) => t.name_text(),
            BuiltinTool::Echo(t) => t.name_text(),
        }
    }

    open spec fn description_text(&self) -> Seq<char> {
        match self {
            BuiltinTool::Time(t) => t.description_text(),
            BuiltinTool::Echo(t) => t.description_text(),
        }
    }

    open spec fn may_return(&self, args: Seq<char>, out: Result<Seq<char>, Seq<char>>) -> bool {
        match self {
            BuiltinTool::Time(t) => t.may_return(args, out),
            BuiltinTool::Echo(t) => t.may_return(args, out),
        }
    }

    fn name(&self) -> (r: &str) {
        match self {
            BuiltinTool::Time(t) => t.name(),
            BuiltinTool::Echo(t) => t.name(),
        }
    }

    fn description(&self) -> (r: &str) {
        match self {
            BuiltinTool::Time(t) => t.description(),
            BuiltinTool::Echo(t) => t.description(),
        }
    }

    fn invoke(&self, args: &str) -> (r: Result<String, String>) {
        match self {
            BuiltinTool::Time(t) => t.invoke(args),
            BuiltinTool::Echo(t) => t.invoke(args),
        }
    }
}

/// Whether no two of `tools` have names that differ at most in ASCII case.
pub open spec fn distinct_names<T: Tool>(tools: Seq<T>) -> bool {
    forall|i: int, j: int|
        0 <= i < j < tools.len() ==> !eq_ignore_ascii_case(
            #[trigger] tools[i].name_text(),
            #[trigger] tools[j].name_text(),
        )
}

/// The built-in tools, in their fixed order: the clock, then the echo.
pub fn default_tools() -> (r: Vec<BuiltinTool>)
    ensures
        r@ == seq![BuiltinTool::Time(TimeTool), BuiltinTool::Echo(EchoTool)],
        distinct_names(r@),
{
    let mut v: Vec<BuiltinTool> = Vec::new();
    v.push(BuiltinTool::Time(TimeTool));
    v.push(BuiltinTool::Echo(EchoTool));
    proof {
        reveal_strlit("time");
        reveal_strlit("echo");
        assert(v@ =~= seq![BuiltinTool::Time(TimeTool), BuiltinTool::Echo(EchoTool)]);
        assert("time"@[0] == 't');
        assert("echo"@[0] == 'e');
        assert(!eq_ignore_ascii_case(v@[0].name_text(), v@[1].name_text()));
    }
    v
}

/// The place of the first tool from `i` on whose name is `name` but for ASCII
/// case, if there is one.
pub open spec fn lookup_from<T: Tool>(tools: Seq<T>, name: Seq<char>, i: int) -> Option<int>
    decreases tools.len() - i,
{
    if i < 0 || i >= tools.len() {
        None
    } else if eq_ignore_ascii_case(tools[i].name_text(), name) {
        Some(i)
    } else {
        lookup_from(tools, name, i + 1)
    }
}

/// The place of the first tool whose name is `name` but for ASCII case.
pub open spec fn lookup<T: Tool>(tools: Seq<T>, name: Seq<char>) -> Option<int> {
    lookup_from(tools, name, 0)
}

/// Finds a tool by name, whatever the case of its ASCII letters.
pub fn find_by_name<'a, T: Tool>(tools: &'a Vec<T>, name: &str) -> (r: Option<&'a T>)
    ensures
        match lookup(tools@, name@) {
            Some(i) => 0 <= i < tools@.len() && r == Some(&tools@[i]),
            None => r is None,
        },
{
    let wanted = chars_of(name);
    let mut i: usize = 0;
    while i < tools.len()
        invariant
            i <= tools.len(),
            wanted@ == name@,
            lookup(tools@, name@) == lookup_from(tools@, name@, i as int),
        decreases tools.len() - i,
    {
        let own = chars_of(tools[i].name());
        if same_ignoring_ascii_case(&own, &wanted) {
            return Some(&tools[i]);
        }
        i += 1;
    }
    None
}

/// From any place on, two names that differ at most in ASCII case find the
/// same tool.
proof fn lemma_lookup_from_ignores_case<T: Tool>(tools: Seq<T>, a: Seq<char>, b: Seq<char>, i: int)
    requires
        eq_ignore_ascii_case(a, b),
    ensures
        lookup_from(tools, a, i) == lookup_from(tools, b, i),
    decreases tools.len() - i,
{
    if 0 <= i < tools.len() {
        let own = tools[i].name_text();
        assert(eq_ignore_ascii_case(own, a) == eq_ignore_ascii_case(own, b));
        lemma_lookup_from_ignores_case(tools, a, b, i + 1);
    }
}

/// Lookup does not depend on the case of the name asked for: two names that
/// differ at most in the case of their ASCII letters find the same tool, or
/// both find none.
pub proof fn lemma_lookup_ignores_case<T: Tool>(tools: Seq<T>, a: Seq<char>, b: Seq<char>)
    requires
        eq_ignore_ascii_case(a, b),
    ensures
        lookup(tools, a) == lookup(tools, b),
{
    lemma_lookup_from_ignores_case(tools, a, b, 0);
}

/// No place before the one that a lookup gives holds a tool of that name.
proof fn lemma_lookup_from_first<T: Tool>(tools: Seq<T>, name: Seq<char>, i: int, j: int)
    requires
        0 <= i <= j < tools.len(),
        eq_ignore_ascii_case(tools[j].name_text(), name),
    ensures
        lookup_from(tools, name, i) is Some,
        i <= lookup_from(tools, name, i)->0 <= j,
        eq_ignore_ascii_case(tools[lookup_from(tools, name, i)->0].name_text(), name),
    decreases j - i,
{
    if !eq_ignore_ascii_case(tools[i].name_text(), name) {
        lemma_lookup_from_first(tools, name, i + 1, j);
    }
}

/// Where no two tools share a name, a lookup by a tool's own name, in
/// whatever case, finds that very tool.
pub proof fn lemma_lookup_finds_own<T: Tool>(tools: Seq<T>, name: Seq<char>, j: int)
    requires
        distinct_names(tools),
        0 <= j < tools.len(),
        eq_ignore_ascii_case(tools[j].name_text(), name),
    ensures
        lookup(tools, name) == Some(j),
{
    lemma_lookup_from_first(tools, name, 0, j);
    let k = lookup(tools, name)->0;
    if k < j {
        assert(eq_ignore_ascii_case(tools[k].name_text(), tools[j].name_text()));
    }
}

} // verus!
