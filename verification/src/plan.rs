//! Decoding a model's reply into a plan: either a tool to call or the final
//! answer. The reply is read line by line; the last thought, the last action
//! and the last answer found decide the outcome.

use vstd::prelude::*;
use crate::text::{
    chars_of, eq_ignore_ascii_case, has_prefix, lines_of, same_ignoring_ascii_case, slice_of,
    split_lines, starts_with, string_of, trim, trimmed, views,
};

verus! {

/// A tool call that the model asked for.
pub struct PlannedAction {
    pub thought: Option<String>,
    pub tool: String,
    pub input: String,
}

/// What the model decided in one reply.
pub enum PlanOutput {
    Action(PlannedAction),
    FinalAnswer { thought: Option<String>, answer: String },
}

/// A plan as mathematical text.
pub enum Plan {
    Action { thought: Option<Seq<char>>, tool: Seq<char>, input: Seq<char> },
    FinalAnswer { thought: Option<Seq<char>>, answer: Seq<char> },
}

/// The text of an optional string.
pub open spec fn text_of(o: Option<String>) -> Option<Seq<char>> {
    match o {
        Some(s) => Some(s@),
        None => None,
    }
}

impl View for PlannedAction {
    type V = Plan;

    open spec fn view(&self) -> Plan {
        Plan::Action { thought: text_of(self.thought), tool: self.tool@, input: self.input@ }
    }
}

impl View for PlanOutput {
    type V = Plan;

    open spec fn view(&self) -> Plan {
        match *self {
            PlanOutput::Action(a) => a@,
            PlanOutput::FinalAnswer { thought, answer } => Plan::FinalAnswer {
                thought: text_of(thought),
                answer: answer@,
            },
        }
    }
}

/// What a scan of the lines has found so far.
pub struct Scan {
    pub thought: Option<Seq<char>>,
    pub action: Option<(Seq<char>, Seq<char>)>,
    pub answer: Option<Seq<char>>,
}

/// The label of a thought.
pub open spec fn thought_label() -> Seq<char> {
    "Thought:"@
}

/// The label of an action: the name of the tool follows.
pub open spec fn action_label() -> Seq<char> {
    "Action:"@
}

/// The label of an action's input, in the line after the action.
pub open spec fn input_label() -> Seq<char> {
    "Action Input:"@
}

/// The label of the final answer.
pub open spec fn answer_label() -> Seq<char> {
    "Final Answer:"@
}

/// The name under which an action stands for the final answer.
pub open spec fn finish_name() -> Seq<char> {
    "finish"@
}

/// What follows `label` in `line`, trimmed.
pub open spec fn rest_after(line: Seq<char>, label: Seq<char>) -> Seq<char> {
    trimmed(line.subrange(label.len() as int, line.len() as int))
}

/// The lines of a reply, each trimmed.
pub open spec fn trimmed_lines(reply: Seq<char>) -> Seq<Seq<char>> {
    split_lines(reply).map_values(|l: Seq<char>| trimmed(l))
}

/// Nothing found yet.
pub open spec fn nothing_found() -> Scan {
    Scan { thought: None, action: None, answer: None }
}

/// What a line is, by the label that it begins with.
pub enum LineKind {
    Thought,
    Action,
    Answer,
    Other,
}

/// The kind of a trimmed line. A line with the input label counts only
/// behind an action, so by itself it is like any other line.
pub open spec fn kind_of(line: Seq<char>) -> LineKind {
    if starts_with(line, thought_label()) {
        LineKind::Thought
    } else if starts_with(line, action_label()) {
        LineKind::Action
    } else if starts_with(line, answer_label()) {
        LineKind::Answer
    } else {
        LineKind::Other
    }
}

/// Whether the line after line `i` carries the input of an action.
pub open spec fn input_follows(lines: Seq<Seq<char>>, i: int) -> bool {
    i + 1 < lines.len() && starts_with(lines[i + 1], input_label())
}

/// The input of the action in line `i`: what the next line gives where it
/// carries the input label, else the empty text.
pub open spec fn input_of(lines: Seq<Seq<char>>, i: int) -> Seq<char> {
    if input_follows(lines, i) {
        rest_after(lines[i + 1], input_label())
    } else {
        Seq::empty()
    }
}

/// Whether a line gives an answer: it has the answer label and something
/// behind it.
pub open spec fn gives_answer(line: Seq<char>) -> bool {
    kind_of(line) is Answer && rest_after(line, answer_label()).len() > 0
}

/// What is found once line `i` has been read with `st` found before. A
/// thought or an answer with nothing behind its label leaves the earlier one
/// in place; an action replaces the earlier one.
pub open spec fn found_at(lines: Seq<Seq<char>>, i: int, st: Scan) -> Scan {
    match kind_of(lines[i]) {
        LineKind::Thought => {
            let t = rest_after(lines[i], thought_label());
            if t.len() > 0 {
                Scan { thought: Some(t), ..st }
            } else {
                st
            }
        },
        LineKind::Action => Scan {
            action: Some((rest_after(lines[i], action_label()), input_of(lines, i))),
            ..st
        },
        LineKind::Answer => {
            let a = rest_after(lines[i], answer_label());
            if a.len() > 0 {
                Scan { answer: Some(a), ..st }
            } else {
                st
            }
        },
        LineKind::Other => st,
    }
}

/// The line that is read after line `i`: the scan passes over the input line
/// of an action.
pub open spec fn next_line(lines: Seq<Seq<char>>, i: int) -> int {
    if kind_of(lines[i]) is Action && input_follows(lines, i) {
        i + 2
    } else {
        i + 1
    }
}

/// The scan of the trimmed lines from line `i` on, with `st` found before.
pub open spec fn scan_from(lines: Seq<Seq<char>>, i: int, st: Scan) -> Scan
    decreases lines.len() - i,
{
    if i < 0 || i >= lines.len() {
        st
    } else {
        scan_from(lines, next_line(lines, i), found_at(lines, i, st))
    }
}

/// The plan that a finished scan of `reply` stands for: an answer found wins;
/// else an action named like `finish` gives its input as the answer; else the
/// action is the plan; else the whole reply, trimmed, is the answer.
pub open spec fn resolve(st: Scan, reply: Seq<char>) -> Plan {
    match (st.answer, st.action) {
        (Some(answer), _) => Plan::FinalAnswer { thought: st.thought, answer },
        (None, Some((name, input))) => if eq_ignore_ascii_case(name, finish_name()) {
            Plan::FinalAnswer { thought: st.thought, answer: input }
        } else {
            Plan::Action { thought: st.thought, tool: name, input }
        },
        (None, None) => Plan::FinalAnswer { thought: st.thought, answer: trimmed(reply) },
    }
}

/// The plan that `reply` decodes to.
pub open spec fn parse_reply(reply: Seq<char>) -> Plan {
    resolve(scan_from(trimmed_lines(reply), 0, nothing_found()), reply)
}

/// The first characters of a line with a label: no two labels fit one line.
proof fn lemma_label_heads(line: Seq<char>)
    ensures
        starts_with(line, thought_label()) ==> line.len() > 0 && line[0] == 'T',
        starts_with(line, action_label()) ==> line.len() > 6 && line[0] == 'A' && line[6] == ':',
        starts_with(line, input_label()) ==> line.len() > 6 && line[0] == 'A' && line[6] == ' ',
        starts_with(line, answer_label()) ==> line.len() > 0 && line[0] == 'F',
{
    reveal_strlit("Thought:");
    reveal_strlit("Action:");
    reveal_strlit("Action Input:");
    reveal_strlit("Final Answer:");
    if starts_with(line, thought_label()) {
        assert(line.subrange(0, 8)[0] == thought_label()[0]);
    }
    if starts_with(line, action_label()) {
        assert(line.subrange(0, 7)[0] == action_label()[0]);
        assert(line.subrange(0, 7)[6] == action_label()[6]);
    }
    if starts_with(line, input_label()) {
        assert(line.subrange(0, 13)[0] == input_label()[0]);
        assert(line.subrange(0, 13)[6] == input_label()[6]);
    }
    if starts_with(line, answer_label()) {
        assert(line.subrange(0, 13)[0] == answer_label()[0]);
    }
}

/// Lines that give no answer leave the answer found before in place.
proof fn lemma_answer_kept(lines: Seq<Seq<char>>, k: int, st: Scan)
    requires
        0 <= k,
        forall|j: int| k <= j < lines.len() ==> !gives_answer(#[trigger] lines[j]),
    ensures
        scan_from(lines, k, st).answer == st.answer,
    decreases lines.len() - k,
{
    if k < lines.len() {
        assert(!gives_answer(lines[k]));
        lemma_answer_kept(lines, next_line(lines, k), found_at(lines, k, st));
    }
}

/// Lines without an action leave the action found before in place.
proof fn lemma_action_kept(lines: Seq<Seq<char>>, k: int, st: Scan)
    requires
        0 <= k,
        forall|j: int| k <= j < lines.len() ==> !(kind_of(#[trigger] lines[j]) is Action),
    ensures
        scan_from(lines, k, st).action == st.action,
    decreases lines.len() - k,
{
    if k < lines.len() {
        assert(!(kind_of(lines[k]) is Action));
        lemma_action_kept(lines, next_line(lines, k), found_at(lines, k, st));
    }
}

/// Lines without a label leave everything found before in place.
proof fn lemma_nothing_found(lines: Seq<Seq<char>>, k: int, st: Scan)
    requires
        0 <= k,
        forall|j: int| k <= j < lines.len() ==> kind_of(#[trigger] lines[j]) is Other,
    ensures
        scan_from(lines, k, st) == st,
    decreases lines.len() - k,
{
    if k < lines.len() {
        assert(kind_of(lines[k]) is Other);
        lemma_nothing_found(lines, next_line(lines, k), found_at(lines, k, st));
    }
}

/// The scan reaches the last line that gives an answer and ends with it.
proof fn lemma_answer_found(lines: Seq<Seq<char>>, k: int, i: int, st: Scan)
    requires
        0 <= k <= i < lines.len(),
        gives_answer(lines[i]),
        forall|j: int| i < j < lines.len() ==> !gives_answer(#[trigger] lines[j]),
    ensures
        scan_from(lines, k, st).answer == Some(rest_after(lines[i], answer_label())),
    decreases i - k,
{
    lemma_label_heads(lines[i]);
    if k == i {
        lemma_answer_kept(lines, i + 1, found_at(lines, i, st));
    } else {
        lemma_answer_found(lines, next_line(lines, k), i, found_at(lines, k, st));
    }
}

/// The scan reaches the last line with an action and ends with it.
proof fn lemma_action_found(lines: Seq<Seq<char>>, k: int, i: int, st: Scan)
    requires
        0 <= k <= i < lines.len(),
        kind_of(lines[i]) is Action,
        forall|j: int| i < j < lines.len() ==> !(kind_of(#[trigger] lines[j]) is Action),
    ensures
        scan_from(lines, k, st).action == Some(
            (rest_after(lines[i], action_label()), input_of(lines, i)),
        ),
    decreases i - k,
{
    lemma_label_heads(lines[i]);
    if k == i {
        lemma_action_kept(lines, next_line(lines, i), found_at(lines, i, st));
    } else {
        lemma_action_found(lines, next_line(lines, k), i, found_at(lines, k, st));
    }
}

/// An answer line decides. Where line `i` of a reply is the last that gives
/// an answer, the reply decodes to a final answer with what follows the
/// label in that line, trimmed, whatever actions stand before or after it.
pub proof fn lemma_final_answer_wins(reply: Seq<char>, i: int)
    requires
        0 <= i < trimmed_lines(reply).len(),
        gives_answer(trimmed_lines(reply)[i]),
        forall|j: int|
            i < j < trimmed_lines(reply).len() ==> !gives_answer(#[trigger] trimmed_lines(reply)[j]),
    ensures
        parse_reply(reply) is FinalAnswer,
        parse_reply(reply)->answer == rest_after(trimmed_lines(reply)[i], answer_label()),
{
    lemma_answer_found(trimmed_lines(reply), 0, i, nothing_found());
}

/// An action named like `finish` concludes. Where no line of a reply gives
/// an answer and line `i` is the last with an action, whose name is `finish`
/// but for the case of its letters, the reply decodes to a final answer that
/// is the action's input.
pub proof fn lemma_finish_gives_input(reply: Seq<char>, i: int)
    requires
        0 <= i < trimmed_lines(reply).len(),
        kind_of(trimmed_lines(reply)[i]) is Action,
        forall|j: int|
            i < j < trimmed_lines(reply).len() ==> !(kind_of(#[trigger] trimmed_lines(reply)[j])
                is Action),
        forall|j: int|
            0 <= j < trimmed_lines(reply).len() ==> !gives_answer(#[trigger] trimmed_lines(reply)[j]),
        eq_ignore_ascii_case(rest_after(trimmed_lines(reply)[i], action_label()), finish_name()),
    ensures
        parse_reply(reply) is FinalAnswer,
        parse_reply(reply)->answer == input_of(trimmed_lines(reply), i),
{
    lemma_action_found(trimmed_lines(reply), 0, i, nothing_found());
    lemma_answer_kept(trimmed_lines(reply), 0, nothing_found());
}

/// The last action is the plan. Where no line of a reply gives an answer and
/// line `i` is the last with an action, whose name is not `finish`, the
/// reply decodes to that action with its input.
pub proof fn lemma_last_action_is_planned(reply: Seq<char>, i: int)
    requires
        0 <= i < trimmed_lines(reply).len(),
        kind_of(trimmed_lines(reply)[i]) is Action,
        forall|j: int|
            i < j < trimmed_lines(reply).len() ==> !(kind_of(#[trigger] trimmed_lines(reply)[j])
                is Action),
        forall|j: int|
            0 <= j < trimmed_lines(reply).len() ==> !gives_answer(#[trigger] trimmed_lines(reply)[j]),
        !eq_ignore_ascii_case(rest_after(trimmed_lines(reply)[i], action_label()), finish_name()),
    ensures
        parse_reply(reply) is Action,
        parse_reply(reply)->tool == rest_after(trimmed_lines(reply)[i], action_label()),
        parse_reply(reply)->input == input_of(trimmed_lines(reply), i),
{
    lemma_action_found(trimmed_lines(reply), 0, i, nothing_found());
    lemma_answer_kept(trimmed_lines(reply), 0, nothing_found());
}

/// A reply without a label is its own answer. Where no line begins with the
/// label of a thought, an action or an answer, the reply decodes to a final
/// answer without a thought that is the whole reply, trimmed.
pub proof fn lemma_plain_reply_is_answer(reply: Seq<char>)
    requires
        forall|j: int|
            0 <= j < trimmed_lines(reply).len() ==> kind_of(#[trigger] trimmed_lines(reply)[j])
                is Other,
    ensures
        parse_reply(reply) == (Plan::FinalAnswer { thought: None, answer: trimmed(reply) }),
{
    lemma_nothing_found(trimmed_lines(reply), 0, nothing_found());
}

/// The characters of an optional vector.
pub open spec fn chars_opt(o: Option<Vec<char>>) -> Option<Seq<char>> {
    match o {
        Some(v) => Some(v@),
        None => None,
    }
}

/// The characters of an optional pair of vectors.
pub open spec fn chars_pair(o: Option<(Vec<char>, Vec<char>)>) -> Option<(Seq<char>, Seq<char>)> {
    match o {
        Some(p) => Some((p.0@, p.1@)),
        None => None,
    }
}

/// Each of `raw`, trimmed.
fn trim_all(raw: &Vec<Vec<char>>) -> (r: Vec<Vec<char>>)
    ensures
        views(r@) == views(raw@).map_values(|l: Seq<char>| trimmed(l)),
{
    let mut out: Vec<Vec<char>> = Vec::new();
    let mut i: usize = 0;
    while i < raw.len()
        invariant
            i <= raw.len(),
            out.len() == i,
            forall|j: int| 0 <= j < i ==> (#[trigger] out@[j])@ == trimmed(raw@[j]@),
        decreases raw.len() - i,
    {
        out.push(trim(&raw[i]));
        i += 1;
    }
    assert(views(out@) =~= views(raw@).map_values(|l: Seq<char>| trimmed(l)));
    out
}

/// What follows the first `skip` characters of `line`, trimmed.
fn rest_of(line: &Vec<char>, skip: usize) -> (r: Vec<char>)
    requires
        skip <= line.len(),
    ensures
        r@ == trimmed(line@.subrange(skip as int, line.len() as int)),
{
    let tail = slice_of(line, skip, line.len());
    trim(&tail)
}

/// The string of an optional vector of characters.
fn string_opt(o: &Option<Vec<char>>) -> (r: Option<String>)
    ensures
        text_of(r) == chars_opt(*o),
{
    match o {
        Some(v) => Some(string_of(v)),
        None => None,
    }
}

/// Decodes a model's reply into a plan.
pub fn parse_react_reply(reply: &str) -> (r: PlanOutput)
    ensures
        r@ == parse_reply(reply@),
{
    let cs = chars_of(reply);
    let raw = lines_of(&cs);
    let lines = trim_all(&raw);
    let thought_l = chars_of("Thought:");
    let action_l = chars_of("Action:");
    let input_l = chars_of("Action Input:");
    let answer_l = chars_of("Final Answer:");
    let ghost ls = trimmed_lines(reply@);
    assert(ls == views(lines@));

    let mut thought: Option<Vec<char>> = None;
    let mut action: Option<(Vec<char>, Vec<char>)> = None;
    let mut answer: Option<Vec<char>> = None;
    let mut i: usize = 0;
    while i < lines.len()
        invariant
            i <= lines.len(),
            ls == views(lines@),
            thought_l@ == thought_label(),
            action_l@ == action_label(),
            input_l@ == input_label(),
            answer_l@ == answer_label(),
            scan_from(ls, 0, nothing_found()) == scan_from(
                ls,
                i as int,
                Scan {
                    thought: chars_opt(thought),
                    action: chars_pair(action),
                    answer: chars_opt(answer),
                },
            ),
        decreases lines.len() - i,
    {
        assert(ls[i as int] == lines@[i as int]@);
        let line = &lines[i];
        if has_prefix(line, &thought_l) {
            let t = rest_of(line, thought_l.len());
            if t.len() > 0 {
                thought = Some(t);
            }
        } else if has_prefix(line, &action_l) {
            let name = rest_of(line, action_l.len());
            let mut input: Vec<char> = Vec::new();
            if i + 1 < lines.len() {
                assert(ls[i + 1] == lines@[i + 1]@);
                if has_prefix(&lines[i + 1], &input_l) {
                    input = rest_of(&lines[i + 1], input_l.len());
                    i += 1;
                }
            }
            action = Some((name, input));
        } else if has_prefix(line, &answer_l) {
            let a = rest_of(line, answer_l.len());
            if a.len() > 0 {
                answer = Some(a);
            }
        }
        i += 1;
    }

    let thought_s = string_opt(&thought);
    if let Some(a) = answer {
        return PlanOutput::FinalAnswer { thought: thought_s, answer: string_of(&a) };
    }
    if let Some((name, input)) = action {
        let finish = chars_of("finish");
        if same_ignoring_ascii_case(&name, &finish) {
            return PlanOutput::FinalAnswer { thought: thought_s, answer: string_of(&input) };
        }
        return PlanOutput::Action(
            PlannedAction { thought: thought_s, tool: string_of(&name), input: string_of(&input) },
        );
    }
    let whole = trim(&cs);
    PlanOutput::FinalAnswer { thought: thought_s, answer: string_of(&whole) }
}

} // verus!
