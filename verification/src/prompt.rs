//! The prompt that asks the model for its next step: a fixed text that
//! explains the format, with the tools, the steps taken so far and the
//! question put in for its four tokens.

use vstd::prelude::*;
use vstd::string::StringExecFns;
use crate::dispatch::{build_tool_descriptions, describe_all, name_list};
use crate::text::{chars_of, replace, replace_all, string_of};
use crate::tools::Tool;

verus! {

/// One finished round of the loop: the tool called, its input, and what it
/// gave.
pub struct AgentStep {
    pub action: String,
    pub action_input: String,
    pub observation: String,
}

/// A step as mathematical text.
pub struct StepText {
    pub action: Seq<char>,
    pub input: Seq<char>,
    pub observation: Seq<char>,
}

impl View for AgentStep {
    type V = StepText;

    open spec fn view(&self) -> StepText {
        StepText { action: self.action@, input: self.action_input@, observation: self.observation@ }
    }
}

/// The steps of a scratchpad as mathematical text.
pub open spec fn steps_text(steps: Seq<AgentStep>) -> Seq<StepText> {
    steps.map_values(|s: AgentStep| s@)
}

/// The fixed text of the prompt, with a token in braces at each of its four
/// places.
pub open spec fn template() -> Seq<char> {
    "\nYou are Rustline, a helpful assistant that solves problems by reasoning step-by-step\nand using tools when needed.\n\nYou have access to the following tools:\n\n{tool_descriptions}\n\nEach tool is described as: name | description\n\nYou MUST use the following format to reason and act:\n\nQuestion: the input question you must answer\nThought: you should always think about what to do\nAction: the action to take, must be one of [{tool_names}] or 'finish'\nAction Input: the input to the action (as plain text arguments)\nObservation: the result of the action\n... (this Thought/Action/Action Input/Observation can repeat zero or more times)\nThought: I now know the final answer\nFinal Answer: the final answer to the original input question\n\nIMPORTANT:\n- If you need to use a tool, set Action to a tool name (e.g. time, echo) and provide Action Input.\n- If you are ready to answer the question, set Action to 'finish' and write the final answer in 'Final Answer'.\n- Do NOT invent tools not in the list.\n- Always strictly follow the format above.\n\nPrevious steps (if any):\n{scratchpad}\n\nNow begin!\n\nQuestion: {question}\n"@
}

/// The scratchpad: four lines for each step, in the steps' order.
pub open spec fn scratchpad_text(steps: Seq<StepText>) -> Seq<char>
    decreases steps.len(),
{
    if steps.len() == 0 {
        Seq::empty()
    } else {
        scratchpad_text(steps.drop_last()) + "Thought: I should use a tool.\nAction: "@
            + steps.last().action + "\nAction Input: "@ + steps.last().input + "\nObservation: "@
            + steps.last().observation + "\n"@
    }
}

/// The template with its four tokens replaced, one after the other: the
/// descriptions of the tools, the list of their names, the scratchpad, the
/// question. Nothing is escaped: a token inside a text that was put in
/// earlier is replaced with the later ones.
pub open spec fn prompt_text(
    descriptions: Seq<char>,
    names: Seq<char>,
    scratchpad: Seq<char>,
    question: Seq<char>,
) -> Seq<char> {
    replace_all(
        replace_all(
            replace_all(
                replace_all(template(), "{tool_descriptions}"@, descriptions),
                "{tool_names}"@,
                names,
            ),
            "{scratchpad}"@,
            scratchpad,
        ),
        "{question}"@,
        question,
    )
}

/// The characters of a token, which are at least one.
fn token(text: &str) -> (r: Vec<char>)
    requires
        text@.len() > 0,
    ensures
        r@ == text@,
        r.len() > 0,
{
    chars_of(text)
}

/// The prompt for `question` after `steps`, with `tools` on offer.
pub open spec fn prompt_for<T: Tool>(
    tools: Seq<T>,
    steps: Seq<StepText>,
    question: Seq<char>,
) -> Seq<char> {
    prompt_text(describe_all(tools), name_list(tools), scratchpad_text(steps), question)
}

/// The scratchpad that shows `steps` to the model.
pub fn build_scratchpad(steps: &Vec<AgentStep>) -> (r: String)
    ensures
        r@ == scratchpad_text(steps_text(steps@)),
{
    let mut out = String::new();
    let mut i: usize = 0;
    assert(steps_text(steps@).take(0).len() == 0);
    while i < steps.len()
        invariant
            i <= steps.len(),
            out@ == scratchpad_text(steps_text(steps@).take(i as int)),
        decreases steps.len() - i,
    {
        let ghost before = steps_text(steps@).take(i as int);
        let ghost now = steps_text(steps@).take(i + 1);
        assert(now.drop_last() =~= before);
        assert(now.last() == steps@[i as int]@);
        out.append("Thought: I should use a tool.\nAction: ");
        out.append(steps[i].action.as_str());
        out.append("\nAction Input: ");
        out.append(steps[i].action_input.as_str());
        out.append("\nObservation: ");
        out.append(steps[i].observation.as_str());
        out.append("\n");
        i += 1;
    }
    assert(steps_text(steps@).take(steps.len() as int) =~= steps_text(steps@));
    out
}

/// Builds the prompt for `question` after `steps`, with `tools` on offer.
pub fn build_prompt<T: Tool>(question: &str, steps: &Vec<AgentStep>, tools: &Vec<T>) -> (r: String)
    ensures
        r@ == prompt_for(tools@, steps_text(steps@), question@),
{
    let (descriptions, names) = build_tool_descriptions(tools);
    let scratchpad = build_scratchpad(steps);
    proof {
        reveal_strlit("{tool_descriptions}");
        reveal_strlit("{tool_names}");
        reveal_strlit("{scratchpad}");
        reveal_strlit("{question}");
    }
    let text = chars_of("\nYou are Rustline, a helpful assistant that solves problems by reasoning step-by-step\nand using tools when needed.\n\nYou have access to the following tools:\n\n{tool_descriptions}\n\nEach tool is described as: name | description\n\nYou MUST use the following format to reason and act:\n\nQuestion: the input question you must answer\nThought: you should always think about what to do\nAction: the action to take, must be one of [{tool_names}] or 'finish'\nAction Input: the input to the action (as plain text arguments)\nObservation: the result of the action\n... (this Thought/Action/Action Input/Observation can repeat zero or more times)\nThought: I now know the final answer\nFinal Answer: the final answer to the original input question\n\nIMPORTANT:\n- If you need to use a tool, set Action to a tool name (e.g. time, echo) and provide Action Input.\n- If you are ready to answer the question, set Action to 'finish' and write the final answer in 'Final Answer'.\n- Do NOT invent tools not in the list.\n- Always strictly follow the format above.\n\nPrevious steps (if any):\n{scratchpad}\n\nNow begin!\n\nQuestion: {question}\n");
    let text = replace(&text, &token("{tool_descriptions}"), &chars_of(descriptions.as_str()));
    let text = replace(&text, &token("{tool_names}"), &chars_of(names.as_str()));
    let text = replace(&text, &token("{scratchpad}"), &chars_of(scratchpad.as_str()));
    let text = replace(&text, &token("{question}"), &chars_of(question));
    string_of(&text)
}

} // verus!
