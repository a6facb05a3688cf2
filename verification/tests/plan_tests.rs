use rustline::plan::{parse_react_reply, PlanOutput};

fn expect_answer(reply: &str, thought: Option<&str>, answer: &str) {
    match parse_react_reply(reply) {
        PlanOutput::FinalAnswer { thought: t, answer: a } => {
            assert_eq!(t.as_deref(), thought);
            assert_eq!(a.as_str(), answer);
        }
        PlanOutput::Action(p) => panic!("an action came back: {} / {}", p.tool, p.input),
    }
}

fn expect_action(reply: &str, thought: Option<&str>, tool: &str, input: &str) {
    match parse_react_reply(reply) {
        PlanOutput::Action(p) => {
            assert_eq!(p.thought.as_deref(), thought);
            assert_eq!(p.tool.as_str(), tool);
            assert_eq!(p.input.as_str(), input);
        }
        PlanOutput::FinalAnswer { answer, .. } => panic!("an answer came back: {}", answer),
    }
}

#[test]
fn action_with_empty_input_line() {
    expect_action(
        "Thought: check time\nAction: time\nAction Input: \nObservation:",
        Some("check time"),
        "time",
        "",
    );
}

#[test]
fn bare_final_answer() {
    expect_answer("Final Answer: 42", None, "42");
}

#[test]
fn final_answer_beats_earlier_action() {
    expect_answer(
        "Thought: look\nAction: echo\nAction Input: hi\nFinal Answer:   done  ",
        Some("look"),
        "done",
    );
}

#[test]
fn final_answer_beats_later_action() {
    expect_answer("Final Answer: first\nAction: echo\nAction Input: hi", None, "first");
}

#[test]
fn last_final_answer_wins() {
    expect_answer("Final Answer: one\nFinal Answer: two", None, "two");
}

#[test]
fn empty_final_answer_keeps_earlier_one() {
    expect_answer("Final Answer: kept\nFinal Answer:   ", None, "kept");
}

#[test]
fn empty_final_answer_alone_falls_back() {
    expect_answer("Final Answer:", None, "Final Answer:");
}

#[test]
fn finish_action_gives_its_input() {
    expect_answer("Action: finish\nAction Input: all done", None, "all done");
}

#[test]
fn finish_action_in_any_case() {
    expect_answer("Thought: ok\nAction: FiNiSH\nAction Input: yes", Some("ok"), "yes");
}

#[test]
fn finish_action_without_input_gives_empty_answer() {
    expect_answer("Action: finish", None, "");
}

#[test]
fn plain_reply_is_the_answer() {
    expect_answer("  \n hello there\nsecond line \n\n", None, "hello there\nsecond line");
}

#[test]
fn empty_reply_is_an_empty_answer() {
    expect_answer("", None, "");
}

#[test]
fn input_label_alone_is_no_structure() {
    expect_answer("Action Input: x", None, "Action Input: x");
}

#[test]
fn labels_are_case_sensitive() {
    expect_answer("action: time\nfinal answer: 1", None, "action: time\nfinal answer: 1");
}

#[test]
fn last_thought_wins() {
    expect_answer("Thought: a\nThought: b\nFinal Answer: c", Some("b"), "c");
}

#[test]
fn empty_thought_keeps_earlier_one() {
    expect_answer("Thought: a\nThought:\nFinal Answer: c", Some("a"), "c");
}

#[test]
fn thought_is_kept_on_fallback() {
    expect_answer("Thought: hm\nno structure", Some("hm"), "Thought: hm\nno structure");
}

#[test]
fn last_action_wins() {
    expect_action("Action: time\nAction: echo\nAction Input: hi", None, "echo", "hi");
}

#[test]
fn action_without_input_line_has_empty_input() {
    expect_action("Action: time\nObservation: x", None, "time", "");
}

#[test]
fn action_at_the_end_has_empty_input() {
    expect_action("Thought: t\nAction: time", Some("t"), "time", "");
}

#[test]
fn input_line_is_passed_over() {
    // The input line is consumed with its action, so the answer label inside
    // it does not count.
    expect_action("Action: echo\nAction Input: Final Answer: no", None, "echo", "Final Answer: no");
}

#[test]
fn input_must_follow_directly() {
    expect_action("Action: echo\n\nAction Input: late", None, "echo", "");
}

#[test]
fn lines_are_trimmed_and_carriage_returns_dropped() {
    expect_action(
        "  Thought:   think  \r\n\tAction:  echo \r\n  Action Input:   a b  \r\n",
        Some("think"),
        "echo",
        "a b",
    );
}

#[test]
fn unicode_whitespace_is_trimmed() {
    expect_answer("\u{3000}Final Answer:\u{a0}\u{2003}x\u{2028}", None, "x");
}

#[test]
fn action_name_keeps_its_case() {
    expect_action("Action: TIME", None, "TIME", "");
}
