use rustline::agent::{Agent, Pending, Turn, MAX_ITERATIONS};
use rustline::ollama::{chat_url, http_error, single_turn, Message, Role};
use rustline::config::Config;
use rustline::prompt::{build_prompt, build_scratchpad, AgentStep};
use rustline::tools::default_tools;

fn agent() -> Agent {
    Agent::new(Config::load(None, None))
}

fn texts(history: &Vec<Message>) -> Vec<(Role, String)> {
    history.iter().map(|m| (m.role, m.content.clone())).collect()
}

fn ask(agent: &mut Agent, input: &str) -> Pending {
    match agent.handle_message(input) {
        Turn::Ask(p) => p,
        _ => panic!("the request ended at once"),
    }
}

fn step(action: &str, input: &str, observation: &str) -> AgentStep {
    AgentStep {
        action: action.to_string(),
        action_input: input.to_string(),
        observation: observation.to_string(),
    }
}

#[test]
fn config_defaults() {
    let c = Config::load(None, None);
    assert_eq!(c.ollama_base_url, "http://localhost:11434");
    assert_eq!(c.model, "gemma3");
    let c = Config::load(Some("http://h:1".to_string()), None);
    assert_eq!(c.ollama_base_url, "http://h:1");
    assert_eq!(c.model, "gemma3");
    let c = Config::load(None, Some("llama".to_string()));
    assert_eq!(c.ollama_base_url, "http://localhost:11434");
    assert_eq!(c.model, "llama");
}

#[test]
fn new_agent_is_empty() {
    let a = agent();
    assert!(a.history().is_empty());
    assert_eq!(a.tools().len(), 2);
    assert_eq!(a.config().model, "gemma3");
    assert_eq!(a.config().ollama_base_url, "http://localhost:11434");
}

#[test]
fn empty_input_is_answered_at_once() {
    let mut a = agent();
    match a.handle_message("") {
        Turn::Finished(s) => assert_eq!(s, "You didn't type anything \u{1F914}"),
        _ => panic!("another turn"),
    }
    assert!(a.history().is_empty());
}

#[test]
fn manual_echo() {
    let mut a = agent();
    match a.handle_message("!echo hello world") {
        Turn::Finished(s) => {
            assert_eq!(s, "[tool:echo]\nhello world");
            assert!(s.ends_with("hello world"));
        }
        _ => panic!("another turn"),
    }
    assert_eq!(
        texts(a.history()),
        vec![
            (Role::User, "!echo hello world".to_string()),
            (Role::Assistant, "[tool:echo]\nhello world".to_string()),
        ]
    );
}

#[test]
fn manual_unknown_tool() {
    let mut a = agent();
    let reply = a.handle_message("!frobnicate x").into_reply().unwrap();
    assert_eq!(reply, "Unknown tool: frobnicate\nAvailable tools: time, echo");
    assert!(reply.contains("frobnicate"));
    assert!(reply.contains("time"));
    assert!(reply.contains("echo"));
    assert_eq!(
        texts(a.history()),
        vec![(Role::User, "!frobnicate x".to_string()), (Role::Assistant, reply)]
    );
}

#[test]
fn manual_name_counts_in_lowercase() {
    let a = agent();
    assert_eq!(a.try_run_tool("!ECHO Hi There"), Some("[tool:echo]\nHi There".to_string()));
    assert_eq!(
        a.try_run_tool("!\u{c9}CHO x"),
        Some("Unknown tool: \u{e9}cho\nAvailable tools: time, echo".to_string())
    );
    assert_eq!(
        a.try_run_tool("!TOOLS"),
        Some(
            "Available tools:\n  !time - Show the current local time. Usage: !time\n  \
             !echo - Echo back the given text. Usage: !echo <text>\n"
                .to_string()
        )
    );
    assert_eq!(a.try_run_tool("!Help me"), a.try_run_tool("!tools"));
}

#[test]
fn manual_usage_and_no_command() {
    let a = agent();
    let usage = Some("Usage: !<tool> [args]. Try !tools to list tools.".to_string());
    assert_eq!(a.try_run_tool("!"), usage);
    assert_eq!(a.try_run_tool("! echo"), usage);
    assert_eq!(a.try_run_tool("echo hi"), None);
    assert_eq!(a.try_run_tool(""), None);
    assert_eq!(a.try_run_tool(" !echo hi"), None);
}

#[test]
fn manual_time() {
    let mut a = agent();
    let reply = a.handle_message("!time").into_reply().unwrap();
    assert!(reply.starts_with("[tool:time]\nCurrent local time: "));
    assert_eq!(a.history().len(), 2);
}

#[test]
fn question_asks_the_model() {
    let mut a = agent();
    let p = ask(&mut a, "what time is it?");
    assert_eq!(p.question, "what time is it?");
    assert!(p.steps.is_empty());
    assert_eq!(p.prompt, build_prompt("what time is it?", &Vec::new(), &default_tools()));
    assert!(a.history().is_empty());
}

#[test]
fn scratchpad_shows_each_step() {
    assert_eq!(build_scratchpad(&Vec::new()), "");
    assert_eq!(
        build_scratchpad(&vec![step("echo", "a", "a"), step("time", "", "noon")]),
        "Thought: I should use a tool.\nAction: echo\nAction Input: a\nObservation: a\n\
         Thought: I should use a tool.\nAction: time\nAction Input: \nObservation: noon\n"
    );
}

#[test]
fn prompt_holds_the_four_texts_at_their_places() {
    let prompt = build_prompt("why?", &vec![step("echo", "a", "b")], &default_tools());
    assert!(prompt.starts_with(
        "\nYou are Rustline, a helpful assistant that solves problems by reasoning step-by-step\n\
         and using tools when needed.\n\nYou have access to the following tools:\n\n\
         time | Show the current local time. Usage: !time\n\
         echo | Echo back the given text. Usage: !echo <text>\n\
         \n\nEach tool is described as: name | description\n"
    ));
    assert!(prompt.contains(
        "Action: the action to take, must be one of [time, echo] or 'finish'\n"
    ));
    assert!(prompt.ends_with(
        "- Always strictly follow the format above.\n\nPrevious steps (if any):\n\
         Thought: I should use a tool.\nAction: echo\nAction Input: a\nObservation: b\n\
         \n\nNow begin!\n\nQuestion: why?\n"
    ));
    assert_eq!(prompt.chars().count(), 1051 + 102 + 10 + 74 + 4);
}

const TEMPLATE: &str = r#"
You are Rustline, a helpful assistant that solves problems by reasoning step-by-step
and using tools when needed.

You have access to the following tools:

{tool_descriptions}

Each tool is described as: name | description

You MUST use the following format to reason and act:

Question: the input question you must answer
Thought: you should always think about what to do
Action: the action to take, must be one of [{tool_names}] or 'finish'
Action Input: the input to the action (as plain text arguments)
Observation: the result of the action
... (this Thought/Action/Action Input/Observation can repeat zero or more times)
Thought: I now know the final answer
Final Answer: the final answer to the original input question

IMPORTANT:
- If you need to use a tool, set Action to a tool name (e.g. time, echo) and provide Action Input.
- If you are ready to answer the question, set Action to 'finish' and write the final answer in 'Final Answer'.
- Do NOT invent tools not in the list.
- Always strictly follow the format above.

Previous steps (if any):
{scratchpad}

Now begin!

Question: {question}
"#;

#[test]
fn prompt_is_the_template_with_its_places_filled() {
    let steps = vec![step("echo", "a", "b"), step("time", "", "noon")];
    let want = TEMPLATE
        .replace(
            "{tool_descriptions}",
            "time | Show the current local time. Usage: !time\n\
             echo | Echo back the given text. Usage: !echo <text>\n",
        )
        .replace("{tool_names}", "time, echo")
        .replace(
            "{scratchpad}",
            "Thought: I should use a tool.\nAction: echo\nAction Input: a\nObservation: b\n\
             Thought: I should use a tool.\nAction: time\nAction Input: \nObservation: noon\n",
        )
        .replace("{question}", "why is that?");
    assert_eq!(build_prompt("why is that?", &steps, &default_tools()), want);
}

#[test]
fn question_is_not_read_for_tokens() {
    let prompt = build_prompt("{scratchpad}", &Vec::new(), &default_tools());
    assert!(prompt.ends_with("Previous steps (if any):\n\n\nNow begin!\n\nQuestion: {scratchpad}\n"));
}

#[test]
fn token_in_an_earlier_text_is_replaced_too() {
    let steps = vec![step("echo", "{question}", "{question}")];
    let prompt = build_prompt("Q", &steps, &default_tools());
    assert!(prompt.contains("Action Input: Q\nObservation: Q\n"));
    assert_eq!(prompt, TEMPLATE
        .replace(
            "{tool_descriptions}",
            "time | Show the current local time. Usage: !time\n\
             echo | Echo back the given text. Usage: !echo <text>\n",
        )
        .replace("{tool_names}", "time, echo")
        .replace(
            "{scratchpad}",
            "Thought: I should use a tool.\nAction: echo\nAction Input: {question}\n\
             Observation: {question}\n",
        )
        .replace("{question}", "Q"));
}

#[test]
fn final_answer_ends_the_request() {
    let mut a = agent();
    let p = ask(&mut a, "q");
    match a.continue_with(p, Ok("Thought: easy\nFinal Answer: 42".to_string())) {
        Turn::Finished(s) => assert_eq!(s, "42"),
        _ => panic!("another turn"),
    }
    assert_eq!(
        texts(a.history()),
        vec![(Role::User, "q".to_string()), (Role::Assistant, "42".to_string())]
    );
}

#[test]
fn plain_reply_ends_the_request() {
    let mut a = agent();
    let p = ask(&mut a, "q");
    let reply = a.continue_with(p, Ok("  just text ".to_string())).into_reply();
    assert_eq!(reply, Some("just text".to_string()));
    assert_eq!(a.history().len(), 2);
}

#[test]
fn action_is_carried_out_and_asked_on() {
    let mut a = agent();
    let p = ask(&mut a, "q");
    let p = match a.continue_with(p, Ok("Action:  ECHO \nAction Input: hi there".to_string())) {
        Turn::Ask(p) => p,
        _ => panic!("the request ended"),
    };
    assert_eq!(p.question, "q");
    assert_eq!(p.steps.len(), 1);
    assert_eq!(p.steps[0].action, "echo");
    assert_eq!(p.steps[0].action_input, "hi there");
    assert_eq!(p.steps[0].observation, "hi there");
    assert_eq!(p.prompt, build_prompt("q", &p.steps, &default_tools()));
    assert!(a.history().is_empty());
}

#[test]
fn unknown_action_becomes_an_observation() {
    let mut a = agent();
    let p = ask(&mut a, "q");
    let p = match a.continue_with(p, Ok("Action: Frobnicate\nAction Input: x".to_string())) {
        Turn::Ask(p) => p,
        _ => panic!("the request ended"),
    };
    assert_eq!(p.steps[0].action, "frobnicate");
    assert_eq!(p.steps[0].observation, "Unknown tool `frobnicate`. Available tools: time, echo");
}

#[test]
fn loop_stops_at_the_limit() {
    assert_eq!(MAX_ITERATIONS, 5);
    let mut a = agent();
    let mut p = ask(&mut a, "q");
    let mut asked = 1;
    let last = loop {
        match a.continue_with(p, Ok("Action: echo\nAction Input: again".to_string())) {
            Turn::Ask(next) => {
                assert_eq!(next.steps.len(), asked);
                p = next;
                asked += 1;
            }
            other => break other,
        }
    };
    assert_eq!(asked, 5);
    match last {
        Turn::Stopped(s) => {
            assert_eq!(s, "Agent stopped due to max iterations without finishing.")
        }
        _ => panic!("another end"),
    }
    assert!(a.history().is_empty());
}

#[test]
fn backend_failure_ends_the_request() {
    let mut a = agent();
    let p = ask(&mut a, "q");
    match a.continue_with(p, Err("connection refused".to_string())) {
        Turn::Failed(s) => assert_eq!(s, "Error: connection refused"),
        _ => panic!("another turn"),
    }
    assert_eq!(
        texts(a.history()),
        vec![
            (Role::User, "q".to_string()),
            (Role::Assistant, "Error: connection refused".to_string()),
        ]
    );
    let p = ask(&mut a, "again");
    assert_eq!(a.continue_with(p, Ok("fine".to_string())).into_reply(), Some("fine".to_string()));
    assert_eq!(a.history().len(), 4);
}

#[test]
fn reset_twice_is_reset_once() {
    let mut a = agent();
    a.handle_message("!echo a");
    a.set_model("other".to_string());
    assert_eq!(a.history().len(), 2);
    a.reset();
    let once = (texts(a.history()), a.config().model.clone(), a.config().ollama_base_url.clone());
    a.reset();
    let twice = (texts(a.history()), a.config().model.clone(), a.config().ollama_base_url.clone());
    assert_eq!(once, twice);
    assert!(a.history().is_empty());
    assert_eq!(a.config().model, "other");
}

#[test]
fn set_model_changes_the_model_only() {
    let mut a = agent();
    a.handle_message("!echo a");
    a.set_model("llama3".to_string());
    assert_eq!(a.config().model, "llama3");
    assert_eq!(a.config().ollama_base_url, "http://localhost:11434");
    assert_eq!(a.history().len(), 2);
}

#[test]
fn into_reply_of_each_turn() {
    assert_eq!(Turn::Finished("a".to_string()).into_reply(), Some("a".to_string()));
    assert_eq!(Turn::Stopped("b".to_string()).into_reply(), Some("b".to_string()));
    assert_eq!(Turn::Failed("c".to_string()).into_reply(), Some("c".to_string()));
    let p = Pending { question: String::new(), steps: Vec::new(), prompt: String::new() };
    assert_eq!(Turn::Ask(p).into_reply(), None);
}

#[test]
fn chat_url_drops_trailing_slashes() {
    assert_eq!(chat_url("http://localhost:11434"), "http://localhost:11434/api/chat");
    assert_eq!(chat_url("http://localhost:11434///"), "http://localhost:11434/api/chat");
    assert_eq!(chat_url(""), "/api/chat");
    assert_eq!(chat_url("/"), "/api/chat");
}

#[test]
fn single_turn_is_one_user_message() {
    let m = single_turn("the prompt");
    assert_eq!(texts(&m), vec![(Role::User, "the prompt".to_string())]);
}

#[test]
fn http_error_text() {
    assert_eq!(http_error("404 Not Found", "no model"), "Ollama HTTP error 404 Not Found: no model");
}

#[test]
fn role_names() {
    assert_eq!(Role::System.as_str(), "system");
    assert_eq!(Role::User.as_str(), "user");
    assert_eq!(Role::Assistant.as_str(), "assistant");
}
