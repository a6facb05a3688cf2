use rustline::dispatch::{
    build_tool_descriptions, dispatch, list_tools, manual_result, observe, run_manual,
    split_command, unknown_tool,
};
use rustline::tools::{default_tools, find_by_name, time_report, BuiltinTool, EchoTool, TimeTool, Tool};

fn cs(s: &str) -> Vec<char> {
    s.chars().collect()
}

#[test]
fn default_tools_in_order() {
    let tools = default_tools();
    assert_eq!(tools.len(), 2);
    assert!(matches!(tools[0], BuiltinTool::Time(_)));
    assert!(matches!(tools[1], BuiltinTool::Echo(_)));
    assert_eq!(tools[0].name(), "time");
    assert_eq!(tools[1].name(), "echo");
    assert_eq!(tools[0].description(), "Show the current local time. Usage: !time");
    assert_eq!(tools[1].description(), "Echo back the given text. Usage: !echo <text>");
}

#[test]
fn lookup_ignores_case() {
    let tools = default_tools();
    let upper = find_by_name(&tools, "TIME");
    let lower = find_by_name(&tools, "time");
    assert!(matches!(upper, Some(BuiltinTool::Time(_))));
    assert!(matches!(lower, Some(BuiltinTool::Time(_))));
    assert!(std::ptr::eq(upper.unwrap(), lower.unwrap()));
    assert!(matches!(find_by_name(&tools, "eChO"), Some(BuiltinTool::Echo(_))));
}

#[test]
fn lookup_is_exact_but_for_case() {
    let tools = default_tools();
    assert!(find_by_name(&tools, "tim").is_none());
    assert!(find_by_name(&tools, "time ").is_none());
    assert!(find_by_name(&tools, "").is_none());
    assert!(find_by_name(&tools, "frobnicate").is_none());
}

#[test]
fn echo_trims_its_argument() {
    assert_eq!(EchoTool.invoke("  hello world \n"), Ok("hello world".to_string()));
    assert_eq!(EchoTool.invoke(""), Ok(String::new()));
}

#[test]
fn time_tool_reports_a_time_stamp() {
    let report = TimeTool.invoke("ignored").unwrap();
    assert!(report.starts_with("Current local time: "));
    let stamp = &report["Current local time: ".len()..];
    let shape: String =
        stamp.chars().map(|c| if c.is_ascii_digit() { '0' } else { c }).collect();
    assert_eq!(shape, "0000-00-00 00:00:00");
}

#[test]
fn time_report_is_prefix_and_stamp() {
    assert_eq!(time_report("2024-01-02 03:04:05"), "Current local time: 2024-01-02 03:04:05");
    assert_eq!(time_report(""), "Current local time: ");
}

#[test]
fn descriptions_and_names() {
    let (descs, names) = build_tool_descriptions(&default_tools());
    assert_eq!(
        descs,
        "time | Show the current local time. Usage: !time\n\
         echo | Echo back the given text. Usage: !echo <text>\n"
    );
    assert_eq!(names, "time, echo");
}

#[test]
fn descriptions_of_no_and_one_tool() {
    let none: Vec<BuiltinTool> = Vec::new();
    assert_eq!(build_tool_descriptions(&none), (String::new(), String::new()));
    let one = vec![BuiltinTool::Echo(EchoTool)];
    let (descs, names) = build_tool_descriptions(&one);
    assert_eq!(descs, "echo | Echo back the given text. Usage: !echo <text>\n");
    assert_eq!(names, "echo");
}

#[test]
fn listing_of_tools() {
    assert_eq!(
        list_tools(&default_tools()),
        "Available tools:\n  !time - Show the current local time. Usage: !time\n  \
         !echo - Echo back the given text. Usage: !echo <text>\n"
    );
}

#[test]
fn observation_of_success_and_failure() {
    assert_eq!(observe("echo", &Ok("hi".to_string())), "hi");
    assert_eq!(observe("echo", &Err("boom".to_string())), "Tool `echo` error: boom");
}

#[test]
fn observation_of_unknown_tool() {
    assert_eq!(
        unknown_tool(&default_tools(), "frobnicate"),
        "Unknown tool `frobnicate`. Available tools: time, echo"
    );
    assert_eq!(
        dispatch(&default_tools(), "frobnicate", "x"),
        "Unknown tool `frobnicate`. Available tools: time, echo"
    );
}

#[test]
fn dispatch_calls_the_tool() {
    assert_eq!(dispatch(&default_tools(), "echo", " a b "), "a b");
    assert_eq!(dispatch(&default_tools(), "ECHO", "x"), "x");
    assert!(dispatch(&default_tools(), "time", "").starts_with("Current local time: "));
}

#[test]
fn manual_result_texts() {
    assert_eq!(manual_result("echo", &Ok("hi".to_string())), "[tool:echo]\nhi");
    assert_eq!(manual_result("echo", &Err("boom".to_string())), "Tool `echo` error: boom");
}

#[test]
fn manual_commands() {
    let tools = default_tools();
    assert_eq!(run_manual(&tools, "echo", "hello world"), "[tool:echo]\nhello world");
    assert_eq!(run_manual(&tools, "tools", ""), list_tools(&tools));
    assert_eq!(run_manual(&tools, "help", "anything"), list_tools(&tools));
    assert_eq!(run_manual(&tools, "", "x"), "Usage: !<tool> [args]. Try !tools to list tools.");
    assert_eq!(
        run_manual(&tools, "frobnicate", "x"),
        "Unknown tool: frobnicate\nAvailable tools: time, echo"
    );
}

#[test]
fn commands_split_at_the_first_space() {
    assert_eq!(split_command(&cs("echo hello world")), (cs("echo"), cs("hello world")));
    assert_eq!(split_command(&cs("echo   a  b  ")), (cs("echo"), cs("a  b")));
    assert_eq!(split_command(&cs("time")), (cs("time"), cs("")));
    assert_eq!(split_command(&cs("")), (cs(""), cs("")));
    assert_eq!(split_command(&cs(" x")), (cs(""), cs("x")));
    assert_eq!(split_command(&cs("a\tb c")), (cs("a\tb"), cs("c")));
}
