//! The agent: its settings, its tools and its conversation, and the bounded
//! loop of asking the model, decoding its reply and calling a tool, one step
//! at a time. The agent decides; whoever drives it puts each prompt to the
//! model and hands the reply back.

use vstd::prelude::*;
use vstd::string::StringExecFns;
use crate::config::Config;
pub use crate::dispatch::build_tool_descriptions;
use crate::dispatch::{
    command_args, command_name, dispatch, manual_reply, observed, run_manual, split_command,
};
use crate::ollama::{history_text, Message, MessageText, Role};
pub use crate::plan::{parse_react_reply, PlanOutput, PlannedAction};
use crate::plan::{parse_reply, Plan};
pub use crate::prompt::AgentStep;
use crate::prompt::{build_prompt, prompt_for, steps_text, StepText};
use crate::text::{chars_of, lowercase_text, slice_of, string_of, to_lowercase, trim, trimmed};
use crate::tools::{default_tools, distinct_names, outcome_text, BuiltinTool, EchoTool, TimeTool};

verus! {

/// How often the model is asked, at most, for one question.
pub const MAX_ITERATIONS: usize = 5;

/// A question in progress: the steps taken so far and the prompt that the
/// model is to answer next.
pub struct Pending {
    pub question: String,
    pub steps: Vec<AgentStep>,
    pub prompt: String,
}

/// What the agent hands back: a prompt to put to the model, or the reply
/// that ends the request.
pub enum Turn {
    /// The model is to answer the prompt; its reply continues the request.
    Ask(Pending),
    /// The request is answered.
    Finished(String),
    /// The model was asked as often as allowed and did not conclude.
    Stopped(String),
    /// The backend failed.
    Failed(String),
}

/// A turn as mathematical text.
pub enum TurnText {
    Ask { question: Seq<char>, steps: Seq<StepText>, prompt: Seq<char> },
    Finished(Seq<char>),
    Stopped(Seq<char>),
    Failed(Seq<char>),
}

impl View for Turn {
    type V = TurnText;

    open spec fn view(&self) -> TurnText {
        match *self {
            Turn::Ask(p) => TurnText::Ask {
                question: p.question@,
                steps: steps_text(p.steps@),
                prompt: p.prompt@,
            },
            Turn::Finished(s) => TurnText::Finished(s@),
            Turn::Stopped(s) => TurnText::Stopped(s@),
            Turn::Failed(s) => TurnText::Failed(s@),
        }
    }
}

/// The reply to an empty input.
pub open spec fn nothing_typed_text() -> Seq<char> {
    "You didn't type anything \u{1F914}"@
}

/// The reply where the model did not conclude in time.
pub open spec fn stopped_text() -> Seq<char> {
    "Agent stopped due to max iterations without finishing."@
}

/// The reply where the backend failed with the message `e`.
pub open spec fn failure_text(e: Seq<char>) -> Seq<char> {
    "Error: "@ + e
}

/// Whether `input` is a manual command: it begins with an exclamation mark.
pub open spec fn is_command(input: Seq<char>) -> bool {
    input.len() > 0 && input[0] == '!'
}

/// The turn after a step that brought the scratchpad to `steps`: the reply
/// that the loop stopped where the limit is reached, else the next prompt.
pub open spec fn after_step(
    tools: Seq<BuiltinTool>,
    question: Seq<char>,
    steps: Seq<StepText>,
) -> TurnText {
    if steps.len() >= MAX_ITERATIONS {
        TurnText::Stopped(stopped_text())
    } else {
        TurnText::Ask { question, steps, prompt: prompt_for(tools, steps, question) }
    }
}

/// Where a request stands.
pub enum Phase {
    /// The model has been asked this many times and is asked once more.
    Iterating(nat),
    Finished,
    Stopped,
    Failed,
}

/// Where a request stands after `turn`.
pub open spec fn phase_of(turn: TurnText) -> Phase {
    match turn {
        TurnText::Ask { steps, .. } => Phase::Iterating(steps.len()),
        TurnText::Finished(_) => Phase::Finished,
        TurnText::Stopped(_) => Phase::Stopped,
        TurnText::Failed(_) => Phase::Failed,
    }
}

/// Where a request stands after one more reply of the backend.
pub open spec fn advance(phase: Phase, reply: Result<Seq<char>, Seq<char>>) -> Phase {
    match phase {
        Phase::Iterating(n) => match reply {
            Err(_) => Phase::Failed,
            Ok(text) => if parse_reply(text) is FinalAnswer {
                Phase::Finished
            } else if n + 1 >= MAX_ITERATIONS {
                Phase::Stopped
            } else {
                Phase::Iterating(n + 1)
            },
        },
        _ => phase,
    }
}

/// Where a request stands after the replies `replies`, one after the other.
pub open spec fn run(phase: Phase, replies: Seq<Result<Seq<char>, Seq<char>>>) -> Phase
    decreases replies.len(),
{
    if replies.len() == 0 {
        phase
    } else {
        run(advance(phase, replies[0]), replies.drop_first())
    }
}

/// From `n` replies in, a run of replies that all ask for an action goes on
/// while the limit is not reached and stops where it is.
proof fn lemma_run_from(n: nat, replies: Seq<Result<Seq<char>, Seq<char>>>)
    requires
        n < MAX_ITERATIONS,
        forall|i: int|
            0 <= i < replies.len() ==> (#[trigger] replies[i]) is Ok && parse_reply(
                replies[i]->Ok_0,
            ) is Action,
    ensures
        n + replies.len() < MAX_ITERATIONS ==> run(Phase::Iterating(n), replies)
            == Phase::Iterating(n + replies.len()),
        n + replies.len() >= MAX_ITERATIONS ==> run(Phase::Iterating(n), replies) == Phase::Stopped,
    decreases replies.len(),
{
    if replies.len() > 0 {
        let rest = replies.drop_first();
        assert(replies[0] is Ok);
        assert forall|i: int| 0 <= i < rest.len() implies (#[trigger] rest[i]) is Ok && parse_reply(
            rest[i]->Ok_0,
        ) is Action by {
            assert(rest[i] == replies[i + 1]);
        }
        if n + 1 < MAX_ITERATIONS {
            lemma_run_from((n + 1) as nat, rest);
        } else {
            lemma_run_stays(Phase::Stopped, rest);
        }
    }
}

/// A request that has ended stays where it is, whatever replies follow.
proof fn lemma_run_stays(phase: Phase, replies: Seq<Result<Seq<char>, Seq<char>>>)
    requires
        !(phase is Iterating),
    ensures
        run(phase, replies) == phase,
    decreases replies.len(),
{
    if replies.len() > 0 {
        lemma_run_stays(phase, replies.drop_first());
    }
}

/// The loop is bounded. A request whose replies all ask for an action, none
/// for the end, is still going on after fewer replies than the limit, with
/// one step taken for each, and has stopped after as many replies as the
/// limit allows.
pub proof fn lemma_loop_stops_at_limit(replies: Seq<Result<Seq<char>, Seq<char>>>)
    requires
        forall|i: int|
            0 <= i < replies.len() ==> (#[trigger] replies[i]) is Ok && parse_reply(
                replies[i]->Ok_0,
            ) is Action,
    ensures
        replies.len() < MAX_ITERATIONS ==> run(Phase::Iterating(0), replies) == Phase::Iterating(
            replies.len(),
        ),
        replies.len() >= MAX_ITERATIONS ==> run(Phase::Iterating(0), replies) == Phase::Stopped,
{
    lemma_run_from(0, replies);
}

/// Whether `turns` and `agents` are the course of one question: each reply
/// answers the prompt of the turn before it, and the turn and the agent
/// after it are what `Agent::continue_with` gives.
pub open spec fn course(
    agents: Seq<Agent>,
    turns: Seq<TurnText>,
    replies: Seq<Result<Seq<char>, Seq<char>>>,
) -> bool {
    &&& agents.len() == replies.len() + 1
    &&& turns.len() == replies.len() + 1
    &&& forall|j: int|
        0 <= j < replies.len() ==> (#[trigger] turns[j]) is Ask && agents[j + 1].continued(
            &agents[j],
            turns[j]->question,
            turns[j]->steps,
            replies[j],
            turns[j + 1],
        )
}

/// Whether each of `replies` is a reply of the model that asks for an
/// action: none fails, none gives a final answer or the action `finish`.
pub open spec fn all_ask_for_actions(replies: Seq<Result<Seq<char>, Seq<char>>>) -> bool {
    forall|j: int|
        0 <= j < replies.len() ==> (#[trigger] replies[j]) is Ok && parse_reply(replies[j]->Ok_0)
            is Action
}

/// Turn `j` of a course of actions that began with no step taken.
proof fn lemma_turn_of_course(
    agents: Seq<Agent>,
    turns: Seq<TurnText>,
    replies: Seq<Result<Seq<char>, Seq<char>>>,
    j: int,
)
    requires
        course(agents, turns, replies),
        all_ask_for_actions(replies),
        turns[0] is Ask,
        turns[0]->steps.len() == 0,
        0 <= j <= replies.len(),
    ensures
        j <= MAX_ITERATIONS,
        j < MAX_ITERATIONS ==> turns[j] is Ask && turns[j]->steps.len() == j,
        j == MAX_ITERATIONS ==> turns[j] == TurnText::Stopped(stopped_text()),
        agents[j].history_model() == agents[0].history_model(),
    decreases j,
{
    if j > 0 {
        lemma_turn_of_course(agents, turns, replies, j - 1);
        assert(turns[j - 1] is Ask);
        assert(replies[j - 1] is Ok);
        assert(agents[j].continued(
            &agents[j - 1],
            turns[j - 1]->question,
            turns[j - 1]->steps,
            replies[j - 1],
            turns[j],
        ));
    }
}

/// The loop ends. In the course of a question whose replies all ask for an
/// action, the model is asked at most as often as the limit says; before
/// that the agent asks on, with one step taken for each reply; and the
/// reply that reaches the limit is answered with the fixed text that the
/// loop stopped. The conversation stays as it was.
pub proof fn lemma_course_stops_at_limit(
    agents: Seq<Agent>,
    turns: Seq<TurnText>,
    replies: Seq<Result<Seq<char>, Seq<char>>>,
)
    requires
        course(agents, turns, replies),
        all_ask_for_actions(replies),
        turns[0] is Ask,
        turns[0]->steps.len() == 0,
    ensures
        replies.len() <= MAX_ITERATIONS,
        forall|j: int|
            0 <= j <= replies.len() && j < MAX_ITERATIONS ==> (#[trigger] turns[j]) is Ask
                && turns[j]->steps.len() == j,
        replies.len() == MAX_ITERATIONS ==> turns.last() == TurnText::Stopped(stopped_text()),
        agents.last().history_model() == agents[0].history_model(),
{
    lemma_turn_of_course(agents, turns, replies, replies.len() as int);
    assert forall|j: int| 0 <= j <= replies.len() && j < MAX_ITERATIONS implies (#[trigger] turns[j])
        is Ask && turns[j]->steps.len() == j by {
        lemma_turn_of_course(agents, turns, replies, j);
    }
}

/// The conversation only grows. Whatever the backend replied, the agent
/// after `Agent::continue_with` holds the conversation of before at its
/// beginning, entry for entry, and at most two entries more.
pub proof fn lemma_conversation_grows(
    before: Agent,
    after: Agent,
    question: Seq<char>,
    steps: Seq<StepText>,
    reply: Result<Seq<char>, Seq<char>>,
    turn: TurnText,
)
    requires
        after.continued(&before, question, steps, reply, turn),
    ensures
        before.history_model().len() <= after.history_model().len()
            <= before.history_model().len() + 2,
        after.history_model().take(before.history_model().len() as int)
            == before.history_model(),
        turn is Ask || turn is Stopped <==> after.history_model() == before.history_model(),
{
    let old_one = before.history_model();
    let new_one = after.history_model();
    assert(new_one.take(old_one.len() as int) =~= old_one);
}

/// An agent keeps its tools, so it stays well formed: whatever leaves the
/// name, the tools and the backend address as they were leaves no two tools
/// with one name.
pub proof fn lemma_setup_keeps_wf(before: Agent, after: Agent)
    requires
        before.wf(),
        after.same_setup(&before),
    ensures
        after.wf(),
{
}

/// Resetting twice is resetting once: after a second reset the agent has the
/// conversation and the settings that it had after the first.
pub proof fn lemma_reset_idempotent(start: Agent, once: Agent, twice: Agent)
    requires
        once.reset_of(&start),
        twice.reset_of(&once),
    ensures
        twice.history_model() == once.history_model(),
        twice.same_settings(&once),
        twice.reset_of(&start),
{
}

impl Turn {
    /// The reply that ends the request, if this turn ends it.
    pub fn into_reply(self) -> (r: Option<String>)
        ensures
            match self@ {
                TurnText::Ask { .. } => r is None,
                TurnText::Finished(s) => r is Some && r->0@ == s,
                TurnText::Stopped(s) => r is Some && r->0@ == s,
                TurnText::Failed(s) => r is Some && r->0@ == s,
            },
    {
        match self {
            Turn::Ask(_) => None,
            Turn::Finished(s) => Some(s),
            Turn::Stopped(s) => Some(s),
            Turn::Failed(s) => Some(s),
        }
    }
}

/// The agent's state between requests.
pub struct Agent {
    name: String,
    history: Vec<Message>,
    config: Config,
    tools: Vec<BuiltinTool>,
}

impl Agent {
    /// The agent's name.
    pub closed spec fn name_text(&self) -> Seq<char> {
        self.name@
    }

    /// The conversation so far.
    pub closed spec fn history_model(&self) -> Seq<MessageText> {
        history_text(self.history@)
    }

    /// The backend's address.
    pub closed spec fn url_text(&self) -> Seq<char> {
        self.config.ollama_base_url@
    }

    /// The name of the model that answers.
    pub closed spec fn model_text(&self) -> Seq<char> {
        self.config.model@
    }

    /// The tools on offer, in their order.
    pub closed spec fn tools_model(&self) -> Seq<BuiltinTool> {
        self.tools@
    }

    /// Whether the agent is well formed: no two tools share a name, whatever
    /// the case of its ASCII letters.
    pub open spec fn wf(&self) -> bool {
        distinct_names(self.tools_model())
    }

    /// Whether this agent has the name, the tools and the backend address of
    /// `other`.
    pub open spec fn same_setup(&self, other: &Agent) -> bool {
        &&& self.name_text() == other.name_text()
        &&& self.url_text() == other.url_text()
        &&& self.tools_model() == other.tools_model()
    }

    /// Whether this agent differs from `other` at most in its conversation.
    pub open spec fn same_settings(&self, other: &Agent) -> bool {
        self.same_setup(other) && self.model_text() == other.model_text()
    }

    /// Whether this agent is `pre` after a reset.
    pub open spec fn reset_of(&self, pre: &Agent) -> bool {
        self.history_model() == Seq::<MessageText>::empty() && self.same_settings(pre)
    }

    /// Whether the conversation is that of `pre` with the question and its
    /// reply added.
    pub open spec fn recorded(&self, pre: &Agent, question: Seq<char>, reply: Seq<char>) -> bool {
        self.history_model() == pre.history_model().push(
            MessageText { role: Role::User, content: question },
        ).push(MessageText { role: Role::Assistant, content: reply })
    }

    /// Whether this agent and `turn` are what follows for `pre` from the
    /// backend's `reply` to the prompt of a question with `steps` taken.
    pub open spec fn continued(
        &self,
        pre: &Agent,
        question: Seq<char>,
        steps: Seq<StepText>,
        reply: Result<Seq<char>, Seq<char>>,
        turn: TurnText,
    ) -> bool {
        match reply {
            Err(e) => turn == TurnText::Failed(failure_text(e)) && self.recorded(
                pre,
                question,
                failure_text(e),
            ),
            Ok(text) => match parse_reply(text) {
                Plan::FinalAnswer { answer, .. } => turn == TurnText::Finished(answer)
                    && self.recorded(pre, question, answer),
                Plan::Action { tool, input, .. } => self.history_model() == pre.history_model()
                    && exists|obs: Seq<char>| #[trigger]
                        observed(pre.tools_model(), lowercase_text(trimmed(tool)), input, obs)
                            && turn == after_step(
                            pre.tools_model(),
                            question,
                            steps.push(
                                StepText {
                                    action: lowercase_text(trimmed(tool)),
                                    input,
                                    observation: obs,
                                },
                            ),
                        ),
            },
        }
    }

    /// A new agent with the built-in tools and an empty conversation.
    pub fn new(config: Config) -> (r: Agent)
        ensures
            r.wf(),
            r.name_text() == "Rustline Agent"@,
            r.history_model() == Seq::<MessageText>::empty(),
            r.url_text() == config.ollama_base_url@,
            r.model_text() == config.model@,
            r.tools_model() == seq![BuiltinTool::Time(TimeTool), BuiltinTool::Echo(EchoTool)],
    {
        let r = Agent {
            name: String::from_str("Rustline Agent"),
            history: Vec::new(),
            config,
            tools: default_tools(),
        };
        assert(history_text(r.history@) =~= Seq::<MessageText>::empty());
        r
    }

    /// Forgets the conversation.
    pub fn reset(&mut self)
        ensures
            final(self).reset_of(old(self)),
    {
        self.history.clear();
        assert(history_text(self.history@) =~= Seq::<MessageText>::empty());
    }

    /// Switches to another model, for the requests that follow.
    pub fn set_model(&mut self, model: String)
        ensures
            final(self).model_text() == model@,
            final(self).same_setup(old(self)),
            final(self).history_model() == old(self).history_model(),
    {
        self.config.model = model;
    }

    /// The conversation so far.
    pub fn history(&self) -> (r: &Vec<Message>)
        ensures
            history_text(r@) == self.history_model(),
    {
        &self.history
    }

    /// The backend's address and the model's name.
    pub fn config(&self) -> (r: &Config)
        ensures
            r.ollama_base_url@ == self.url_text(),
            r.model@ == self.model_text(),
    {
        &self.config
    }

    /// The tools on offer.
    pub fn tools(&self) -> (r: &Vec<BuiltinTool>)
        ensures
            r@ == self.tools_model(),
    {
        &self.tools
    }

    /// Adds a question and its reply to the conversation.
    fn record(&mut self, question: String, reply: String)
        ensures
            final(self).recorded(old(self), question@, reply@),
            final(self).same_settings(old(self)),
    {
        let ghost before = self.history@;
        self.history.push(Message { role: Role::User, content: question });
        self.history.push(Message { role: Role::Assistant, content: reply });
        assert(history_text(self.history@) =~= history_text(before).push(
            MessageText { role: Role::User, content: question@ },
        ).push(MessageText { role: Role::Assistant, content: reply@ }));
    }

    /// Answers a manual command: an exclamation mark, a tool's name and,
    /// after a space, its arguments. The name counts in lowercase. Gives
    /// nothing where `input` is no command.
    pub fn try_run_tool(&self, input: &str) -> (r: Option<String>)
        ensures
            r is Some <==> is_command(input@),
            r is Some ==> manual_reply(
                self.tools_model(),
                lowercase_text(command_name(input@.skip(1))),
                command_args(input@.skip(1)),
                r->0@,
            ),
    {
        let cs = chars_of(input);
        if cs.len() == 0 || cs[0] != '!' {
            return None;
        }
        let rest = slice_of(&cs, 1, cs.len());
        assert(rest@ =~= input@.skip(1));
        let (name, args) = split_command(&rest);
        let name = string_of(&name);
        let args = string_of(&args);
        let lowered = to_lowercase(name.as_str());
        Some(run_manual(&self.tools, lowered.as_str(), args.as_str()))
    }

    /// Takes up one input of the user. An empty input and a manual command
    /// are answered at once, the command with both texts added to the
    /// conversation; anything else is a question, and the first prompt for
    /// the model comes back.
    pub fn handle_message(&mut self, input: &str) -> (r: Turn)
        ensures
            final(self).same_settings(old(self)),
            input@.len() == 0 ==> r@ == TurnText::Finished(nothing_typed_text())
                && final(self).history_model() == old(self).history_model(),
            is_command(input@) ==> r@ is Finished && manual_reply(
                old(self).tools_model(),
                lowercase_text(command_name(input@.skip(1))),
                command_args(input@.skip(1)),
                r@->Finished_0,
            ) && final(self).recorded(old(self), input@, r@->Finished_0),
            input@.len() > 0 && !is_command(input@) ==> r@ == (TurnText::Ask {
                question: input@,
                steps: Seq::<StepText>::empty(),
                prompt: prompt_for(old(self).tools_model(), Seq::<StepText>::empty(), input@),
            }) && final(self).history_model() == old(self).history_model(),
    {
        if input.unicode_len() == 0 {
            return Turn::Finished(String::from_str("You didn't type anything \u{1F914}"));
        }
        if let Some(reply) = self.try_run_tool(input) {
            self.record(String::from_str(input), reply.clone());
            return Turn::Finished(reply);
        }
        let steps: Vec<AgentStep> = Vec::new();
        assert(steps_text(steps@) =~= Seq::<StepText>::empty());
        let prompt = build_prompt(input, &steps, &self.tools);
        Turn::Ask(Pending { question: String::from_str(input), steps, prompt })
    }

    /// Continues a question with the backend's reply to its prompt.
    ///
    /// A failure of the backend ends the request with a reply that says so.
    /// A final answer ends it with the answer. Both are added to the
    /// conversation after the question. An action is carried out: the tool's
    /// name counts trimmed and in lowercase, the observation joins the
    /// steps, and the next prompt comes back, or, where the model has been
    /// asked as often as allowed, the reply that the loop stopped.
    pub fn continue_with(&mut self, pending: Pending, reply: Result<String, String>) -> (r: Turn)
        ensures
            final(self).same_settings(old(self)),
            phase_of(r@) == advance(
                Phase::Iterating(pending.steps@.len()),
                outcome_text(reply),
            ),
            final(self).continued(
                old(self),
                pending.question@,
                steps_text(pending.steps@),
                outcome_text(reply),
                r@,
            ),
    {
        let Pending { question, steps, prompt: _ } = pending;
        let mut steps = steps;
        match reply {
            Err(e) => {
                let mut text = String::from_str("Error: ");
                text.append(e.as_str());
                self.record(question, text.clone());
                Turn::Failed(text)
            },
            Ok(text) => match parse_react_reply(text.as_str()) {
                PlanOutput::FinalAnswer { thought: _, answer } => {
                    self.record(question, answer.clone());
                    Turn::Finished(answer)
                },
                PlanOutput::Action(planned) => {
                    let cs = chars_of(planned.tool.as_str());
                    let bare = string_of(&trim(&cs));
                    let name = to_lowercase(bare.as_str());
                    let observation = dispatch(&self.tools, name.as_str(), planned.input.as_str());
                    let ghost before = steps_text(steps@);
                    let ghost step = StepText {
                        action: name@,
                        input: planned.input@,
                        observation: observation@,
                    };
                    steps.push(
                        AgentStep { action: name, action_input: planned.input, observation },
                    );
                    assert(steps_text(steps@) =~= before.push(step));
                    let turn = if steps.len() >= MAX_ITERATIONS {
                        Turn::Stopped(
                            String::from_str(
                                "Agent stopped due to max iterations without finishing.",
                            ),
                        )
                    } else {
                        let prompt = build_prompt(question.as_str(), &steps, &self.tools);
                        Turn::Ask(Pending { question, steps, prompt })
                    };
                    assert(observed(
                        self.tools_model(),
                        step.action,
                        step.input,
                        step.observation,
                    ) && turn@ == after_step(
                        self.tools_model(),
                        pending.question@,
                        before.push(step),
                    ));
                    turn
                },
            },
        }
    }
}

} // verus!
