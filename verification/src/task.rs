//! One run of the assistant's process: how it is started, and what its output adds up to.

use crate::stream::no_usage;
use crate::stream::ClaudeContent;
use crate::stream::ClaudeContentView;
use crate::stream::ClaudeEvent;
use crate::stream::ClaudeEventView;
use crate::stream::ClaudeUsage;
use crate::stream::ClaudeUsageView;
use crate::text::optional_text;
use crate::text::same_text;
use crate::text::texts;
use vstd::prelude::*;

verus! {

/// The assistant that the panel talks to, as its user knows it.
#[derive(Debug, PartialEq, Eq)]
pub struct Assistant {
    /// The name under which it takes part in a conversation.
    pub name: String,
    /// The name under which it is shown.
    pub title: String,
    /// The program that is started to ask it something.
    pub program: String,
}

pub struct AssistantView {
    pub name: Seq<char>,
    pub title: Seq<char>,
    pub program: Seq<char>,
}

impl View for Assistant {
    type V = AssistantView;

    open spec fn view(&self) -> AssistantView {
        AssistantView { name: self.name@, title: self.title@, program: self.program@ }
    }
}

/// The process to start for one question.
#[derive(Debug, PartialEq, Eq)]
pub struct TaskCommand {
    /// The program.
    pub program: String,
    /// Its arguments.
    pub args: Vec<String>,
    /// The line that it is given to read.
    pub input_line: String,
}

#[verifier::ext_equal]
pub struct TaskCommandView {
    pub program: Seq<char>,
    pub args: Seq<Seq<char>>,
    pub input_line: Seq<char>,
}

impl View for TaskCommand {
    type V = TaskCommandView;

    open spec fn view(&self) -> TaskCommandView {
        TaskCommandView {
            program: self.program@,
            args: texts(self.args@),
            input_line: self.input_line@,
        }
    }
}

/// The arguments with which the process is started: streamed JSON out, and the session to go on
/// with, if there is one.
pub open spec fn task_args(session_id: Option<Seq<char>>) -> Seq<Seq<char>> {
    let always = seq!["-p"@, "--verbose"@, "--output-format"@, "stream-json"@];
    match session_id {
        Some(id) => always + seq!["--resume"@, id],
        None => always,
    }
}

/// The process that answers `text` in the given session.
pub open spec fn command_for(
    program: Seq<char>,
    session_id: Option<Seq<char>>,
    text: Seq<char>,
) -> TaskCommandView {
    TaskCommandView { program, args: task_args(session_id), input_line: text }
}

/// The process that answers `text` in the given session.
pub fn task_command(program: &str, session_id: &Option<String>, text: String) -> (r: TaskCommand)
    ensures
        r@ == command_for(program@, optional_text(*session_id), text@),
{
    let mut args: Vec<String> = Vec::new();
    args.push("-p".to_owned());
    args.push("--verbose".to_owned());
    args.push("--output-format".to_owned());
    args.push("stream-json".to_owned());
    match session_id {
        Some(id) => {
            args.push("--resume".to_owned());
            args.push(id.clone());
        },
        None => {},
    }
    assert(texts(args@) == task_args(optional_text(*session_id)));
    TaskCommand { program: program.to_owned(), args, input_line: text }
}

/// What happens while the process runs, in the order in which it happens.
#[derive(Debug, PartialEq, Eq)]
pub enum TaskEvent {
    /// The program could not be started; the program, and the reason.
    SpawnFailed(String, String),
    /// A line of output, and the event that it is, if it is one.
    Line(String, Option<ClaudeEvent>),
    /// The output could not be read; the reason.
    ReadFailed(String),
    /// The output is at its end.
    End,
}

pub enum TaskEventView {
    SpawnFailed(Seq<char>, Seq<char>),
    Line(Seq<char>, Option<ClaudeEventView>),
    ReadFailed(Seq<char>),
    End,
}

impl View for TaskEvent {
    type V = TaskEventView;

    open spec fn view(&self) -> TaskEventView {
        match self {
            TaskEvent::SpawnFailed(program, reason) => TaskEventView::SpawnFailed(
                program@,
                reason@,
            ),
            TaskEvent::Line(line, event) => TaskEventView::Line(
                line@,
                match event {
                    Some(e) => Some(e@),
                    None => None,
                },
            ),
            TaskEvent::ReadFailed(reason) => TaskEventView::ReadFailed(reason@),
            TaskEvent::End => TaskEventView::End,
        }
    }
}

/// What a run has brought so far.
#[derive(Debug, PartialEq, Eq)]
pub struct TaskRun {
    pub text_parts: Vec<String>,
    pub session_id: Option<String>,
    pub error: Option<String>,
    pub usage: ClaudeUsage,
}

#[verifier::ext_equal]
pub struct TaskRunView {
    pub text_parts: Seq<Seq<char>>,
    pub session_id: Option<Seq<char>>,
    pub error: Option<Seq<char>>,
    pub usage: ClaudeUsageView,
}

impl View for TaskRun {
    type V = TaskRunView;

    open spec fn view(&self) -> TaskRunView {
        TaskRunView {
            text_parts: texts(self.text_parts@),
            session_id: optional_text(self.session_id),
            error: optional_text(self.error),
            usage: self.usage@,
        }
    }
}

/// A run that has brought nothing yet.
pub open spec fn fresh_run() -> TaskRunView {
    TaskRunView { text_parts: Seq::empty(), session_id: None, error: None, usage: no_usage() }
}

/// Whether a piece of a message is said aloud: it is text, and not empty.
pub open spec fn is_spoken(content: ClaudeContentView) -> bool {
    content.content_type == "text"@ && content.text.len() > 0
}

/// The texts of the pieces that are said aloud, in order.
pub open spec fn spoken(contents: Seq<ClaudeContentView>) -> Seq<Seq<char>> {
    contents.filter(|c: ClaudeContentView| is_spoken(c)).map_values(|c: ClaudeContentView| c.text)
}

/// What an event says aloud: only an assistant's message says anything.
pub open spec fn spoken_by(event: ClaudeEventView) -> Seq<Seq<char>> {
    if event.event_type == "assistant"@ {
        match event.message {
            Some(contents) => spoken(contents),
            None => Seq::empty(),
        }
    } else {
        Seq::empty()
    }
}

/// The second if it is there, else the first.
pub open spec fn newer(known: Option<Seq<char>>, told: Option<Seq<char>>) -> Option<Seq<char>> {
    if told is Some {
        told
    } else {
        known
    }
}

/// The usage of a run after a `result` event: its cost, and what else the event tells.
pub open spec fn reported_usage(
    usage: ClaudeUsageView,
    event: ClaudeEventView,
) -> ClaudeUsageView {
    let costed = ClaudeUsageView { total_cost: event.total_cost, ..usage };
    let counted = match event.usage {
        Some(u) => ClaudeUsageView {
            input_tokens: u.input_tokens,
            output_tokens: u.output_tokens,
            cache_read: u.cache_read_input_tokens,
            cache_creation: u.cache_creation_input_tokens,
            ..costed
        },
        None => costed,
    };
    match event.model_usage {
        Some(m) => ClaudeUsageView {
            model: m.name,
            context_window: match m.context_window {
                Some(w) => w,
                None => counted.context_window,
            },
            ..counted
        },
        None => counted,
    }
}

/// Whether a `result` event brings a session to go on with: only where nothing was spent.
pub open spec fn nothing_spent(usage: ClaudeUsageView) -> bool {
    usage.total_cost.zero() && usage.input_tokens == 0
}

/// The session of a run after an event.
pub open spec fn session_after(run: TaskRunView, event: ClaudeEventView) -> Option<Seq<char>> {
    if event.event_type == "system"@ {
        newer(run.session_id, event.session_id)
    } else if event.event_type == "result"@ && nothing_spent(reported_usage(run.usage, event)) {
        newer(run.session_id, event.session_id)
    } else {
        run.session_id
    }
}

/// A run after an event.
pub open spec fn after_event(run: TaskRunView, event: ClaudeEventView) -> TaskRunView {
    TaskRunView {
        text_parts: run.text_parts + spoken_by(event),
        session_id: session_after(run, event),
        usage: if event.event_type == "result"@ {
            reported_usage(run.usage, event)
        } else {
            run.usage
        },
        error: run.error,
    }
}

/// A run after several events.
pub open spec fn after_events(run: TaskRunView, events: Seq<ClaudeEventView>) -> TaskRunView
    decreases events.len(),
{
    if events.len() == 0 {
        run
    } else {
        after_event(after_events(run, events.drop_last()), events.last())
    }
}

/// A run after something has happened to its process.
pub open spec fn after_step(run: TaskRunView, event: TaskEventView) -> TaskRunView {
    match event {
        TaskEventView::SpawnFailed(program, reason) => TaskRunView {
            error: Some("Error: failed to spawn "@ + program + " ("@ + reason + ")"@),
            ..run
        },
        TaskEventView::Line(line, Some(e)) => if line.len() == 0 {
            run
        } else {
            after_event(run, e)
        },
        TaskEventView::Line(_, None) => run,
        TaskEventView::ReadFailed(reason) => TaskRunView {
            error: Some("Read error: "@ + reason),
            ..run
        },
        TaskEventView::End => run,
    }
}

/// A run after several things have happened to its process.
pub open spec fn after_steps(run: TaskRunView, steps: Seq<TaskEventView>) -> TaskRunView
    decreases steps.len(),
{
    if steps.len() == 0 {
        run
    } else {
        after_step(after_steps(run, steps.drop_last()), steps.last())
    }
}

/// Whether an event is of a kind that a run makes something of.
pub open spec fn is_heeded(event: ClaudeEventView) -> bool {
    event.event_type == "system"@ || event.event_type == "assistant"@ || event.event_type
        == "result"@
}

/// The event that a line of output counts as: a blank line, one that is no event, and an event of
/// another kind count as none.
pub open spec fn counted_event(step: TaskEventView) -> Option<ClaudeEventView> {
    match step {
        TaskEventView::Line(line, Some(e)) => if line.len() > 0 && is_heeded(e) {
            Some(e)
        } else {
            None
        },
        _ => None,
    }
}

/// Adds the texts said aloud behind those that are there.
fn push_spoken(parts: &mut Vec<String>, contents: &Vec<ClaudeContent>)
    ensures
        texts(final(parts)@) == texts(old(parts)@) + spoken(
            contents@.map_values(|c: ClaudeContent| c@),
        ),
{
    let ghost all = contents@.map_values(|c: ClaudeContent| c@);
    let ghost pred = |c: ClaudeContentView| is_spoken(c);
    let mut i: usize = 0;
    proof {
        reveal(Seq::filter);
        assert(all.take(0) == Seq::<ClaudeContentView>::empty());
        assert(texts(parts@) == texts(old(parts)@) + spoken(all.take(0)));
    }
    while i < contents.len()
        invariant
            i <= contents.len(),
            all == contents@.map_values(|c: ClaudeContent| c@),
            pred == (|c: ClaudeContentView| is_spoken(c)),
            texts(parts@) == texts(old(parts)@) + spoken(all.take(i as int)),
        decreases contents.len() - i,
    {
        let content = &contents[i];
        let ghost before = parts@;
        if same_text(content.content_type.as_str(), "text") && !content.text.as_str().is_empty() {
            parts.push(content.text.clone());
            assert(texts(parts@) == texts(before).push(content.text@));
        }
        proof {
            assert(all[i as int] == content@);
            assert(all.take(i + 1) == all.take(i as int).push(content@));
            all.take(i as int).lemma_filter_push(content@, pred);
            if is_spoken(content@) {
                assert(spoken(all.take(i + 1)) == spoken(all.take(i as int)).push(content.text@));
            }
        }
        i += 1;
    }
    assert(all.take(i as int) == all);
}

impl TaskRun {
    /// A run that has brought nothing yet.
    pub fn start() -> (r: Self)
        ensures
            r@ == fresh_run(),
    {
        let r = TaskRun {
            text_parts: Vec::new(),
            session_id: None,
            error: None,
            usage: ClaudeUsage::none(),
        };
        assert(r@ =~= fresh_run());
        r
    }

    /// Takes in one event of the process's output.
    pub fn apply_event(&mut self, event: ClaudeEvent)
        ensures
            final(self)@ == after_event(old(self)@, event@),
    {
        proof {
            lemma_kinds_differ();
        }
        let event_type = event.event_type.as_str();
        if same_text(event_type, "system") {
            if event.session_id.is_some() {
                self.session_id = event.session_id;
            }
        } else if same_text(event_type, "assistant") {
            match &event.message {
                Some(message) => push_spoken(&mut self.text_parts, &message.content),
                None => {},
            }
        } else if same_text(event_type, "result") {
            self.usage.total_cost = event.total_cost;
            match event.usage {
                Some(u) => {
                    self.usage.input_tokens = u.input_tokens;
                    self.usage.output_tokens = u.output_tokens;
                    self.usage.cache_read = u.cache_read_input_tokens;
                    self.usage.cache_creation = u.cache_creation_input_tokens;
                },
                None => {},
            }
            match event.model_usage {
                Some(m) => {
                    match m.context_window {
                        Some(w) => self.usage.context_window = w,
                        None => {},
                    }
                    self.usage.model = m.name;
                },
                None => {},
            }
            if self.usage.total_cost.is_zero() && self.usage.input_tokens == 0 {
                if event.session_id.is_some() {
                    self.session_id = event.session_id;
                }
            }
        }
        proof {
            let after = after_event(old(self)@, event@);
            assert(self@.text_parts == after.text_parts);
            assert(self@.session_id == after.session_id);
            assert(self@.usage == after.usage);
        }
    }

    /// Takes in what has happened to the process, and tells whether the run is over.
    pub fn step(&mut self, event: TaskEvent) -> (over: bool)
        ensures
            final(self)@ == after_step(old(self)@, event@),
            over == (event@ !is Line),
    {
        match event {
            TaskEvent::SpawnFailed(program, reason) => {
                let mut error = "Error: failed to spawn ".to_owned();
                error.append(program.as_str());
                error.append(" (");
                error.append(reason.as_str());
                error.append(")");
                self.error = Some(error);
                true
            },
            TaskEvent::Line(line, parsed) => {
                if !line.as_str().is_empty() {
                    match parsed {
                        Some(e) => self.apply_event(e),
                        None => {},
                    }
                }
                false
            },
            TaskEvent::ReadFailed(reason) => {
                let mut error = "Read error: ".to_owned();
                error.append(reason.as_str());
                self.error = Some(error);
                true
            },
            TaskEvent::End => true,
        }
    }
}

/// An event of another kind changes nothing.
pub proof fn law_other_events_change_nothing(run: TaskRunView, event: ClaudeEventView)
    requires
        event.event_type != "system"@,
        event.event_type != "assistant"@,
        event.event_type != "result"@,
    ensures
        after_event(run, event) == run,
{
    assert(run.text_parts + spoken_by(event) == run.text_parts);
}

/// Lines that are blank, that are no events, or that are events of another kind are passed over:
/// output amounts to its other events.
pub proof fn law_other_lines_are_passed_over(run: TaskRunView, steps: Seq<TaskEventView>)
    requires
        forall|i: int| 0 <= i < steps.len() ==> #[trigger] steps[i] is Line,
    ensures
        after_steps(run, steps) == after_events(
            run,
            steps.filter_map(|s: TaskEventView| counted_event(s)),
        ),
    decreases steps.len(),
{
    if steps.len() > 0 {
        let earlier = steps.drop_last();
        let count = |s: TaskEventView| counted_event(s);
        assert forall|i: int| 0 <= i < earlier.len() implies #[trigger] earlier[i] is Line by {
            assert(earlier[i] == steps[i]);
        }
        law_other_lines_are_passed_over(run, earlier);
        assert(steps.last() == steps[steps.len() - 1]);
        match count(steps.last()) {
            Some(e) => {
                let events = steps.filter_map(count);
                assert(events == earlier.filter_map(count) + seq![e]);
                assert(events.drop_last() == earlier.filter_map(count));
            },
            None => {
                if let TaskEventView::Line(line, Some(e)) = steps.last() {
                    if line.len() > 0 {
                        law_other_events_change_nothing(after_steps(run, earlier), e);
                    }
                }
            },
        }
    }
}

/// What a run says aloud is what its events say, in their order, and nothing else: other events in
/// between take nothing away.
pub proof fn law_transcript_in_order(run: TaskRunView, events: Seq<ClaudeEventView>)
    ensures
        after_events(run, events).text_parts == run.text_parts + events.map_values(
            |e: ClaudeEventView| spoken_by(e),
        ).flatten(),
    decreases events.len(),
{
    let said = events.map_values(|e: ClaudeEventView| spoken_by(e));
    said.lemma_flatten_and_flatten_alt_are_equivalent();
    if events.len() == 0 {
        assert(run.text_parts + said.flatten() == run.text_parts);
    } else {
        let earlier = events.drop_last();
        law_transcript_in_order(run, earlier);
        let said_earlier = earlier.map_values(|e: ClaudeEventView| spoken_by(e));
        said_earlier.lemma_flatten_and_flatten_alt_are_equivalent();
        assert(said.drop_last() == said_earlier);
        assert(run.text_parts + (said_earlier.flatten() + spoken_by(events.last()))
            == run.text_parts + said_earlier.flatten() + spoken_by(events.last()));
    }
}

/// A session that a run has learned of is never forgotten, only replaced by one that an event names.
pub proof fn law_session_is_kept(run: TaskRunView, events: Seq<ClaudeEventView>)
    ensures
        run.session_id is Some ==> after_events(run, events).session_id is Some,
        after_events(run, events).session_id != run.session_id ==> exists|i: int|
            0 <= i < events.len() && (#[trigger] events[i]).session_id == after_events(
                run,
                events,
            ).session_id,
    decreases events.len(),
{
    if events.len() > 0 {
        let earlier = events.drop_last();
        law_session_is_kept(run, earlier);
        let before = after_events(run, earlier);
        let end = after_events(run, events);
        if end.session_id != run.session_id {
            if end.session_id == before.session_id {
                let i = choose|i: int|
                    0 <= i < earlier.len() && (#[trigger] earlier[i]).session_id
                        == before.session_id;
                assert(events[i].session_id == end.session_id);
            } else {
                assert(events[events.len() - 1].session_id == end.session_id);
            }
        }
    }
}

/// Only `result` events touch the usage: a run without one has used nothing.
pub proof fn law_usage_from_results_only(run: TaskRunView, events: Seq<ClaudeEventView>)
    requires
        forall|i: int|
            0 <= i < events.len() ==> (#[trigger] events[i]).event_type != "result"@,
    ensures
        after_events(run, events).usage == run.usage,
    decreases events.len(),
{
    if events.len() > 0 {
        assert(events.last() == events[events.len() - 1]);
        assert forall|i: int| 0 <= i < events.drop_last().len() implies (
        #[trigger] events.drop_last()[i]).event_type != "result"@ by {
            assert(events.drop_last()[i] == events[i]);
        }
        law_usage_from_results_only(run, events.drop_last());
    }
}

/// An assistant's message says every piece of it that is text and not empty, in order and unchanged,
/// behind what was said before, whatever else the event carries; and it changes nothing else.
pub proof fn law_assistant_says_all_its_texts(
    run: TaskRunView,
    event: ClaudeEventView,
    contents: Seq<ClaudeContentView>,
)
    requires
        event.event_type == "assistant"@,
        event.message == Some(contents),
    ensures
        after_event(run, event).text_parts == run.text_parts + contents.filter(
            |c: ClaudeContentView| c.content_type == "text"@ && c.text.len() > 0,
        ).map_values(|c: ClaudeContentView| c.text),
        after_event(run, event).session_id == run.session_id,
        after_event(run, event).error == run.error,
        after_event(run, event).usage == run.usage,
{
    lemma_kinds_differ();
    let pred = |c: ClaudeContentView| c.content_type == "text"@ && c.text.len() > 0;
    assert(pred =~= (|c: ClaudeContentView| is_spoken(c)));
}

/// A piece that is text and not empty is heard, and each message adds one part for each such piece.
pub proof fn law_each_text_is_heard(
    run: TaskRunView,
    event: ClaudeEventView,
    contents: Seq<ClaudeContentView>,
    i: int,
)
    requires
        event.event_type == "assistant"@,
        event.message == Some(contents),
        0 <= i < contents.len(),
        contents[i].content_type == "text"@,
        contents[i].text.len() > 0,
    ensures
        ({
            let heard = |c: ClaudeContentView| c.content_type == "text"@ && c.text.len() > 0;
            let at = run.text_parts.len() + contents.take(i).filter(heard).len();
            &&& at < after_event(run, event).text_parts.len()
            &&& after_event(run, event).text_parts[at as int] == contents[i].text
            &&& after_event(run, event).text_parts.len() == run.text_parts.len()
                + contents.filter(heard).len()
        }),
{
    let heard = |c: ClaudeContentView| c.content_type == "text"@ && c.text.len() > 0;
    law_assistant_says_all_its_texts(run, event, contents);
    let before = contents.take(i);
    let after = contents.skip(i + 1);
    assert(contents == before.push(contents[i]) + after);
    before.lemma_filter_push(contents[i], heard);
    lemma_filter_of_sum(before.push(contents[i]), after, heard);
    assert(contents.filter(heard)[before.filter(heard).len() as int] == contents[i]);
}

/// A filter of two sequences, one behind the other, is that of the first and then that of the second.
proof fn lemma_filter_of_sum(
    a: Seq<ClaudeContentView>,
    b: Seq<ClaudeContentView>,
    pred: spec_fn(ClaudeContentView) -> bool,
)
    ensures
        (a + b).filter(pred) == a.filter(pred) + b.filter(pred),
    decreases b.len(),
{
    reveal(Seq::filter);
    if b.len() == 0 {
        assert(a + b == a);
    } else {
        lemma_filter_of_sum(a, b.drop_last(), pred);
        assert((a + b).drop_last() == a + b.drop_last());
        assert((a + b).last() == b.last());
    }
}

/// Nothing is said by an event that is no assistant's, or that has no message.
pub proof fn law_nothing_else_is_said(run: TaskRunView, event: ClaudeEventView)
    requires
        event.event_type != "assistant"@ || event.message is None,
    ensures
        after_event(run, event).text_parts == run.text_parts,
{
}

/// A `system` event names the session, if it names one, and changes nothing else.
pub proof fn law_system_names_the_session(run: TaskRunView, event: ClaudeEventView)
    requires
        event.event_type == "system"@,
    ensures
        event.session_id is Some ==> after_event(run, event).session_id == event.session_id,
        event.session_id is None ==> after_event(run, event).session_id == run.session_id,
        after_event(run, event).text_parts == run.text_parts,
        after_event(run, event).error == run.error,
        after_event(run, event).usage == run.usage,
{
    lemma_kinds_differ();
}

/// A `result` event says what was used: its cost always, and the tokens, the model and the model's
/// context window so far as it tells them; what it does not tell stays as it was.
pub proof fn law_result_tells_usage(run: TaskRunView, event: ClaudeEventView)
    requires
        event.event_type == "result"@,
    ensures
        ({
            let end = after_event(run, event).usage;
            &&& end.total_cost.bits == event.total_cost.bits
            &&& event.usage is Some ==> {
                &&& end.input_tokens == event.usage->0.input_tokens
                &&& end.output_tokens == event.usage->0.output_tokens
                &&& end.cache_read == event.usage->0.cache_read_input_tokens
                &&& end.cache_creation == event.usage->0.cache_creation_input_tokens
            }
            &&& event.usage is None ==> {
                &&& end.input_tokens == run.usage.input_tokens
                &&& end.output_tokens == run.usage.output_tokens
                &&& end.cache_read == run.usage.cache_read
                &&& end.cache_creation == run.usage.cache_creation
            }
            &&& event.model_usage is Some ==> end.model == event.model_usage->0.name
            &&& event.model_usage is None ==> end.model == run.usage.model
            &&& event.model_usage is Some && event.model_usage->0.context_window is Some
                ==> end.context_window == event.model_usage->0.context_window->0
            &&& event.model_usage is None || event.model_usage->0.context_window is None
                ==> end.context_window == run.usage.context_window
        }),
        after_event(run, event).text_parts == run.text_parts,
        after_event(run, event).error == run.error,
{
    lemma_kinds_differ();
}

/// A `result` event names the session exactly when it names one and nothing was spent: its cost is
/// zero, and so are the input tokens that are then known.
pub proof fn law_result_names_the_session_of_a_free_run(run: TaskRunView, event: ClaudeEventView)
    requires
        event.event_type == "result"@,
    ensures
        ({
            let spent = event.total_cost.bits % 0x8000_0000_0000_0000 != 0 || (match event.usage {
                Some(u) => u.input_tokens != 0,
                None => run.usage.input_tokens != 0,
            });
            &&& !spent && event.session_id is Some ==> after_event(run, event).session_id
                == event.session_id
            &&& spent || event.session_id is None ==> after_event(run, event).session_id
                == run.session_id
        }),
{
    lemma_kinds_differ();
}

/// What the output brings, event by event, is what its lines are events of: a line that is not blank
/// counts as its event, and every other line as nothing.
pub proof fn law_line_counts_as_its_event(
    run: TaskRunView,
    line: Seq<char>,
    event: ClaudeEventView,
)
    ensures
        line.len() > 0 ==> after_step(run, TaskEventView::Line(line, Some(event))) == after_event(
            run,
            event,
        ),
        line.len() == 0 ==> after_step(run, TaskEventView::Line(line, Some(event))) == run,
        after_step(run, TaskEventView::Line(line, None)) == run,
        after_step(run, TaskEventView::End) == run,
{
}

/// A failure is reported with its reason, and leaves the rest of what the run has brought.
pub proof fn law_failure_is_reported(run: TaskRunView, program: Seq<char>, reason: Seq<char>)
    ensures
        ({
            let end = after_step(run, TaskEventView::SpawnFailed(program, reason));
            &&& end.error == Some("Error: failed to spawn "@ + program + " ("@ + reason + ")"@)
            &&& end.text_parts == run.text_parts
            &&& end.session_id == run.session_id
            &&& end.usage == run.usage
        }),
        ({
            let end = after_step(run, TaskEventView::ReadFailed(reason));
            &&& end.error == Some("Read error: "@ + reason)
            &&& end.text_parts == run.text_parts
            &&& end.session_id == run.session_id
            &&& end.usage == run.usage
        }),
{
}

/// Steps are taken one after the other, and so are events.
pub proof fn law_steps_in_turn(
    run: TaskRunView,
    steps: Seq<TaskEventView>,
    step: TaskEventView,
    events: Seq<ClaudeEventView>,
    event: ClaudeEventView,
)
    ensures
        after_steps(run, Seq::empty()) == run,
        after_steps(run, steps.push(step)) == after_step(after_steps(run, steps), step),
        after_events(run, Seq::empty()) == run,
        after_events(run, events.push(event)) == after_event(after_events(run, events), event),
{
    assert(steps.push(step).drop_last() == steps);
    assert(events.push(event).drop_last() == events);
}

/// A run starts out with nothing said, no session, no error and nothing used.
pub proof fn law_fresh_run_has_nothing()
    ensures
        fresh_run().text_parts.len() == 0,
        fresh_run().session_id is None,
        fresh_run().error is None,
        fresh_run().usage == no_usage(),
{
}

/// The process is given the question as it is, and the program is the one that was named. It always
/// gets the same four arguments, and the session to go on with behind them, if there is one.
pub proof fn law_process_gets_the_question(
    program: Seq<char>,
    session_id: Option<Seq<char>>,
    text: Seq<char>,
)
    ensures
        ({
            let command = command_for(program, session_id, text);
            &&& command.program == program
            &&& command.input_line == text
            &&& command.args.len() == (if session_id is Some {
                6int
            } else {
                4
            })
            &&& command.args[0] == "-p"@
            &&& command.args[1] == "--verbose"@
            &&& command.args[2] == "--output-format"@
            &&& command.args[3] == "stream-json"@
            &&& session_id is Some ==> command.args[4] == "--resume"@
            &&& session_id is Some ==> command.args[5] == session_id->0
        }),
{
}

/// What a run has brought, what happens to its process and how that is started are read as they are
/// held, part by part.
pub proof fn law_run_is_read_as_held(run: TaskRun, command: TaskCommand, assistant: Assistant)
    ensures
        run@.text_parts.len() == run.text_parts@.len(),
        forall|i: int|
            0 <= i < run.text_parts@.len() ==> #[trigger] run@.text_parts[i]
                == run.text_parts@[i]@,
        run@.session_id is Some <==> run.session_id is Some,
        run.session_id is Some ==> run@.session_id->0 == run.session_id->0@,
        run@.error is Some <==> run.error is Some,
        run.error is Some ==> run@.error->0 == run.error->0@,
        run@.usage == run.usage@,
        command@.program == command.program@,
        command@.args.len() == command.args@.len(),
        forall|i: int|
            0 <= i < command.args@.len() ==> #[trigger] command@.args[i] == command.args@[i]@,
        command@.input_line == command.input_line@,
        assistant@.name == assistant.name@,
        assistant@.title == assistant.title@,
        assistant@.program == assistant.program@,
{
}

/// What happens to a process is read as it happened.
pub proof fn law_step_is_read_as_it_happened(step: TaskEvent)
    ensures
        match step {
            TaskEvent::SpawnFailed(program, reason) => step@ == TaskEventView::SpawnFailed(
                program@,
                reason@,
            ),
            TaskEvent::Line(line, Some(event)) => step@ == TaskEventView::Line(
                line@,
                Some(event@),
            ),
            TaskEvent::Line(line, None) => step@ == TaskEventView::Line(line@, None),
            TaskEvent::ReadFailed(reason) => step@ == TaskEventView::ReadFailed(reason@),
            TaskEvent::End => step@ == TaskEventView::End,
        },
{
}

/// The three kinds of events that a run makes something of are told apart by their names.
proof fn lemma_kinds_differ()
    ensures
        "system"@ != "assistant"@,
        "system"@ != "result"@,
        "assistant"@ != "result"@,
{
    reveal_strlit("system");
    reveal_strlit("assistant");
    reveal_strlit("result");
    assert("system"@[0] != "result"@[0]);
}

} // verus!
