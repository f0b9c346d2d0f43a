//! What the assistant's process reports while it answers, line by line, and what is made of it.

use crate::json;
use crate::json::json_members;
use crate::json::json_object;
use crate::json::json_unsigned;
use crate::json::law_first_member_of_that_name;
use crate::json::member_called;
use crate::text::optional_text;
use vstd::prelude::*;

verus! {

/// The context window, in tokens, of a model that has not reported one.
pub const DEFAULT_CONTEXT_WINDOW: u64 = 200_000;

/// An amount of US dollars: the bits of an IEEE 754 double.
#[derive(Clone, Copy, Debug, PartialEq, Eq, Structural)]
pub struct Cost {
    pub bits: u64,
}

impl Cost {
    /// Whether the amount equals zero: a double does when its bits, the sign aside, are all clear.
    pub open spec fn zero(self) -> bool {
        self.bits == 0 || self.bits == 0x8000_0000_0000_0000
    }

    /// Whether the amount equals zero.
    pub fn is_zero(self) -> (r: bool)
        ensures
            r == self.zero(),
    {
        self.bits == 0 || self.bits == 0x8000_0000_0000_0000
    }
}

/// The tokens that a `result` event accounts for.
#[derive(Clone, Copy, Debug, PartialEq, Eq, Structural)]
pub struct ClaudeUsageData {
    pub input_tokens: u64,
    pub output_tokens: u64,
    pub cache_read_input_tokens: u64,
    pub cache_creation_input_tokens: u64,
}

/// The model that a `result` event names first, with its context window if the event tells it.
#[derive(Debug, PartialEq, Eq)]
pub struct ModelUsage {
    pub name: String,
    pub context_window: Option<u64>,
}

pub struct ModelUsageView {
    pub name: Seq<char>,
    pub context_window: Option<u64>,
}

impl View for ModelUsage {
    type V = ModelUsageView;

    open spec fn view(&self) -> ModelUsageView {
        ModelUsageView { name: self.name@, context_window: self.context_window }
    }
}

/// One piece of an assistant's message.
#[derive(Debug, PartialEq, Eq)]
pub struct ClaudeContent {
    pub content_type: String,
    pub text: String,
}

pub struct ClaudeContentView {
    pub content_type: Seq<char>,
    pub text: Seq<char>,
}

impl View for ClaudeContent {
    type V = ClaudeContentView;

    open spec fn view(&self) -> ClaudeContentView {
        ClaudeContentView { content_type: self.content_type@, text: self.text@ }
    }
}

/// An assistant's message.
#[derive(Debug, PartialEq, Eq)]
pub struct ClaudeMessage {
    pub content: Vec<ClaudeContent>,
}

impl View for ClaudeMessage {
    type V = Seq<ClaudeContentView>;

    open spec fn view(&self) -> Seq<ClaudeContentView> {
        self.content@.map_values(|c: ClaudeContent| c@)
    }
}

/// One event: a line of the process's output.
#[derive(Debug, PartialEq, Eq)]
pub struct ClaudeEvent {
    pub event_type: String,
    pub message: Option<ClaudeMessage>,
    pub session_id: Option<String>,
    pub total_cost: Cost,
    pub usage: Option<ClaudeUsageData>,
    pub model_usage: Option<ModelUsage>,
}

pub struct ClaudeEventView {
    pub event_type: Seq<char>,
    pub message: Option<Seq<ClaudeContentView>>,
    pub session_id: Option<Seq<char>>,
    pub total_cost: Cost,
    pub usage: Option<ClaudeUsageData>,
    pub model_usage: Option<ModelUsageView>,
}

impl View for ClaudeEvent {
    type V = ClaudeEventView;

    open spec fn view(&self) -> ClaudeEventView {
        ClaudeEventView {
            event_type: self.event_type@,
            message: match self.message {
                Some(m) => Some(m@),
                None => None,
            },
            session_id: optional_text(self.session_id),
            total_cost: self.total_cost,
            usage: self.usage,
            model_usage: match self.model_usage {
                Some(m) => Some(m@),
                None => None,
            },
        }
    }
}

/// What a run, or a session of several, has used.
#[derive(Debug, PartialEq, Eq)]
pub struct ClaudeUsage {
    pub total_cost: Cost,
    pub input_tokens: u64,
    pub output_tokens: u64,
    pub cache_read: u64,
    pub cache_creation: u64,
    pub context_window: u64,
    pub model: String,
}

pub struct ClaudeUsageView {
    pub total_cost: Cost,
    pub input_tokens: u64,
    pub output_tokens: u64,
    pub cache_read: u64,
    pub cache_creation: u64,
    pub context_window: u64,
    pub model: Seq<char>,
}

impl View for ClaudeUsage {
    type V = ClaudeUsageView;

    open spec fn view(&self) -> ClaudeUsageView {
        ClaudeUsageView {
            total_cost: self.total_cost,
            input_tokens: self.input_tokens,
            output_tokens: self.output_tokens,
            cache_read: self.cache_read,
            cache_creation: self.cache_creation,
            context_window: self.context_window,
            model: self.model@,
        }
    }
}

/// Nothing used, and nothing known of the model.
pub open spec fn no_usage() -> ClaudeUsageView {
    ClaudeUsageView {
        total_cost: Cost { bits: 0 },
        input_tokens: 0,
        output_tokens: 0,
        cache_read: 0,
        cache_creation: 0,
        context_window: DEFAULT_CONTEXT_WINDOW,
        model: Seq::empty(),
    }
}

impl ClaudeUsage {
    /// Nothing used, and nothing known of the model.
    pub fn none() -> (r: Self)
        ensures
            r@ == no_usage(),
    {
        ClaudeUsage {
            total_cost: Cost { bits: 0 },
            input_tokens: 0,
            output_tokens: 0,
            cache_read: 0,
            cache_creation: 0,
            context_window: DEFAULT_CONTEXT_WINDOW,
            model: String::new(),
        }
    }
}

/// What a `model_usage` value says: the first member of the object names the model, and the number
/// in the `contextWindow` of that member's value is its context window.
pub open spec fn first_model(value: serde_json::Value) -> Option<ModelUsageView> {
    match json_object(value) {
        Some(object) => if json_members(object).len() == 0 {
            None
        } else {
            Some(
                ModelUsageView {
                    name: json_members(object)[0].0,
                    context_window: context_window_of(json_members(object)[0].1),
                },
            )
        },
        None => None,
    }
}

/// The number in the `contextWindow` of a JSON value.
pub open spec fn context_window_of(value: serde_json::Value) -> Option<u64> {
    match json_object(value) {
        Some(object) => match member_called(json_members(object), "contextWindow"@) {
            Some(number) => json_unsigned(number),
            None => None,
        },
        None => None,
    }
}

/// Reads the model that a `model_usage` value names first.
pub fn read_model_usage(value: &serde_json::Value) -> (r: Option<ModelUsage>)
    ensures
        match r {
            Some(m) => first_model(*value) == Some(m@),
            None => first_model(*value) is None,
        },
{
    let object = match json::as_object(value) {
        Some(object) => object,
        None => return None,
    };
    let model = match json::first_value(object) {
        Some(model) => model,
        None => return None,
    };
    let context_window = match json::get(model, "contextWindow") {
        Some(number) => json::as_u64(number),
        None => None,
    };
    match json::first_key(object) {
        Some(name) => Some(ModelUsage { name: name.clone(), context_window }),
        None => None,
    }
}

/// An amount equals zero exactly when its bits below the sign are all clear.
pub proof fn law_zero_whatever_the_sign(cost: Cost)
    ensures
        cost.zero() <==> cost.bits % 0x8000_0000_0000_0000 == 0,
{
}

/// Nothing used is no cost, no tokens of any kind and no model, with room for the tokens that a model
/// has room for unless it says otherwise.
pub proof fn law_nothing_used()
    ensures
        no_usage().total_cost.bits == 0,
        no_usage().input_tokens == 0,
        no_usage().output_tokens == 0,
        no_usage().cache_read == 0,
        no_usage().cache_creation == 0,
        no_usage().context_window == 200_000,
        no_usage().model.len() == 0,
{
}

/// A `model_usage` value names a model exactly when it is an object with members, and the first of
/// these decides: its name is the model's, and its value has the context window.
pub proof fn law_first_member_is_the_model(
    value: serde_json::Value,
    object: serde_json::Map<String, serde_json::Value>,
)
    ensures
        json_object(value) is None ==> first_model(value) is None,
        json_object(value) == Some(object) && json_members(object).len() == 0 ==> first_model(
            value,
        ) is None,
        json_object(value) == Some(object) && json_members(object).len() > 0 ==> {
            let (name, of_model) = json_members(object)[0];
            &&& first_model(value) is Some
            &&& first_model(value)->0.name == name
            &&& first_model(value)->0.context_window == context_window_of(of_model)
        },
{
}

/// The context window is the number in the first member called `contextWindow`; a value that is no
/// object, or that has no such member, tells none.
pub proof fn law_context_window_is_the_number(
    value: serde_json::Value,
    object: serde_json::Map<String, serde_json::Value>,
    i: int,
)
    ensures
        json_object(value) is None ==> context_window_of(value) is None,
        json_object(value) == Some(object) && (forall|j: int|
            0 <= j < json_members(object).len() ==> (#[trigger] json_members(object)[j]).0
                != "contextWindow"@) ==> context_window_of(value) is None,
        json_object(value) == Some(object) && 0 <= i < json_members(object).len() && json_members(
            object,
        )[i].0 == "contextWindow"@ && (forall|j: int|
            0 <= j < i ==> (#[trigger] json_members(object)[j]).0 != "contextWindow"@)
            ==> context_window_of(value) == json_unsigned(json_members(object)[i].1),
{
    law_first_member_of_that_name(json_members(object), "contextWindow"@);
}

/// An event is read as it was reported: each of its parts, and each piece of its message in its place.
pub proof fn law_event_is_read_as_reported(event: ClaudeEvent)
    ensures
        event@.event_type == event.event_type@,
        event@.message is Some <==> event.message is Some,
        event.message is Some ==> event@.message->0.len() == event.message->0.content@.len(),
        event.message is Some ==> forall|i: int|
            0 <= i < event.message->0.content@.len() ==> {
                let piece = #[trigger] event@.message->0[i];
                &&& piece.content_type == event.message->0.content@[i].content_type@
                &&& piece.text == event.message->0.content@[i].text@
            },
        event@.session_id is Some <==> event.session_id is Some,
        event.session_id is Some ==> event@.session_id->0 == event.session_id->0@,
        event@.total_cost.bits == event.total_cost.bits,
        event@.usage == event.usage,
        event@.model_usage is Some <==> event.model_usage is Some,
        event.model_usage is Some ==> event@.model_usage->0.name == event.model_usage->0.name@,
        event.model_usage is Some ==> event@.model_usage->0.context_window
            == event.model_usage->0.context_window,
{
}

/// Usage is read as it is held, part by part.
pub proof fn law_usage_is_read_as_held(usage: ClaudeUsage)
    ensures
        usage@.total_cost.bits == usage.total_cost.bits,
        usage@.input_tokens == usage.input_tokens,
        usage@.output_tokens == usage.output_tokens,
        usage@.cache_read == usage.cache_read,
        usage@.cache_creation == usage.cache_creation,
        usage@.context_window == usage.context_window,
        usage@.model == usage.model@,
{
}

} // verus!
