//! What the chat panel shows.

use crate::chat_laws::law_something_typed_can_be_sent;
use crate::claude_code_panel::answered;
use crate::claude_code_panel::asked;
use crate::claude_code_panel::can_send;
use crate::claude_code_panel::ChatMessage;
use crate::claude_code_panel::ChatMessageView;
use crate::claude_code_panel::ClaudeCodePanelView;
use crate::commands::command_descriptions;
use crate::commands::command_names;
use crate::stream::Cost;
use crate::task::TaskRunView;
use crate::text::same_text;
use crate::text::trimmed;
use crate::text::whitespace;
use vstd::prelude::*;

verus! {

/// The colours of the theme that lie behind a part of the panel.
#[derive(Clone, Copy, Debug, PartialEq, Eq, Structural)]
pub enum Background {
    Panel,
    TitleBar,
    Surface,
    Element,
}

/// The colours of the theme that a border is drawn in.
#[derive(Clone, Copy, Debug, PartialEq, Eq, Structural)]
pub enum Border {
    Normal,
    Variant,
}

/// How the caret is drawn.
#[derive(Clone, Copy, Debug, PartialEq, Eq, Structural)]
pub enum Caret {
    Faint,
    Full,
}

/// A message on show.
#[derive(Debug, PartialEq, Eq)]
pub struct Bubble {
    pub label: String,
    pub background: Background,
    pub text: String,
}

pub struct BubbleView {
    pub label: Seq<char>,
    pub background: Background,
    pub text: Seq<char>,
}

impl View for Bubble {
    type V = BubbleView;

    open spec fn view(&self) -> BubbleView {
        BubbleView { label: self.label@, background: self.background, text: self.text@ }
    }
}

/// A command on offer.
#[derive(Debug, PartialEq, Eq)]
pub struct CommandRow {
    pub name: &'static str,
    pub description: &'static str,
    pub selected: bool,
}

pub struct CommandRowView {
    pub name: Seq<char>,
    pub description: Seq<char>,
    pub selected: bool,
}

impl View for CommandRow {
    type V = CommandRowView;

    open spec fn view(&self) -> CommandRowView {
        CommandRowView {
            name: self.name@,
            description: self.description@,
            selected: self.selected,
        }
    }
}

/// What the panel shows.
#[derive(Debug, PartialEq, Eq)]
pub struct ChatDisplay {
    /// The conversation; `None` while there is none, when the panel welcomes instead.
    pub bubbles: Option<Vec<Bubble>>,
    /// Whether a note says that an answer is on its way.
    pub thinking: bool,
    /// The commands on offer; `None` while the list is not up.
    pub commands: Option<Vec<CommandRow>>,
    /// The text being typed; `None` while there is none, when a hint stands in its place.
    pub input: Option<String>,
    pub footer: Background,
    pub input_border: Border,
    /// The caret; `None` while the panel has not got the focus.
    pub caret: Option<Caret>,
    pub send_disabled: bool,
}

pub struct ChatDisplayView {
    pub bubbles: Option<Seq<BubbleView>>,
    pub thinking: bool,
    pub commands: Option<Seq<CommandRowView>>,
    pub input: Option<Seq<char>>,
    pub footer: Background,
    pub input_border: Border,
    pub caret: Option<Caret>,
    pub send_disabled: bool,
}

impl View for ChatDisplay {
    type V = ChatDisplayView;

    open spec fn view(&self) -> ChatDisplayView {
        ChatDisplayView {
            bubbles: match self.bubbles {
                Some(bubbles) => Some(bubbles@.map_values(|b: Bubble| b@)),
                None => None,
            },
            thinking: self.thinking,
            commands: match self.commands {
                Some(rows) => Some(rows@.map_values(|r: CommandRow| r@)),
                None => None,
            },
            input: match self.input {
                Some(text) => Some(text@),
                None => None,
            },
            footer: self.footer,
            input_border: self.input_border,
            caret: self.caret,
            send_disabled: self.send_disabled,
        }
    }
}

/// How a message is shown: under who said it, the assistant by its title, and an error on a ground
/// of its own.
pub open spec fn bubble_of(title: Seq<char>, message: ChatMessageView) -> BubbleView {
    BubbleView {
        label: if message.role == "You"@ {
            "You"@
        } else if message.role == "Error"@ {
            "Error"@
        } else {
            title
        },
        background: if message.role == "Error"@ {
            Background::Element
        } else {
            Background::Surface
        },
        text: message.text,
    }
}

/// How the `k`-th of the offered commands is shown.
pub open spec fn row_of(p: ClaudeCodePanelView, k: int) -> CommandRowView {
    CommandRowView {
        name: command_names()[p.filtered_commands[k] as int],
        description: command_descriptions()[p.filtered_commands[k] as int],
        selected: k == p.selected_command,
    }
}

/// What a panel shows, with or without the focus.
pub open spec fn display_of(p: ClaudeCodePanelView, focused: bool) -> ChatDisplayView {
    ChatDisplayView {
        bubbles: if p.messages.len() == 0 && !p.is_loading {
            None
        } else {
            Some(p.messages.map_values(|m: ChatMessageView| bubble_of(p.assistant.title, m)))
        },
        thinking: p.is_loading && p.messages.len() > 0,
        commands: if p.show_commands {
            Some(Seq::new(p.filtered_commands.len(), |k: int| row_of(p, k)))
        } else {
            None
        },
        input: if p.input.len() == 0 {
            None
        } else {
            Some(p.input)
        },
        footer: if focused {
            Background::TitleBar
        } else {
            Background::Panel
        },
        input_border: if focused {
            Border::Normal
        } else {
            Border::Variant
        },
        caret: if !focused {
            None
        } else if p.input.len() == 0 {
            Some(Caret::Faint)
        } else {
            Some(Caret::Full)
        },
        send_disabled: !can_send(p),
    }
}

/// How a message is shown.
pub fn bubble(title: &str, message: &ChatMessage) -> (r: Bubble)
    ensures
        r@ == bubble_of(title@, message@),
{
    proof {
        reveal_strlit("You");
        reveal_strlit("Error");
        assert("You"@.len() != "Error"@.len());
    }
    let role = message.role.as_str();
    let (label, background) = if same_text(role, "You") {
        ("You", Background::Surface)
    } else if same_text(role, "Error") {
        ("Error", Background::Element)
    } else {
        (title, Background::Surface)
    };
    Bubble { label: label.to_owned(), background, text: message.text.clone() }
}

/// A question is shown under `You`, an error under `Error` on a ground of its own, and an answer under
/// the assistant's title, unless the assistant goes by the name of one of the other two.
pub proof fn law_messages_are_shown_under_who_said_them(
    p: ClaudeCodePanelView,
    run: TaskRunView,
    cost: Cost,
    focused: bool,
)
    ensures
        ({
            let shown = display_of(asked(p), focused).bubbles->0.last();
            shown.label == "You"@ && shown.background is Surface && shown.text == trimmed(p.input)
        }),
        run.error is Some ==> {
            let shown = display_of(answered(p, run, cost), focused).bubbles->0.last();
            shown.label == "Error"@ && shown.background is Element && shown.text == run.error->0
        },
        run.error is None && run.text_parts.flatten().len() > 0 && p.assistant.name != "You"@
            && p.assistant.name != "Error"@ ==> {
            let shown = display_of(answered(p, run, cost), focused).bubbles->0.last();
            shown.label == p.assistant.title && shown.background is Surface && shown.text
                == run.text_parts.flatten()
        },
{
    reveal_strlit("You");
    reveal_strlit("Error");
    assert("You"@.len() != "Error"@.len());
}

/// One of the rows on show is the selected one, if there are any, and no other is.
pub proof fn law_one_row_is_selected(p: ClaudeCodePanelView, focused: bool)
    requires
        p.wf(),
        p.show_commands,
        p.filtered_commands.len() > 0,
    ensures
        ({
            let rows = display_of(p, focused).commands->0;
            &&& p.selected_command < rows.len()
            &&& forall|k: int|
                0 <= k < rows.len() ==> (#[trigger] rows[k]).selected == (k == p.selected_command)
        }),
{
}

/// Every message of the conversation is shown, whole and in its place, under who said it: `You` and
/// `Error` under these names, an error on a ground of its own, and all others under the assistant's
/// title. Only while there is no conversation and none is awaited is none shown.
pub proof fn law_every_message_is_shown(p: ClaudeCodePanelView, focused: bool)
    ensures
        ({
            let shown = display_of(p, focused).bubbles;
            &&& shown is None <==> p.messages.len() == 0 && !p.is_loading
            &&& shown is Some ==> shown->0.len() == p.messages.len()
            &&& shown is Some ==> forall|i: int|
                0 <= i < p.messages.len() ==> {
                    let bubble = #[trigger] shown->0[i];
                    let role = p.messages[i].role;
                    &&& bubble.text == p.messages[i].text
                    &&& role == "You"@ || role == "Error"@ ==> bubble.label == role
                    &&& role != "You"@ && role != "Error"@ ==> bubble.label == p.assistant.title
                    &&& role == "Error"@ ==> bubble.background is Element
                    &&& role != "Error"@ ==> bubble.background is Surface
                }
        }),
        display_of(p, focused).thinking <==> p.is_loading && p.messages.len() > 0,
{
    reveal_strlit("You");
    reveal_strlit("Error");
    assert("You"@.len() != "Error"@.len());
}

/// While the list is on show, each command that is offered has a row, in the order in which they are
/// offered, with its name and what it does; and only the selected one is marked as such.
pub proof fn law_every_offered_command_is_shown(p: ClaudeCodePanelView, focused: bool)
    ensures
        ({
            let rows = display_of(p, focused).commands;
            &&& rows is Some <==> p.show_commands
            &&& rows is Some ==> rows->0.len() == p.filtered_commands.len()
            &&& rows is Some ==> forall|k: int|
                0 <= k < p.filtered_commands.len() ==> {
                    let row = #[trigger] rows->0[k];
                    &&& row.name == command_names()[p.filtered_commands[k] as int]
                    &&& row.description == command_descriptions()[p.filtered_commands[k] as int]
                    &&& row.selected <==> k == p.selected_command
                }
        }),
{
}

/// The text is shown as it is, if there is any. The focus shows in the footer, the border and the
/// caret, which is faint while there is no text; and the send button works exactly when there is
/// something but whitespace to send and no answer is awaited.
pub proof fn law_text_and_focus_are_shown(p: ClaudeCodePanelView, focused: bool)
    ensures
        ({
            let shown = display_of(p, focused);
            &&& p.input.len() > 0 ==> shown.input == Some(p.input)
            &&& p.input.len() == 0 ==> shown.input is None
            &&& focused ==> shown.footer is TitleBar && shown.input_border is Normal
            &&& !focused ==> shown.footer is Panel && shown.input_border is Variant
            &&& shown.caret is Some <==> focused
            &&& focused ==> (shown.caret->0 is Faint <==> p.input.len() == 0)
            &&& !shown.send_disabled <==> !p.is_loading && exists|i: int|
                0 <= i < p.input.len() && !whitespace(#[trigger] p.input[i])
        }),
{
    law_something_typed_can_be_sent(p);
}

/// What is shown is read as it is held, part by part.
pub proof fn law_display_is_read_as_held(
    display: ChatDisplay,
    bubble: Bubble,
    row: CommandRow,
)
    ensures
        bubble@.label == bubble.label@,
        bubble@.background == bubble.background,
        bubble@.text == bubble.text@,
        row@.name == row.name@,
        row@.description == row.description@,
        row@.selected == row.selected,
        display@.bubbles is Some <==> display.bubbles is Some,
        display.bubbles is Some ==> display@.bubbles->0.len() == display.bubbles->0@.len(),
        display.bubbles is Some ==> forall|i: int|
            0 <= i < display.bubbles->0@.len() ==> #[trigger] display@.bubbles->0[i]
                == display.bubbles->0@[i]@,
        display@.thinking == display.thinking,
        display@.commands is Some <==> display.commands is Some,
        display.commands is Some ==> display@.commands->0.len() == display.commands->0@.len(),
        display.commands is Some ==> forall|i: int|
            0 <= i < display.commands->0@.len() ==> #[trigger] display@.commands->0[i]
                == display.commands->0@[i]@,
        display@.input is Some <==> display.input is Some,
        display.input is Some ==> display@.input->0 == display.input->0@,
        display@.footer == display.footer,
        display@.input_border == display.input_border,
        display@.caret == display.caret,
        display@.send_disabled == display.send_disabled,
{
}

} // verus!
