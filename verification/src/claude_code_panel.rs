//! The chat panel: what is typed, dropped and answered, and what the panel then shows.

use crate::chat_display::bubble;
use crate::chat_display::bubble_of;
use crate::chat_display::display_of;
use crate::chat_display::row_of;
use crate::chat_display::Background;
use crate::chat_display::Border;
use crate::chat_display::Bubble;
use crate::chat_display::Caret;
use crate::chat_display::ChatDisplay;
use crate::chat_display::CommandRow;
use crate::commands::command;
use crate::commands::command_indices;
use crate::commands::command_names;
use crate::commands::commands_with_prefix;
use crate::commands::law_matches_are_commands_in_order;
use crate::commands::law_nothing_matches_all;
use crate::commands::matching_commands;
use crate::commands::COMMAND_COUNT;
use crate::stream::no_usage;
use crate::stream::ClaudeUsage;
use crate::stream::ClaudeUsageView;
use crate::stream::Cost;
use crate::task::command_for;
use crate::task::newer;
use crate::task::task_command;
use crate::task::Assistant;
use crate::task::AssistantView;
use crate::task::TaskCommand;
use crate::task::TaskCommandView;
use crate::task::TaskRun;
use crate::task::TaskRunView;
use crate::text::ascii;
use crate::text::concat_all;
use crate::text::lemma_one_byte;
use crate::text::lowered;
use crate::text::optional_text;
use crate::text::same_text;
use crate::text::starts_with;
use crate::text::texts;
use crate::text::to_lowercase;
use crate::text::trim;
use crate::text::trimmed;
use vstd::prelude::*;

verus! {

/// A message of the conversation.
#[derive(Debug, PartialEq, Eq)]
pub struct ChatMessage {
    pub role: String,
    pub text: String,
}

pub struct ChatMessageView {
    pub role: Seq<char>,
    pub text: Seq<char>,
}

impl View for ChatMessage {
    type V = ChatMessageView;

    open spec fn view(&self) -> ChatMessageView {
        ChatMessageView { role: self.role@, text: self.text@ }
    }
}

/// A key that was pressed, with the text that it types, if it types any.
#[derive(Debug, PartialEq, Eq)]
pub struct Keystroke {
    pub key: String,
    pub key_char: Option<String>,
    pub control: bool,
    pub platform: bool,
}

pub struct KeystrokeView {
    pub key: Seq<char>,
    pub key_char: Option<Seq<char>>,
    pub control: bool,
    pub platform: bool,
}

impl View for Keystroke {
    type V = KeystrokeView;

    open spec fn view(&self) -> KeystrokeView {
        KeystrokeView {
            key: self.key@,
            key_char: optional_text(self.key_char),
            control: self.control,
            platform: self.platform,
        }
    }
}

/// What is to be done when the panel has handled something.
#[derive(Debug, PartialEq, Eq)]
pub enum PanelAction {
    /// Nothing.
    Nothing,
    /// The panel is to be drawn anew.
    Redraw,
    /// The panel is to be drawn anew, and the process started.
    Run(TaskCommand),
}

pub enum PanelActionView {
    Nothing,
    Redraw,
    Run(TaskCommandView),
}

impl View for PanelAction {
    type V = PanelActionView;

    open spec fn view(&self) -> PanelActionView {
        match self {
            PanelAction::Nothing => PanelActionView::Nothing,
            PanelAction::Redraw => PanelActionView::Redraw,
            PanelAction::Run(c) => PanelActionView::Run(c@),
        }
    }
}

/// What is to be done when something was dropped on the panel.
#[derive(Clone, Copy, Debug, PartialEq, Eq, Structural)]
pub struct DropAction {
    /// The panel is to get the focus.
    pub focus: bool,
    /// The panel is to be drawn anew.
    pub redraw: bool,
}

/// The chat panel.
pub struct ClaudeCodePanel {
    assistant: Assistant,
    messages: Vec<ChatMessage>,
    input_buffer: String,
    is_loading: bool,
    session_id: Option<String>,
    show_commands: bool,
    filtered_commands: Vec<usize>,
    selected_command: usize,
    session_usage: ClaudeUsage,
}

/// What a chat panel holds: who it talks to, the conversation, the text being typed, whether an
/// answer is awaited, the session, the list of commands that is offered, and what the session has
/// used.
#[verifier::ext_equal]
pub struct ClaudeCodePanelView {
    pub assistant: AssistantView,
    pub messages: Seq<ChatMessageView>,
    pub input: Seq<char>,
    pub is_loading: bool,
    pub session_id: Option<Seq<char>>,
    pub show_commands: bool,
    pub filtered_commands: Seq<usize>,
    pub selected_command: usize,
    pub session_usage: ClaudeUsageView,
}

impl ClaudeCodePanelView {
    /// The offered commands exist, one of them is selected if there are any, and while their list is
    /// on show the text being typed is ASCII.
    pub open spec fn wf(self) -> bool {
        &&& self.filtered_commands.len() <= COMMAND_COUNT
        &&& forall|k: int|
            0 <= k < self.filtered_commands.len() ==> #[trigger] self.filtered_commands[k]
                < COMMAND_COUNT
        &&& self.selected_command == 0 || self.selected_command < self.filtered_commands.len()
        &&& self.show_commands ==> ascii(self.input)
    }

    /// The list on show is that of the commands that start with the text being typed.
    pub open spec fn in_sync(self) -> bool {
        self.show_commands ==> self.filtered_commands == matching_commands(lowered(self.input))
    }
}

impl View for ClaudeCodePanel {
    type V = ClaudeCodePanelView;

    closed spec fn view(&self) -> ClaudeCodePanelView {
        ClaudeCodePanelView {
            assistant: self.assistant@,
            messages: self.messages@.map_values(|m: ChatMessage| m@),
            input: self.input_buffer@,
            is_loading: self.is_loading,
            session_id: optional_text(self.session_id),
            show_commands: self.show_commands,
            filtered_commands: self.filtered_commands@,
            selected_command: self.selected_command,
            session_usage: self.session_usage@,
        }
    }
}

/// A panel in which nothing has happened yet.
pub open spec fn fresh_panel(assistant: AssistantView) -> ClaudeCodePanelView {
    ClaudeCodePanelView {
        assistant,
        messages: Seq::empty(),
        input: Seq::empty(),
        is_loading: false,
        session_id: None,
        show_commands: false,
        filtered_commands: Seq::empty(),
        selected_command: 0,
        session_usage: no_usage(),
    }
}

/// The panel with a path behind the text being typed, parted from it by a space.
pub open spec fn with_path(p: ClaudeCodePanelView, path: Seq<char>) -> ClaudeCodePanelView {
    let parted = if p.input.len() > 0 && p.input.last() != ' ' {
        p.input.push(' ')
    } else {
        p.input
    };
    ClaudeCodePanelView { input: parted + path, show_commands: false, ..p }
}

/// The panel with several paths behind the text being typed.
pub open spec fn with_paths(p: ClaudeCodePanelView, paths: Seq<Seq<char>>) -> ClaudeCodePanelView
    decreases paths.len(),
{
    if paths.len() == 0 {
        p
    } else {
        with_path(with_paths(p, paths.drop_last()), paths.last())
    }
}

/// The paths that are there, in order.
pub open spec fn known_paths(paths: Seq<Option<String>>) -> Seq<Seq<char>> {
    paths.filter_map(|path: Option<String>| optional_text(path))
}

/// The panel with the next of the offered commands selected, if there is one.
pub open spec fn selected_next(p: ClaudeCodePanelView) -> ClaudeCodePanelView {
    if p.show_commands && p.selected_command + 1 < p.filtered_commands.len() {
        ClaudeCodePanelView { selected_command: (p.selected_command + 1) as usize, ..p }
    } else {
        p
    }
}

/// The panel with the previous of the offered commands selected, if there is one.
pub open spec fn selected_previous(p: ClaudeCodePanelView) -> ClaudeCodePanelView {
    if p.show_commands && p.selected_command > 0 {
        ClaudeCodePanelView { selected_command: (p.selected_command - 1) as usize, ..p }
    } else {
        p
    }
}

/// The panel with its list of commands made anew from the text being typed.
pub open spec fn refiltered(p: ClaudeCodePanelView) -> ClaudeCodePanelView {
    ClaudeCodePanelView {
        filtered_commands: matching_commands(lowered(p.input)),
        selected_command: 0,
        ..p
    }
}

/// The panel with a command in place of the text being typed, ready for what follows it.
pub open spec fn with_command(p: ClaudeCodePanelView, name: Seq<char>) -> ClaudeCodePanelView {
    ClaudeCodePanelView { input: name.push(' '), show_commands: false, ..p }
}

/// The panel after the selected command has been picked.
pub open spec fn picked(p: ClaudeCodePanelView) -> ClaudeCodePanelView {
    if p.selected_command < p.filtered_commands.len() {
        with_command(p, command_names()[p.filtered_commands[p.selected_command as int] as int])
    } else {
        p
    }
}

/// The panel after the question being typed has been asked.
pub open spec fn asked(p: ClaudeCodePanelView) -> ClaudeCodePanelView {
    ClaudeCodePanelView {
        messages: p.messages.push(ChatMessageView { role: "You"@, text: trimmed(p.input) }),
        input: Seq::empty(),
        is_loading: true,
        ..p
    }
}

/// The panel after the last character has been taken back.
pub open spec fn erased(p: ClaudeCodePanelView) -> ClaudeCodePanelView {
    let q = ClaudeCodePanelView {
        input: if p.input.len() > 0 {
            p.input.drop_last()
        } else {
            p.input
        },
        ..p
    };
    if q.input.len() > 0 && q.input[0] == '/' {
        refiltered(q)
    } else {
        ClaudeCodePanelView { show_commands: false, ..q }
    }
}

/// The panel after a character has been typed: a slash on its own brings up the list of commands,
/// and while it is up, each character narrows it.
pub open spec fn typed(p: ClaudeCodePanelView, text: Seq<char>) -> ClaudeCodePanelView {
    let q = ClaudeCodePanelView {
        input: p.input + text,
        show_commands: p.show_commands || p.input + text == "/"@,
        ..p
    };
    if q.show_commands {
        refiltered(q)
    } else {
        q
    }
}

/// What a key means to the panel.
pub enum KeyMeaning {
    Nothing,
    PickCommand,
    HideCommands,
    Ask,
    Erase,
    Type(Seq<char>),
}

/// What a key means: nothing while an answer is awaited or a command key is held; in the list of
/// commands, enter picks and escape leaves; elsewhere enter asks what has been typed, if that is
/// more than whitespace; backspace erases; and a key that types one ASCII character types it.
pub open spec fn key_meaning(p: ClaudeCodePanelView, k: KeystrokeView) -> KeyMeaning {
    if p.is_loading || k.control || k.platform {
        KeyMeaning::Nothing
    } else if p.show_commands && k.key == "enter"@ {
        KeyMeaning::PickCommand
    } else if p.show_commands && k.key == "escape"@ {
        KeyMeaning::HideCommands
    } else if k.key == "enter"@ && p.input.len() > 0 {
        if trimmed(p.input).len() > 0 {
            KeyMeaning::Ask
        } else {
            KeyMeaning::Nothing
        }
    } else if k.key == "backspace"@ {
        KeyMeaning::Erase
    } else {
        match k.key_char {
            Some(text) => if text.len() == 1 && ascii(text) {
                KeyMeaning::Type(text)
            } else {
                KeyMeaning::Nothing
            },
            None => KeyMeaning::Nothing,
        }
    }
}

/// The panel after a key.
pub open spec fn after_key(p: ClaudeCodePanelView, k: KeystrokeView) -> ClaudeCodePanelView {
    match key_meaning(p, k) {
        KeyMeaning::Nothing => p,
        KeyMeaning::PickCommand => picked(p),
        KeyMeaning::HideCommands => ClaudeCodePanelView { show_commands: false, ..p },
        KeyMeaning::Ask => ClaudeCodePanelView { show_commands: false, ..asked(p) },
        KeyMeaning::Erase => erased(p),
        KeyMeaning::Type(text) => typed(p, text),
    }
}

/// What is to be done after a key.
pub open spec fn key_action(p: ClaudeCodePanelView, k: KeystrokeView) -> PanelActionView {
    match key_meaning(p, k) {
        KeyMeaning::Nothing => PanelActionView::Nothing,
        KeyMeaning::Ask => PanelActionView::Run(
            command_for(p.assistant.program, p.session_id, trimmed(p.input)),
        ),
        _ => PanelActionView::Redraw,
    }
}

/// Whether the question being typed can be sent: it is more than whitespace, and no answer is
/// awaited.
pub open spec fn can_send(p: ClaudeCodePanelView) -> bool {
    trimmed(p.input).len() > 0 && !p.is_loading
}

/// Whether the tokens of a run can be counted in with those of the session.
pub open spec fn usage_fits(session: ClaudeUsageView, run: ClaudeUsageView) -> bool {
    &&& session.input_tokens + run.input_tokens <= u64::MAX
    &&& session.output_tokens + run.output_tokens <= u64::MAX
    &&& session.cache_read + run.cache_read <= u64::MAX
    &&& session.cache_creation + run.cache_creation <= u64::MAX
}

/// The usage of the session with that of a run counted in, their costs added up to `summed_cost`.
pub open spec fn usage_with(
    session: ClaudeUsageView,
    run: ClaudeUsageView,
    summed_cost: Cost,
) -> ClaudeUsageView {
    ClaudeUsageView {
        total_cost: summed_cost,
        input_tokens: (session.input_tokens + run.input_tokens) as u64,
        output_tokens: (session.output_tokens + run.output_tokens) as u64,
        cache_read: (session.cache_read + run.cache_read) as u64,
        cache_creation: (session.cache_creation + run.cache_creation) as u64,
        context_window: if run.context_window > 0 {
            run.context_window
        } else {
            session.context_window
        },
        model: if run.model.len() > 0 {
            run.model
        } else {
            session.model
        },
    }
}

/// The panel after a run is over. One that failed leaves its error in the conversation; one that
/// did not leaves its answer, if it said anything, and its session, and its usage is counted in.
pub open spec fn answered(
    p: ClaudeCodePanelView,
    run: TaskRunView,
    summed_cost: Cost,
) -> ClaudeCodePanelView {
    match run.error {
        Some(error) => ClaudeCodePanelView {
            messages: p.messages.push(ChatMessageView { role: "Error"@, text: error }),
            is_loading: false,
            ..p
        },
        None => ClaudeCodePanelView {
            messages: if run.text_parts.flatten().len() > 0 {
                p.messages.push(
                    ChatMessageView { role: p.assistant.name, text: run.text_parts.flatten() },
                )
            } else {
                p.messages
            },
            session_id: newer(p.session_id, run.session_id),
            session_usage: usage_with(p.session_usage, run.usage, summed_cost),
            is_loading: false,
            ..p
        },
    }
}

impl ClaudeCodePanel {
    /// A panel in which nothing has happened yet.
    pub fn load(assistant: Assistant) -> (r: Self)
        ensures
            r@ == fresh_panel(assistant@),
            r@.wf(),
            r@.in_sync(),
    {
        let r = ClaudeCodePanel {
            assistant,
            messages: Vec::new(),
            input_buffer: String::new(),
            is_loading: false,
            session_id: None,
            show_commands: false,
            filtered_commands: Vec::new(),
            selected_command: 0,
            session_usage: ClaudeUsage::none(),
        };
        assert(r@ =~= fresh_panel(assistant@));
        r
    }

    /// Puts a path behind the text being typed, parted from it by a space.
    pub fn append_path_to_input(&mut self, path_str: &str) -> (r: PanelAction)
        ensures
            final(self)@ == with_path(old(self)@, path_str@),
            r@ == PanelActionView::Redraw,
    {
        let n = self.input_buffer.as_str().unicode_len();
        if n > 0 && self.input_buffer.as_str().get_char(n - 1) != ' ' {
            proof {
                reveal_strlit(" ");
            }
            self.input_buffer.append(" ");
            assert(self.input_buffer@ == old(self).input_buffer@.push(' '));
        }
        self.input_buffer.append(path_str);
        self.show_commands = false;
        assert(self@ =~= with_path(old(self)@, path_str@));
        PanelAction::Redraw
    }

    /// The positions of the commands that start with the text being typed, in whatever case it is.
    pub fn filter_commands(&self) -> (r: Vec<usize>)
        ensures
            r@ == matching_commands(lowered(self@.input)),
            self@.input.len() == 0 ==> r@ == command_indices(),
    {
        proof {
            law_nothing_matches_all();
            assert(self@.input.len() == 0 ==> lowered(self@.input) == Seq::<char>::empty());
        }
        let prefix = to_lowercase(self.input_buffer.as_str());
        commands_with_prefix(prefix.as_str())
    }

    /// Makes the list of commands anew, with the first selected.
    fn refilter(&mut self)
        requires
            old(self)@.show_commands ==> ascii(old(self)@.input),
        ensures
            final(self)@ == refiltered(old(self)@),
            final(self)@.wf(),
    {
        self.filtered_commands = self.filter_commands();
        self.selected_command = 0;
        proof {
            law_matches_are_commands_in_order(lowered(self@.input));
        }
        assert(self@ =~= refiltered(old(self)@));
    }

    /// Handles paths dropped on the panel: they go behind the text being typed, and the panel gets
    /// the focus if it has not got it.
    pub fn handle_drop(&mut self, paths: &Vec<String>, focused: bool) -> (r: DropAction)
        requires
            old(self)@.wf(),
        ensures
            final(self)@ == with_paths(old(self)@, texts(paths@)),
            final(self)@.wf(),
            r == (DropAction { focus: paths@.len() > 0 && !focused, redraw: paths@.len() > 0 }),
    {
        if paths.len() == 0 {
            return DropAction { focus: false, redraw: false };
        }
        let ghost all = texts(paths@);
        let mut i: usize = 0;
        assert(all.take(0) == Seq::<Seq<char>>::empty());
        while i < paths.len()
            invariant
                i <= paths.len(),
                all == texts(paths@),
                self@.wf(),
                self@ == with_paths(old(self)@, all.take(i as int)),
            decreases paths.len() - i,
        {
            assert(all.take(i + 1).drop_last() == all.take(i as int));
            self.append_path_to_input(paths[i].as_str());
            i += 1;
        }
        assert(all.take(i as int) == all);
        DropAction { focus: !focused, redraw: true }
    }

    /// Handles a tab dropped on the panel; `path` is that of the tab's file, if it has one.
    pub fn handle_drop_tab(&mut self, path: &Option<String>, focused: bool) -> (r: DropAction)
        requires
            old(self)@.wf(),
        ensures
            match path {
                Some(path) => {
                    &&& final(self)@ == with_path(old(self)@, path@)
                    &&& r == (DropAction { focus: !focused, redraw: true })
                },
                None => {
                    &&& final(self)@ == old(self)@
                    &&& r == (DropAction { focus: false, redraw: false })
                },
            },
            final(self)@.wf(),
    {
        match path {
            Some(path) => {
                self.append_path_to_input(path.as_str());
                DropAction { focus: !focused, redraw: true }
            },
            None => DropAction { focus: false, redraw: false },
        }
    }

    /// Handles a selection of entries dropped on the panel; those that have a path go behind the
    /// text being typed, and the panel gets the focus in any case.
    pub fn handle_drop_selection(&mut self, paths: &Vec<Option<String>>, focused: bool) -> (r:
        DropAction)
        requires
            old(self)@.wf(),
        ensures
            final(self)@ == with_paths(old(self)@, known_paths(paths@)),
            final(self)@.wf(),
            r == (DropAction { focus: !focused, redraw: known_paths(paths@).len() > 0 }),
    {
        let mut redraw = false;
        let mut i: usize = 0;
        let ghost known = |path: Option<String>| optional_text(path);
        assert(paths@.take(0) == Seq::<Option<String>>::empty());
        while i < paths.len()
            invariant
                i <= paths.len(),
                known == (|path: Option<String>| optional_text(path)),
                self@.wf(),
                self@ == with_paths(old(self)@, known_paths(paths@.take(i as int))),
                redraw == (known_paths(paths@.take(i as int)).len() > 0),
            decreases paths.len() - i,
        {
            proof {
                paths@.lemma_filter_map_take_succ(known, i as int);
            }
            match &paths[i] {
                Some(path) => {
                    proof {
                        assert(known_paths(paths@.take(i + 1)).drop_last() == known_paths(
                            paths@.take(i as int),
                        ));
                    }
                    self.append_path_to_input(path.as_str());
                    redraw = true;
                },
                None => {
                    assert(known_paths(paths@.take(i + 1)) == known_paths(paths@.take(i as int)));
                },
            }
            i += 1;
        }
        assert(paths@.take(i as int) == paths@);
        DropAction { focus: !focused, redraw }
    }

    /// Selects the next of the offered commands, if there is one.
    pub fn handle_select_next(&mut self) -> (r: PanelAction)
        requires
            old(self)@.wf(),
        ensures
            final(self)@ == selected_next(old(self)@),
            final(self)@.wf(),
            r@ == (if selected_next(old(self)@) == old(self)@ {
                PanelActionView::Nothing
            } else {
                PanelActionView::Redraw
            }),
    {
        if !self.show_commands {
            return PanelAction::Nothing;
        }
        if self.filtered_commands.len() > 0 && self.selected_command < self.filtered_commands.len()
            - 1 {
            self.selected_command += 1;
            assert(self@ =~= selected_next(old(self)@));
            PanelAction::Redraw
        } else {
            PanelAction::Nothing
        }
    }

    /// Selects the previous of the offered commands, if there is one.
    pub fn handle_select_previous(&mut self) -> (r: PanelAction)
        requires
            old(self)@.wf(),
        ensures
            final(self)@ == selected_previous(old(self)@),
            final(self)@.wf(),
            r@ == (if selected_previous(old(self)@) == old(self)@ {
                PanelActionView::Nothing
            } else {
                PanelActionView::Redraw
            }),
    {
        if !self.show_commands {
            return PanelAction::Nothing;
        }
        if self.selected_command > 0 {
            self.selected_command -= 1;
            assert(self@ =~= selected_previous(old(self)@));
            PanelAction::Redraw
        } else {
            PanelAction::Nothing
        }
    }

    /// Puts a command in place of the text being typed.
    pub fn choose_command(&mut self, name: &str) -> (r: PanelAction)
        requires
            old(self)@.wf(),
        ensures
            final(self)@ == with_command(old(self)@, name@),
            final(self)@.wf(),
            r@ == PanelActionView::Redraw,
    {
        proof {
            reveal_strlit(" ");
        }
        self.input_buffer = name.to_owned();
        self.input_buffer.append(" ");
        self.show_commands = false;
        assert(self@.input == name@.push(' '));
        assert(self@ =~= with_command(old(self)@, name@));
        PanelAction::Redraw
    }

    /// Takes back the last character of the text being typed.
    fn erase(&mut self)
        requires
            old(self)@.wf(),
        ensures
            final(self)@ == erased(old(self)@),
            final(self)@.wf(),
    {
        let n = self.input_buffer.as_str().unicode_len();
        if n > 0 {
            self.input_buffer = self.input_buffer.as_str().substring_char(0, n - 1).to_owned();
            assert(self.input_buffer@ == old(self).input_buffer@.drop_last());
        }
        proof {
            reveal_strlit("/");
            assert("/"@.is_prefix_of(self.input_buffer@) <==> self.input_buffer@.len() > 0
                && self.input_buffer@[0] == '/') by {
                if self.input_buffer@.len() > 0 && self.input_buffer@[0] == '/' {
                    assert("/"@ == self.input_buffer@.subrange(0, 1));
                }
                if "/"@.is_prefix_of(self.input_buffer@) {
                    assert(self.input_buffer@.subrange(0, 1)[0] == '/');
                }
            }
        }
        if starts_with(self.input_buffer.as_str(), "/") {
            self.refilter();
        } else {
            self.show_commands = false;
        }
        assert(self@ =~= erased(old(self)@));
    }

    /// Adds a character to the text being typed.
    fn type_text(&mut self, text: &str)
        requires
            old(self)@.wf(),
            ascii(text@),
        ensures
            final(self)@ == typed(old(self)@, text@),
            final(self)@.wf(),
    {
        self.input_buffer.append(text);
        proof {
            reveal_strlit("/");
            assert(ascii("/"@));
            assert(self.show_commands ==> ascii(self.input_buffer@));
        }
        if same_text(self.input_buffer.as_str(), "/") {
            self.show_commands = true;
            self.refilter();
        } else if self.show_commands {
            self.refilter();
        }
        assert(self@ =~= typed(old(self)@, text@));
    }

    /// Moves the question being typed into the conversation, and gives the process that answers it.
    fn ask(&mut self) -> (r: TaskCommand)
        requires
            old(self)@.wf(),
        ensures
            final(self)@ == asked(old(self)@),
            final(self)@.wf(),
            r@ == command_for(
                old(self)@.assistant.program,
                old(self)@.session_id,
                trimmed(old(self)@.input),
            ),
    {
        let text = trim(self.input_buffer.as_str());
        self.input_buffer = String::new();
        self.messages.push(ChatMessage { role: "You".to_owned(), text: text.clone() });
        self.is_loading = true;
        assert(self@.messages =~= asked(old(self)@).messages);
        assert(self@ =~= asked(old(self)@));
        self.spawn_claude_task(text)
    }

    /// The process that answers `text` in this panel's session.
    pub fn spawn_claude_task(&self, text: String) -> (r: TaskCommand)
        ensures
            r@ == command_for(self@.assistant.program, self@.session_id, text@),
    {
        task_command(self.assistant.program.as_str(), &self.session_id, text)
    }

    /// Handles a key.
    pub fn handle_key_down(&mut self, event: &Keystroke) -> (r: PanelAction)
        requires
            old(self)@.wf(),
        ensures
            final(self)@ == after_key(old(self)@, event@),
            r@ == key_action(old(self)@, event@),
            final(self)@.wf(),
            old(self)@.in_sync() ==> final(self)@.in_sync(),
    {
        if self.is_loading || event.control || event.platform {
            return PanelAction::Nothing;
        }
        let key = event.key.as_str();
        if self.show_commands {
            if same_text(key, "enter") {
                if self.selected_command < self.filtered_commands.len() {
                    let index = self.filtered_commands[self.selected_command];
                    self.choose_command(command(index).name);
                }
                return PanelAction::Redraw;
            }
            if same_text(key, "escape") {
                self.show_commands = false;
                assert(self@ =~= after_key(old(self)@, event@));
                return PanelAction::Redraw;
            }
        }
        if same_text(key, "enter") && !self.input_buffer.as_str().is_empty() {
            let text = trim(self.input_buffer.as_str());
            if text.as_str().is_empty() {
                return PanelAction::Nothing;
            }
            let command = self.ask();
            self.show_commands = false;
            assert(self@ =~= after_key(old(self)@, event@));
            return PanelAction::Run(command);
        }
        if same_text(key, "backspace") {
            self.erase();
            return PanelAction::Redraw;
        }
        match &event.key_char {
            Some(text) => {
                proof {
                    lemma_one_byte(text@);
                }
                if text.as_str().as_bytes().len() == 1 {
                    self.type_text(text.as_str());
                    PanelAction::Redraw
                } else {
                    PanelAction::Nothing
                }
            },
            None => PanelAction::Nothing,
        }
    }

    /// Sends the question being typed.
    pub fn send_message(&mut self) -> (r: PanelAction)
        requires
            old(self)@.wf(),
        ensures
            final(self)@ == (if can_send(old(self)@) {
                asked(old(self)@)
            } else {
                old(self)@
            }),
            r@ == (if can_send(old(self)@) {
                PanelActionView::Run(
                    command_for(
                        old(self)@.assistant.program,
                        old(self)@.session_id,
                        trimmed(old(self)@.input),
                    ),
                )
            } else {
                PanelActionView::Nothing
            }),
            final(self)@.wf(),
    {
        let text = trim(self.input_buffer.as_str());
        if text.as_str().is_empty() || self.is_loading {
            return PanelAction::Nothing;
        }
        PanelAction::Run(self.ask())
    }

    /// Whether the tokens of a run can be counted in with those of the session.
    pub fn can_count_in(&self, run: &TaskRun) -> (r: bool)
        ensures
            r == usage_fits(self@.session_usage, run@.usage),
    {
        let session = &self.session_usage;
        run.usage.input_tokens <= u64::MAX - session.input_tokens && run.usage.output_tokens
            <= u64::MAX - session.output_tokens && run.usage.cache_read <= u64::MAX
            - session.cache_read && run.usage.cache_creation <= u64::MAX - session.cache_creation
    }

    /// Takes in a run that is over. `summed_cost` is the cost of the session and that of the run
    /// added up.
    pub fn finish_claude_task(&mut self, run: TaskRun, summed_cost: Cost) -> (r: PanelAction)
        requires
            old(self)@.wf(),
            run@.error is None ==> usage_fits(old(self)@.session_usage, run@.usage),
        ensures
            final(self)@ == answered(old(self)@, run@, summed_cost),
            final(self)@.wf(),
            r@ == PanelActionView::Redraw,
    {
        let ghost ended = answered(old(self)@, run@, summed_cost);
        match run.error {
            Some(error) => {
                self.messages.push(ChatMessage { role: "Error".to_owned(), text: error });
            },
            None => {
                if run.session_id.is_some() {
                    self.session_id = run.session_id;
                }
                let full_text = concat_all(&run.text_parts);
                if !full_text.as_str().is_empty() {
                    let role = self.assistant.name.clone();
                    self.messages.push(ChatMessage { role, text: full_text });
                }
                self.session_usage.total_cost = summed_cost;
                self.session_usage.input_tokens += run.usage.input_tokens;
                self.session_usage.output_tokens += run.usage.output_tokens;
                self.session_usage.cache_read += run.usage.cache_read;
                self.session_usage.cache_creation += run.usage.cache_creation;
                if !run.usage.model.as_str().is_empty() {
                    self.session_usage.model = run.usage.model;
                }
                if run.usage.context_window > 0 {
                    self.session_usage.context_window = run.usage.context_window;
                }
            },
        }
        self.is_loading = false;
        assert(self@.messages =~= ended.messages);
        assert(self@.session_id == ended.session_id);
        assert(self@.session_usage == ended.session_usage);
        PanelAction::Redraw
    }

    /// The messages as they are shown.
    fn bubbles(&self) -> (r: Vec<Bubble>)
        ensures
            r@.map_values(|b: Bubble| b@) == self@.messages.map_values(
                |m: ChatMessageView| bubble_of(self@.assistant.title, m),
            ),
    {
        let mut r: Vec<Bubble> = Vec::new();
        let mut i: usize = 0;
        while i < self.messages.len()
            invariant
                i <= self.messages.len(),
                r@.len() == i,
                forall|k: int| 0 <= k < i ==> (#[trigger] r@[k])@ == bubble_of(
                    self@.assistant.title,
                    self.messages@[k]@,
                ),
            decreases self.messages.len() - i,
        {
            r.push(bubble(self.assistant.title.as_str(), &self.messages[i]));
            i += 1;
        }
        assert(r@.map_values(|b: Bubble| b@) =~= self@.messages.map_values(
            |m: ChatMessageView| bubble_of(self@.assistant.title, m),
        ));
        r
    }

    /// The offered commands as they are shown.
    fn command_rows(&self) -> (r: Vec<CommandRow>)
        requires
            self@.wf(),
        ensures
            r@.map_values(|row: CommandRow| row@) == Seq::new(
                self@.filtered_commands.len(),
                |k: int| row_of(self@, k),
            ),
    {
        let mut r: Vec<CommandRow> = Vec::new();
        let mut i: usize = 0;
        while i < self.filtered_commands.len()
            invariant
                i <= self.filtered_commands.len(),
                self@.wf(),
                r@.len() == i,
                forall|k: int| 0 <= k < i ==> (#[trigger] r@[k])@ == row_of(self@, k),
            decreases self.filtered_commands.len() - i,
        {
            assert(self@.filtered_commands[i as int] < COMMAND_COUNT);
            let offered = command(self.filtered_commands[i]);
            r.push(
                CommandRow {
                    name: offered.name,
                    description: offered.description,
                    selected: i == self.selected_command,
                },
            );
            i += 1;
        }
        assert(r@.map_values(|row: CommandRow| row@) =~= Seq::new(
            self@.filtered_commands.len(),
            |k: int| row_of(self@, k),
        ));
        r
    }

    /// What the panel shows, with or without the focus.
    pub fn render(&self, focused: bool) -> (r: ChatDisplay)
        requires
            self@.wf(),
        ensures
            r@ == display_of(self@, focused),
    {
        let empty = self.input_buffer.as_str().is_empty();
        ChatDisplay {
            bubbles: if self.messages.len() == 0 && !self.is_loading {
                None
            } else {
                Some(self.bubbles())
            },
            thinking: self.is_loading && self.messages.len() > 0,
            commands: if self.show_commands {
                Some(self.command_rows())
            } else {
                None
            },
            input: if empty {
                None
            } else {
                Some(self.input_buffer.clone())
            },
            footer: if focused {
                Background::TitleBar
            } else {
                Background::Panel
            },
            input_border: if focused {
                Border::Normal
            } else {
                Border::Variant
            },
            caret: if !focused {
                None
            } else if empty {
                Some(Caret::Faint)
            } else {
                Some(Caret::Full)
            },
            send_disabled: trim(self.input_buffer.as_str()).as_str().is_empty() || self.is_loading,
        }
    }

    /// Who the panel talks to.
    pub fn assistant(&self) -> (r: &Assistant)
        ensures
            r@ == self@.assistant,
    {
        &self.assistant
    }

    /// What the session has used.
    pub fn session_usage(&self) -> (r: &ClaudeUsage)
        ensures
            r@ == self@.session_usage,
    {
        &self.session_usage
    }
}

/// The panel is read as it is held, part by part.
proof fn law_panel_is_read_as_held(panel: ClaudeCodePanel)
    ensures
        panel@.assistant == panel.assistant@,
        panel@.messages.len() == panel.messages@.len(),
        forall|i: int|
            0 <= i < panel.messages@.len() ==> #[trigger] panel@.messages[i]
                == panel.messages@[i]@,
        panel@.input == panel.input_buffer@,
        panel@.is_loading == panel.is_loading,
        panel@.session_id is Some <==> panel.session_id is Some,
        panel.session_id is Some ==> panel@.session_id->0 == panel.session_id->0@,
        panel@.show_commands == panel.show_commands,
        panel@.filtered_commands == panel.filtered_commands@,
        panel@.selected_command == panel.selected_command,
        panel@.session_usage == panel.session_usage@,
{
}

} // verus!
