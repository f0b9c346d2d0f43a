//! What holds of the chat panel whatever is done to it.

use crate::claude_code_panel::after_key;
use crate::claude_code_panel::answered;
use crate::claude_code_panel::asked;
use crate::claude_code_panel::can_send;
use crate::claude_code_panel::fresh_panel;
use crate::claude_code_panel::key_action;
use crate::claude_code_panel::key_meaning;
use crate::claude_code_panel::known_paths;
use crate::claude_code_panel::picked;
use crate::claude_code_panel::selected_next;
use crate::claude_code_panel::selected_previous;
use crate::claude_code_panel::usage_fits;
use crate::claude_code_panel::usage_with;
use crate::claude_code_panel::with_command;
use crate::claude_code_panel::with_path;
use crate::claude_code_panel::with_paths;
use crate::claude_code_panel::ChatMessage;
use crate::claude_code_panel::ChatMessageView;
use crate::claude_code_panel::ClaudeCodePanelView;
use crate::claude_code_panel::Keystroke;
use crate::claude_code_panel::KeystrokeView;
use crate::claude_code_panel::PanelAction;
use crate::claude_code_panel::PanelActionView;
use crate::commands::command_names;
use crate::commands::command_indices;
use crate::commands::law_matched_prefix_is_ascii;
use crate::commands::law_matches_are_commands_in_order;
use crate::commands::law_matches_are_those_with_prefix;
use crate::commands::law_matches_narrow;
use crate::commands::law_slash_matches_all;
use crate::commands::lemma_names;
use crate::commands::matching_commands;
use crate::stream::no_usage;
use crate::stream::ClaudeUsageView;
use crate::stream::Cost;
use crate::task::command_for;
use crate::task::task_args;
use crate::task::AssistantView;
use crate::task::TaskRunView;
use crate::text::ascii;
use crate::text::law_lowered_beginning;
use crate::text::law_trimmed;
use crate::text::law_trimming_keeps_the_rest;
use crate::text::lemma_trimmed_ends;
use crate::text::lowered;
use crate::text::optional_text;
use crate::text::trimmed;
use crate::text::whitespace;
use vstd::prelude::*;

verus! {

/// Every operation keeps the offered commands among those that exist, and the selection among them.
pub proof fn law_wf_is_kept(
    p: ClaudeCodePanelView,
    k: KeystrokeView,
    paths: Seq<Seq<char>>,
    name: Seq<char>,
    run: TaskRunView,
    cost: Cost,
)
    requires
        p.wf(),
    ensures
        after_key(p, k).wf(),
        asked(p).wf(),
        selected_next(p).wf(),
        selected_previous(p).wf(),
        with_paths(p, paths).wf(),
        with_command(p, name).wf(),
        answered(p, run, cost).wf(),
    decreases paths.len(),
{
    law_matches_are_commands_in_order(lowered(after_key(p, k).input));
    lemma_shown_input_is_ascii(p, k);
    if paths.len() > 0 {
        law_wf_is_kept(p, k, paths.drop_last(), name, run, cost);
    }
}

/// The list of commands on show follows the text being typed through keys, moves of the selection,
/// drops, picked commands and answers, and through a question that is sent while no list is on show.
pub proof fn law_list_follows_input(
    p: ClaudeCodePanelView,
    k: KeystrokeView,
    paths: Seq<Seq<char>>,
    name: Seq<char>,
    run: TaskRunView,
    cost: Cost,
)
    requires
        p.in_sync(),
    ensures
        after_key(p, k).in_sync(),
        selected_next(p).in_sync(),
        selected_previous(p).in_sync(),
        with_paths(p, paths).in_sync(),
        with_command(p, name).in_sync(),
        answered(p, run, cost).in_sync(),
        !p.show_commands ==> asked(p).in_sync(),
{
}

/// Whatever happened before, a key that erases or types leaves a list on show that follows the text.
pub proof fn law_editing_brings_list_in_line(p: ClaudeCodePanelView, k: KeystrokeView)
    requires
        key_meaning(p, k) is Erase || key_meaning(p, k) is Type,
    ensures
        after_key(p, k).in_sync(),
{
}

/// A key keeps the text ASCII while the list of commands is on show.
proof fn lemma_shown_input_is_ascii(p: ClaudeCodePanelView, k: KeystrokeView)
    requires
        p.show_commands ==> ascii(p.input),
    ensures
        after_key(p, k).show_commands ==> ascii(after_key(p, k).input),
{
    reveal_strlit("/");
    assert(ascii("/"@));
}

/// Typing more never brings a command back: of two texts, one of which begins with the other, the
/// longer picks no command that the shorter does not. It is so of ASCII text, of text whose lower
/// case is not ASCII, since that picks no command at all, and wherever lower case keeps beginnings.
pub proof fn law_longer_text_narrows(input: Seq<char>, longer: Seq<char>)
    requires
        input.is_prefix_of(longer),
        ascii(longer) || !ascii(lowered(longer)) || lowered(input).is_prefix_of(lowered(longer)),
    ensures
        forall|index: usize| #[trigger]
            matching_commands(lowered(longer)).contains(index) ==> matching_commands(
                lowered(input),
            ).contains(index),
{
    let short = lowered(input);
    let long = lowered(longer);
    assert forall|index: usize| #[trigger]
        matching_commands(long).contains(index) implies matching_commands(short).contains(index) by {
        law_matched_prefix_is_ascii(long);
        law_matches_are_commands_in_order(long);
        if ascii(longer) {
            law_lowered_beginning(input, longer);
        }
        assert(long == short + long.skip(short.len() as int)) by {
            assert(short == long.subrange(0, short.len() as int));
        }
        law_matches_narrow(short, long.skip(short.len() as int), index);
    }
}

/// Of any two panels with their lists on show, where the text of one begins with that of the other,
/// the list of the former is part of the list of the latter. No list on show is of text that is not
/// ASCII, so nothing is left out.
pub proof fn law_shown_lists_narrow(p: ClaudeCodePanelView, q: ClaudeCodePanelView, index: usize)
    requires
        p.wf(),
        q.wf(),
        p.in_sync(),
        q.in_sync(),
        p.show_commands,
        q.show_commands,
        p.input.is_prefix_of(q.input),
        q.filtered_commands.contains(index),
    ensures
        p.filtered_commands.contains(index),
{
    law_longer_text_narrows(p.input, q.input);
}

/// Typing into a list on show takes commands away, and brings none back.
pub proof fn law_typing_narrows_the_list(p: ClaudeCodePanelView, k: KeystrokeView, index: usize)
    requires
        p.wf(),
        p.in_sync(),
        p.show_commands,
        key_meaning(p, k) is Type,
        after_key(p, k).filtered_commands.contains(index),
    ensures
        after_key(p, k).show_commands,
        p.filtered_commands.contains(index),
{
    let q = after_key(p, k);
    law_matches_are_commands_in_order(lowered(q.input));
    lemma_shown_input_is_ascii(p, k);
    assert(p.input == q.input.subrange(0, p.input.len() as int));
    law_shown_lists_narrow(p, q, index);
}

/// A slash typed on its own brings up the list of all commands, and so does taking back what followed
/// it while the list is up.
pub proof fn law_slash_offers_all(p: ClaudeCodePanelView, k: KeystrokeView)
    requires
        key_meaning(p, k) is Type || (key_meaning(p, k) is Erase && p.show_commands),
        after_key(p, k).input == "/"@,
    ensures
        after_key(p, k).show_commands,
        after_key(p, k).filtered_commands == command_indices(),
{
    reveal_strlit("/");
    assert(ascii("/"@));
    assert(lowered("/"@) == "/"@);
    law_slash_matches_all();
}

/// While an answer is awaited, keys do nothing and nothing is sent; a question that is asked is
/// then awaited. So no two questions are under way at once.
pub proof fn law_one_question_at_a_time(p: ClaudeCodePanelView, k: KeystrokeView)
    ensures
        p.is_loading ==> after_key(p, k) == p && key_action(p, k) is Nothing && !can_send(p),
        key_action(p, k) is Run ==> !p.is_loading && after_key(p, k).is_loading,
        key_action(p, k) !is Run ==> after_key(p, k).is_loading == p.is_loading,
        can_send(p) ==> !p.is_loading && asked(p).is_loading,
{
}

/// Enter, outside the list of commands, asks exactly what the send button would send.
pub proof fn law_enter_sends(p: ClaudeCodePanelView, k: KeystrokeView)
    requires
        !p.show_commands,
        k.key == "enter"@,
        !k.control,
        !k.platform,
        p.input.len() > 0,
    ensures
        key_action(p, k) is Run <==> can_send(p),
        can_send(p) ==> after_key(p, k) == asked(p),
{
}

/// A question that is asked is not empty and carries no whitespace at its ends, and the
/// conversation shows it as it was asked.
pub proof fn law_question_is_trimmed(p: ClaudeCodePanelView, k: KeystrokeView)
    requires
        key_action(p, k) is Run,
    ensures
        ({
            let question = key_action(p, k)->Run_0.input_line;
            &&& question.len() > 0
            &&& !whitespace(question.first())
            &&& !whitespace(question.last())
            &&& after_key(p, k).messages == p.messages.push(
                ChatMessageView { role: "You"@, text: question },
            )
        }),
{
    law_trimmed(p.input);
}

/// The conversation only grows.
pub proof fn law_conversation_only_grows(
    p: ClaudeCodePanelView,
    k: KeystrokeView,
    run: TaskRunView,
    cost: Cost,
)
    ensures
        p.messages.is_prefix_of(after_key(p, k).messages),
        p.messages.is_prefix_of(asked(p).messages),
        p.messages.is_prefix_of(answered(p, run, cost).messages),
{
    assert(after_key(p, k).messages.subrange(0, p.messages.len() as int) == p.messages);
    assert(asked(p).messages.subrange(0, p.messages.len() as int) == p.messages);
    assert(answered(p, run, cost).messages.subrange(0, p.messages.len() as int) == p.messages);
}

/// Backspace takes back a typed character and leaves everything else as it was: the list of commands
/// too, if it was on show of text that starts with a slash or was not on show.
pub proof fn law_backspace_undoes_typing(
    p: ClaudeCodePanelView,
    k: KeystrokeView,
    backspace: KeystrokeView,
)
    requires
        key_meaning(p, k) is Type,
        backspace.key == "backspace"@,
        !backspace.control,
        !backspace.platform,
    ensures
        ({
            let back = after_key(after_key(p, k), backspace);
            let of_command = p.show_commands && p.input.len() > 0 && p.input[0] == '/';
            &&& back.assistant == p.assistant
            &&& back.messages == p.messages
            &&& back.input == p.input
            &&& back.is_loading == p.is_loading
            &&& back.session_id == p.session_id
            &&& back.session_usage == p.session_usage
            &&& back.show_commands == of_command
            &&& of_command && p.in_sync() ==> back.filtered_commands == p.filtered_commands
        }),
{
    lemma_keys_differ();
    let text = key_meaning(p, k)->Type_0;
    let q = after_key(p, k);
    assert(q.input == p.input + text);
    assert(q.input.drop_last() == p.input);
    reveal_strlit("/");
    assert(p.input + text == "/"@ ==> p.input.len() == 0);
}

/// Moving the selection back takes back a move forward.
pub proof fn law_previous_undoes_next(p: ClaudeCodePanelView)
    requires
        p.wf(),
        selected_next(p) != p,
    ensures
        selected_previous(selected_next(p)) == p,
{
}

/// A command picked from the list and then asked is asked by its name.
pub proof fn law_picked_command_is_asked_by_name(
    p: ClaudeCodePanelView,
    enter: KeystrokeView,
)
    requires
        p.wf(),
        !p.is_loading,
        p.show_commands,
        p.filtered_commands.len() > 0,
        enter.key == "enter"@,
        !enter.control,
        !enter.platform,
    ensures
        key_action(after_key(p, enter), enter) == PanelActionView::Run(
            command_for(
                p.assistant.program,
                p.session_id,
                command_names()[p.filtered_commands[p.selected_command as int] as int],
            ),
        ),
{
    let index = p.filtered_commands[p.selected_command as int] as int;
    let name = command_names()[index];
    lemma_names();
    let q = picked(p);
    assert(q.input == name.push(' '));
    assert(!whitespace(q.input.first()));
    assert(q.input.drop_last() == name);
    assert(trimmed(q.input) == trimmed(name));
}

/// A question and its answer: the conversation gets the question and, if anything was said, the
/// answer behind it, and the panel awaits nothing any more.
pub proof fn law_question_and_answer(p: ClaudeCodePanelView, run: TaskRunView, cost: Cost)
    requires
        run.error is None,
    ensures
        ({
            let q = answered(asked(p), run, cost);
            let question = ChatMessageView { role: "You"@, text: trimmed(p.input) };
            let answer = ChatMessageView { role: p.assistant.name, text: run.text_parts.flatten() };
            &&& !q.is_loading
            &&& q.input.len() == 0
            &&& q.messages == p.messages + (if run.text_parts.flatten().len() > 0 {
                seq![question, answer]
            } else {
                seq![question]
            })
        }),
{
}

/// A run that failed leaves its error in the conversation and, but for the wait that ends, nothing
/// else: neither its session nor its usage counts.
pub proof fn law_failed_run_leaves_only_its_error(
    p: ClaudeCodePanelView,
    run: TaskRunView,
    cost: Cost,
)
    requires
        run.error is Some,
    ensures
        answered(p, run, cost) == (ClaudeCodePanelView {
            messages: p.messages.push(ChatMessageView { role: "Error"@, text: run.error->0 }),
            is_loading: false,
            ..p
        }),
{
}

/// Once a run has brought a session, later questions go on with it; and a session is never lost.
pub proof fn law_session_is_resumed(p: ClaudeCodePanelView, run: TaskRunView, cost: Cost)
    ensures
        p.session_id is Some ==> answered(p, run, cost).session_id is Some,
        run.error is None && run.session_id is Some ==> task_args(
            answered(p, run, cost).session_id,
        ) == task_args(None) + seq!["--resume"@, run.session_id->0],
{
}

/// The tokens of a session are those of its runs added up, in whatever order the runs ended.
pub proof fn law_tokens_add_up(
    session: ClaudeUsageView,
    first: ClaudeUsageView,
    second: ClaudeUsageView,
    a: Cost,
    b: Cost,
    c: Cost,
    d: Cost,
)
    requires
        usage_fits(session, first),
        usage_fits(usage_with(session, first, a), second),
    ensures
        usage_fits(session, second),
        usage_fits(usage_with(session, second, c), first),
        ({
            let one = usage_with(usage_with(session, first, a), second, b);
            let other = usage_with(usage_with(session, second, c), first, d);
            &&& one.input_tokens == session.input_tokens + first.input_tokens + second.input_tokens
            &&& one.input_tokens == other.input_tokens
            &&& one.output_tokens == session.output_tokens + first.output_tokens
                + second.output_tokens
            &&& one.output_tokens == other.output_tokens
            &&& one.cache_read == session.cache_read + first.cache_read + second.cache_read
            &&& one.cache_read == other.cache_read
            &&& one.cache_creation == session.cache_creation + first.cache_creation
                + second.cache_creation
            &&& one.cache_creation == other.cache_creation
        }),
{
}

/// Texts with a space between each two.
pub open spec fn spaced(parts: Seq<Seq<char>>) -> Seq<char>
    decreases parts.len(),
{
    if parts.len() == 0 {
        Seq::empty()
    } else if parts.len() == 1 {
        parts[0]
    } else {
        spaced(parts.drop_last()).push(' ') + parts.last()
    }
}

/// Paths dropped on a panel in which nothing is typed stand there with a space between each two.
pub proof fn law_dropped_paths_are_spaced(p: ClaudeCodePanelView, paths: Seq<Seq<char>>)
    requires
        p.input.len() == 0,
        forall|i: int|
            0 <= i < paths.len() ==> (#[trigger] paths[i]).len() > 0 && paths[i].last() != ' ',
    ensures
        with_paths(p, paths).input == spaced(paths),
        paths.len() > 0 ==> spaced(paths).len() > 0 && spaced(paths).last() != ' ',
    decreases paths.len(),
{
    if paths.len() > 0 {
        let earlier = paths.drop_last();
        assert forall|i: int| 0 <= i < earlier.len() implies (#[trigger] earlier[i]).len() > 0
            && earlier[i].last() != ' ' by {
            assert(earlier[i] == paths[i]);
        }
        law_dropped_paths_are_spaced(p, earlier);
        assert(paths.last() == paths[paths.len() - 1]);
        if paths.len() == 1 {
            assert(with_paths(p, paths).input == paths[0]);
        } else {
            assert(with_paths(p, paths).input == spaced(earlier).push(' ') + paths.last());
        }
    }
}

/// A path keeps what has been typed in front of it, and stands at its end.
pub proof fn law_dropped_path_keeps_input(p: ClaudeCodePanelView, path: Seq<char>)
    ensures
        p.input.is_prefix_of(with_path(p, path).input),
        path.is_suffix_of(with_path(p, path).input),
{
    let input = with_path(p, path).input;
    assert(input.subrange(0, p.input.len() as int) == p.input);
    assert(input.subrange(input.len() - path.len(), input.len() as int) == path);
}

/// A key that types one ASCII character puts it behind the text. The list of commands comes up with
/// a slash on its own and stays up while it is up; it is then made anew, from its first command on.
/// Nothing else changes. Enter does not type while it picks or asks, nor escape while it leaves.
pub proof fn law_typed_character_is_added(p: ClaudeCodePanelView, k: KeystrokeView, c: char)
    requires
        !p.is_loading,
        !k.control,
        !k.platform,
        k.key != "backspace"@,
        p.show_commands ==> k.key != "enter"@ && k.key != "escape"@,
        p.input.len() > 0 ==> k.key != "enter"@,
        k.key_char == Some(seq![c]),
        (c as u32) < 128,
    ensures
        ({
            let q = after_key(p, k);
            &&& q.input == p.input.push(c)
            &&& q.show_commands == (p.show_commands || (p.input.len() == 0 && c == '/'))
            &&& q.show_commands ==> q.selected_command == 0
            &&& !q.show_commands ==> q.filtered_commands == p.filtered_commands
                && q.selected_command == p.selected_command
            &&& q.messages == p.messages
            &&& q.assistant == p.assistant
            &&& q.is_loading == p.is_loading
            &&& q.session_id == p.session_id
            &&& q.session_usage == p.session_usage
            &&& key_action(p, k) is Redraw
        }),
{
    reveal_strlit("/");
    let text = seq![c];
    assert(ascii(text));
    assert(p.input + text == p.input.push(c));
    assert(p.input + text == "/"@ <==> p.input.len() == 0 && c == '/') by {
        assert((p.input + text).len() == p.input.len() + 1);
        assert((p.input + text)[p.input.len() as int] == c);
        if p.input.len() == 0 && c == '/' {
            assert(p.input + text == "/"@);
        }
    }
}

/// Backspace takes the last character of the text away, if there is one. The list of commands stays
/// up only where it was up and the text still starts with a slash; of such text it is made anew, from
/// its first command on. Nothing else changes.
pub proof fn law_backspace_takes_the_last_character(p: ClaudeCodePanelView, k: KeystrokeView)
    requires
        !p.is_loading,
        !k.control,
        !k.platform,
        k.key == "backspace"@,
    ensures
        ({
            let q = after_key(p, k);
            let of_command = q.input.len() > 0 && q.input[0] == '/';
            &&& p.input.len() > 0 ==> q.input.push(p.input.last()) == p.input
            &&& p.input.len() == 0 ==> q.input.len() == 0
            &&& q.show_commands == (p.show_commands && of_command)
            &&& of_command ==> q.selected_command == 0
            &&& !of_command ==> q.filtered_commands == p.filtered_commands && q.selected_command
                == p.selected_command
            &&& q.messages == p.messages
            &&& q.assistant == p.assistant
            &&& q.is_loading == p.is_loading
            &&& q.session_id == p.session_id
            &&& q.session_usage == p.session_usage
            &&& key_action(p, k) is Redraw
        }),
{
    lemma_keys_differ();
}

/// Whenever a key that erases or types leaves the list of commands on show, its first row is the
/// selected one.
pub proof fn law_editing_selects_the_first_row(p: ClaudeCodePanelView, k: KeystrokeView)
    requires
        after_key(p, k).input != p.input || k.key == "backspace"@,
        !p.is_loading && !k.control && !k.platform,
        after_key(p, k).show_commands,
    ensures
        after_key(p, k).selected_command == 0,
{
    lemma_keys_differ();
}

/// A list that editing leaves on show, or that backspace makes anew, holds the commands whose names
/// the text begins, in whatever case it is typed, each once and in their order.
pub proof fn law_edited_list_holds_what_matches(
    p: ClaudeCodePanelView,
    k: KeystrokeView,
    index: usize,
)
    requires
        !p.is_loading,
        !k.control,
        !k.platform,
        after_key(p, k).input != p.input || k.key == "backspace"@,
        after_key(p, k).show_commands || (k.key == "backspace"@ && after_key(p, k).input.len() > 0
            && after_key(p, k).input[0] == '/'),
        index < 16,
    ensures
        ({
            let q = after_key(p, k);
            let prefix = lowered(q.input);
            &&& q.filtered_commands.contains(index) <==> (prefix.len() <= command_names()[
                index as int
            ].len() && forall|i: int|
                0 <= i < prefix.len() ==> #[trigger] prefix[i] == command_names()[index as int][i])
            &&& forall|j: int|
                0 <= j < q.filtered_commands.len() ==> #[trigger] q.filtered_commands[j] < 16
            &&& forall|j: int, l: int|
                0 <= j < l < q.filtered_commands.len() ==> #[trigger] q.filtered_commands[j]
                    < #[trigger] q.filtered_commands[l]
        }),
{
    lemma_keys_differ();
    let prefix = lowered(after_key(p, k).input);
    let name = command_names()[index as int];
    law_matches_are_commands_in_order(prefix);
    law_matches_are_those_with_prefix(prefix, index);
    if prefix.is_prefix_of(name) {
        assert forall|i: int| 0 <= i < prefix.len() implies #[trigger] prefix[i] == name[i] by {
            assert(prefix[i] == name.subrange(0, prefix.len() as int)[i]);
        }
    }
    if prefix.len() <= name.len() && forall|i: int|
        0 <= i < prefix.len() ==> #[trigger] prefix[i] == name[i] {
        assert(prefix == name.subrange(0, prefix.len() as int));
    }
}

/// Enter in the list puts the selected command in place of the text, with a space behind it, and
/// closes the list; where no command is offered it does nothing. Nothing else changes.
pub proof fn law_enter_picks_the_selected_command(p: ClaudeCodePanelView, k: KeystrokeView)
    requires
        !p.is_loading,
        !k.control,
        !k.platform,
        p.show_commands,
        k.key == "enter"@,
    ensures
        key_action(p, k) is Redraw,
        p.selected_command < p.filtered_commands.len() ==> after_key(p, k) == (
        ClaudeCodePanelView {
            input: command_names()[p.filtered_commands[p.selected_command as int] as int] + seq![
                ' ',
            ],
            show_commands: false,
            ..p
        }),
        p.selected_command >= p.filtered_commands.len() ==> after_key(p, k) == p,
{
}

/// Escape closes the list, and changes nothing else.
pub proof fn law_escape_closes_the_list(p: ClaudeCodePanelView, k: KeystrokeView)
    requires
        !p.is_loading,
        !k.control,
        !k.platform,
        p.show_commands,
        k.key == "escape"@,
    ensures
        key_action(p, k) is Redraw,
        after_key(p, k) == (ClaudeCodePanelView { show_commands: false, ..p }),
{
    lemma_keys_differ();
}

/// Enter, outside the list, asks what has been typed, without the whitespace around it and otherwise
/// as it is, however long: the question goes to the process and into the conversation, the text is
/// cleared, and the answer is awaited. Nothing else changes.
pub proof fn law_enter_asks_what_was_typed(
    p: ClaudeCodePanelView,
    k: KeystrokeView,
    before: Seq<char>,
    question: Seq<char>,
    after: Seq<char>,
)
    requires
        !p.is_loading,
        !k.control,
        !k.platform,
        !p.show_commands,
        k.key == "enter"@,
        p.input == before + question + after,
        forall|i: int| 0 <= i < before.len() ==> whitespace(#[trigger] before[i]),
        forall|i: int| 0 <= i < after.len() ==> whitespace(#[trigger] after[i]),
        question.len() > 0,
        !whitespace(question.first()),
        !whitespace(question.last()),
    ensures
        after_key(p, k) == (ClaudeCodePanelView {
            messages: p.messages.push(ChatMessageView { role: "You"@, text: question }),
            input: Seq::empty(),
            is_loading: true,
            ..p
        }),
        ({
            let command = key_action(p, k)->Run_0;
            &&& key_action(p, k) is Run
            &&& command.program == p.assistant.program
            &&& command.input_line == question
            &&& p.session_id is Some ==> command.args == seq![
                "-p"@,
                "--verbose"@,
                "--output-format"@,
                "stream-json"@,
                "--resume"@,
                p.session_id->0,
            ]
            &&& p.session_id is None ==> command.args == seq![
                "-p"@,
                "--verbose"@,
                "--output-format"@,
                "stream-json"@,
            ]
        }),
{
    law_trimming_keeps_the_rest(before, question, after);
}

/// Where nothing but whitespace has been typed, enter outside the list does nothing.
pub proof fn law_enter_asks_no_whitespace(p: ClaudeCodePanelView, k: KeystrokeView)
    requires
        !p.show_commands,
        k.key == "enter"@,
        p.input.len() > 0,
        forall|i: int| 0 <= i < p.input.len() ==> whitespace(#[trigger] p.input[i]),
    ensures
        after_key(p, k) == p,
        key_action(p, k) is Nothing,
{
    let nothing = Seq::<char>::empty();
    law_trimming_keeps_the_rest(p.input, nothing, nothing);
    assert(p.input + nothing + nothing == p.input);
}

/// A key does nothing while an answer is awaited or a command key is held, and neither does one that
/// does not type exactly one ASCII character, unless it is backspace, or enter or escape where the
/// list is on show, or enter where there is text.
pub proof fn law_other_keys_do_nothing(p: ClaudeCodePanelView, k: KeystrokeView)
    requires
        p.is_loading || k.control || k.platform || (k.key != "backspace"@ && (p.show_commands
            ==> k.key != "enter"@ && k.key != "escape"@) && (p.input.len() > 0 ==> k.key
            != "enter"@) && (match k.key_char {
            Some(text) => text.len() != 1 || text[0] as u32 >= 128,
            None => true,
        })),
    ensures
        after_key(p, k) == p,
        key_action(p, k) is Nothing,
{
}

/// A question can be sent exactly when no answer is awaited and the text holds something that is not
/// whitespace.
pub proof fn law_something_typed_can_be_sent(p: ClaudeCodePanelView)
    ensures
        can_send(p) <==> !p.is_loading && exists|i: int|
            0 <= i < p.input.len() && !whitespace(#[trigger] p.input[i]),
{
    let (from, to) = lemma_trimmed_ends(p.input);
    assert(trimmed(p.input).len() == to - from);
}

/// A question that is sent goes into the conversation without the whitespace around it and otherwise
/// as it is, however long; the text is cleared, the answer is awaited, and nothing else changes.
pub proof fn law_sent_question_is_kept_whole(
    p: ClaudeCodePanelView,
    before: Seq<char>,
    question: Seq<char>,
    after: Seq<char>,
)
    requires
        p.input == before + question + after,
        forall|i: int| 0 <= i < before.len() ==> whitespace(#[trigger] before[i]),
        forall|i: int| 0 <= i < after.len() ==> whitespace(#[trigger] after[i]),
        question.len() > 0 ==> !whitespace(question.first()) && !whitespace(question.last()),
    ensures
        trimmed(p.input) == question,
        asked(p) == (ClaudeCodePanelView {
            messages: p.messages.push(ChatMessageView { role: "You"@, text: question }),
            input: Seq::empty(),
            is_loading: true,
            ..p
        }),
{
    law_trimming_keeps_the_rest(before, question, after);
}

/// The selection moves by one row at a time, only while the list is on show and only within it, and
/// nothing else changes.
pub proof fn law_selection_moves_by_one(p: ClaudeCodePanelView)
    requires
        p.filtered_commands.len() <= 16,
    ensures
        ({
            let q = selected_next(p);
            let moves = p.show_commands && p.selected_command + 1 < p.filtered_commands.len();
            &&& q.selected_command == p.selected_command + (if moves {
                1int
            } else {
                0
            })
            &&& q == (ClaudeCodePanelView { selected_command: q.selected_command, ..p })
        }),
        ({
            let q = selected_previous(p);
            let moves = p.show_commands && p.selected_command > 0;
            &&& q.selected_command == p.selected_command - (if moves {
                1int
            } else {
                0
            })
            &&& q == (ClaudeCodePanelView { selected_command: q.selected_command, ..p })
        }),
{
}

/// A command that is put in place of the text has a space behind it; the list is closed, and nothing
/// else changes.
pub proof fn law_command_replaces_text(p: ClaudeCodePanelView, name: Seq<char>)
    ensures
        with_command(p, name) == (ClaudeCodePanelView {
            input: name + seq![' '],
            show_commands: false,
            ..p
        }),
{
}

/// A path that is dropped stands behind the text, parted from it by one space unless there is no text
/// or it ends in a space; the list is closed, and nothing else changes.
pub proof fn law_dropped_path_is_parted(p: ClaudeCodePanelView, path: Seq<char>)
    ensures
        ({
            let q = with_path(p, path);
            &&& p.input.len() == 0 ==> q.input == path
            &&& p.input.len() > 0 && p.input.last() == ' ' ==> q.input == p.input + path
            &&& p.input.len() > 0 && p.input.last() != ' ' ==> q.input == p.input + seq![' ']
                + path
            &&& q == (ClaudeCodePanelView { input: q.input, show_commands: false, ..p })
        }),
{
}

/// Paths are dropped one after the other: no paths change nothing, and one more goes behind the rest.
pub proof fn law_paths_are_dropped_in_turn(
    p: ClaudeCodePanelView,
    paths: Seq<Seq<char>>,
    path: Seq<char>,
)
    ensures
        with_paths(p, Seq::empty()) == p,
        with_paths(p, paths.push(path)) == with_path(with_paths(p, paths), path),
{
    assert(paths.push(path).drop_last() == paths);
}

/// Of the entries that are dropped, each that has a path counts with it, in order, and no other does.
pub proof fn law_entries_with_paths_count(paths: Seq<Option<String>>, path: String)
    ensures
        known_paths(Seq::empty()).len() == 0,
        known_paths(paths.push(Some(path))) == known_paths(paths).push(path@),
        known_paths(paths.push(None)) == known_paths(paths),
{
    let known = |path: Option<String>| optional_text(path);
    let with = paths.push(Some(path));
    let without = paths.push(None);
    with.lemma_filter_map_take_succ(known, paths.len() as int);
    without.lemma_filter_map_take_succ(known, paths.len() as int);
    assert(with.take(paths.len() as int) == paths);
    assert(with.take(paths.len() as int + 1) == with);
    assert(without.take(paths.len() as int) == paths);
    assert(without.take(paths.len() as int + 1) == without);
    assert(known_paths(with) == known_paths(paths) + seq![path@]);
}

/// A run that did not fail leaves all that it said as one message under the assistant's name, if it
/// said anything; its session, if it has one, is the panel's; its tokens are added to the session's,
/// kind by kind; and its model and context window, if it knows them, are the session's. The wait ends,
/// and the text, the list of commands and the assistant are left as they are.
pub proof fn law_answer_counts(p: ClaudeCodePanelView, run: TaskRunView, cost: Cost)
    requires
        run.error is None,
        p.session_usage.input_tokens + run.usage.input_tokens <= 0xffff_ffff_ffff_ffff,
        p.session_usage.output_tokens + run.usage.output_tokens <= 0xffff_ffff_ffff_ffff,
        p.session_usage.cache_read + run.usage.cache_read <= 0xffff_ffff_ffff_ffff,
        p.session_usage.cache_creation + run.usage.cache_creation <= 0xffff_ffff_ffff_ffff,
    ensures
        ({
            let q = answered(p, run, cost);
            let said = run.text_parts.flatten();
            let used = q.session_usage;
            &&& !q.is_loading
            &&& said.len() > 0 ==> q.messages == p.messages.push(
                ChatMessageView { role: p.assistant.name, text: said },
            )
            &&& said.len() == 0 ==> q.messages == p.messages
            &&& run.session_id is Some ==> q.session_id == run.session_id
            &&& run.session_id is None ==> q.session_id == p.session_id
            &&& used.total_cost == cost
            &&& used.input_tokens == p.session_usage.input_tokens + run.usage.input_tokens
            &&& used.output_tokens == p.session_usage.output_tokens + run.usage.output_tokens
            &&& used.cache_read == p.session_usage.cache_read + run.usage.cache_read
            &&& used.cache_creation == p.session_usage.cache_creation + run.usage.cache_creation
            &&& run.usage.model.len() > 0 ==> used.model == run.usage.model
            &&& run.usage.model.len() == 0 ==> used.model == p.session_usage.model
            &&& run.usage.context_window > 0 ==> used.context_window == run.usage.context_window
            &&& run.usage.context_window == 0 ==> used.context_window
                == p.session_usage.context_window
            &&& q.assistant == p.assistant
            &&& q.input == p.input
            &&& q.show_commands == p.show_commands
            &&& q.filtered_commands == p.filtered_commands
            &&& q.selected_command == p.selected_command
        }),
{
}

/// Tokens can be counted in exactly when no kind of them goes over what 64 bits hold.
pub proof fn law_tokens_fit(session: ClaudeUsageView, run: ClaudeUsageView)
    ensures
        usage_fits(session, run) <==> {
            &&& session.input_tokens + run.input_tokens < 0x1_0000_0000_0000_0000
            &&& session.output_tokens + run.output_tokens < 0x1_0000_0000_0000_0000
            &&& session.cache_read + run.cache_read < 0x1_0000_0000_0000_0000
            &&& session.cache_creation + run.cache_creation < 0x1_0000_0000_0000_0000
        },
{
}

/// A panel starts out with no conversation, no text, no session and no list, awaiting nothing, and
/// with nothing used.
pub proof fn law_fresh_panel_has_nothing(assistant: AssistantView)
    ensures
        ({
            let p = fresh_panel(assistant);
            &&& p.assistant == assistant
            &&& p.messages.len() == 0
            &&& p.input.len() == 0
            &&& !p.is_loading
            &&& p.session_id is None
            &&& !p.show_commands
            &&& p.filtered_commands.len() == 0
            &&& p.selected_command == 0
            &&& p.session_usage == no_usage()
        }),
{
}

/// Keys and messages are read as they are held, part by part, and so is what is to be done.
pub proof fn law_keys_and_messages_are_read_as_held(
    key: Keystroke,
    message: ChatMessage,
    action: PanelAction,
)
    ensures
        key@.key == key.key@,
        key@.key_char is Some <==> key.key_char is Some,
        key.key_char is Some ==> key@.key_char->0 == key.key_char->0@,
        key@.control == key.control,
        key@.platform == key.platform,
        message@.role == message.role@,
        message@.text == message.text@,
        match action {
            PanelAction::Nothing => action@ is Nothing,
            PanelAction::Redraw => action@ is Redraw,
            PanelAction::Run(command) => action@ == PanelActionView::Run(command@),
        },
{
}

/// The keys that mean something of their own are told apart by their names.
proof fn lemma_keys_differ()
    ensures
        "backspace"@ != "enter"@,
        "backspace"@ != "escape"@,
        "enter"@ != "escape"@,
{
    reveal_strlit("backspace");
    reveal_strlit("enter");
    reveal_strlit("escape");
    assert("backspace"@.len() != "enter"@.len() && "backspace"@.len() != "escape"@.len());
    assert("enter"@.len() != "escape"@.len());
}

} // verus!
