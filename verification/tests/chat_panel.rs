use editor_panels::chat_display::{Background, Border, Caret};
use editor_panels::claude_code_panel::{ClaudeCodePanel, DropAction, Keystroke, PanelAction};
use editor_panels::commands::{command, commands_with_prefix, COMMAND_COUNT};
use editor_panels::dock::{closes_on_toggle, DockPosition};
use editor_panels::stream::Cost;
use editor_panels::task::{Assistant, TaskRun};

fn fresh() -> ClaudeCodePanel {
    ClaudeCodePanel::load(Assistant {
        name: "Helper".to_string(),
        title: "Helper Code".to_string(),
        program: "helper".to_string(),
    })
}

fn key(name: &str) -> Keystroke {
    Keystroke { key: name.to_string(), key_char: None, control: false, platform: false }
}

fn types(text: &str) -> Keystroke {
    Keystroke { key_char: Some(text.to_string()), ..key(text) }
}

fn panel_with(text: &str) -> ClaudeCodePanel {
    let mut panel = fresh();
    for c in text.chars() {
        assert_eq!(panel.handle_key_down(&types(&c.to_string())), PanelAction::Redraw);
    }
    panel
}

fn input(panel: &ClaudeCodePanel) -> String {
    panel.render(true).input.unwrap_or_default()
}

fn offered(panel: &ClaudeCodePanel) -> Option<Vec<&'static str>> {
    panel.render(true).commands.map(|rows| rows.iter().map(|row| row.name).collect())
}

fn selected(panel: &ClaudeCodePanel) -> Vec<usize> {
    let rows = panel.render(true).commands.unwrap();
    (0..rows.len()).filter(|i| rows[*i].selected).collect()
}

fn conversation(panel: &ClaudeCodePanel) -> Vec<(String, String)> {
    match panel.render(true).bubbles {
        Some(bubbles) => bubbles.into_iter().map(|b| (b.label, b.text)).collect(),
        None => Vec::new(),
    }
}

fn dollars(cost: Cost) -> f64 {
    f64::from_bits(cost.bits)
}

fn cost(dollars: f64) -> Cost {
    Cost { bits: dollars.to_bits() }
}

fn answer(text: &str) -> TaskRun {
    let mut run = TaskRun::start();
    run.text_parts.push(text.to_string());
    run
}

#[test]
fn fresh_panel_welcomes() {
    let panel = fresh();
    let shown = panel.render(false);
    assert_eq!(shown.bubbles, None);
    assert!(!shown.thinking);
    assert_eq!(shown.commands, None);
    assert_eq!(shown.input, None);
    assert_eq!(shown.footer, Background::Panel);
    assert_eq!(shown.input_border, Border::Variant);
    assert_eq!(shown.caret, None);
    assert!(shown.send_disabled);
}

#[test]
fn focus_shows() {
    let mut panel = fresh();
    let shown = panel.render(true);
    assert_eq!(shown.footer, Background::TitleBar);
    assert_eq!(shown.input_border, Border::Normal);
    assert_eq!(shown.caret, Some(Caret::Faint));
    panel.handle_key_down(&types("a"));
    assert_eq!(panel.render(true).caret, Some(Caret::Full));
    assert_eq!(panel.render(false).caret, None);
}

#[test]
fn commands_are_listed() {
    assert_eq!(COMMAND_COUNT, 16);
    assert_eq!(command(0).name, "/clear");
    assert_eq!(command(4).description, "Set reasoning effort (low/medium/high/xhigh/max)");
    assert_eq!(command(15).name, "/export");
    assert_eq!(command(15).description, "Export conversation");
}

#[test]
fn prefixes_pick_commands() {
    assert_eq!(commands_with_prefix("/c"), vec![0, 1, 5, 7]);
    assert_eq!(commands_with_prefix("/co"), vec![1, 5, 7]);
    assert_eq!(commands_with_prefix("/re"), vec![10, 12, 14]);
    assert_eq!(commands_with_prefix("/"), (0..16).collect::<Vec<usize>>());
    assert_eq!(commands_with_prefix(""), (0..16).collect::<Vec<usize>>());
    assert!(commands_with_prefix("/clear ").is_empty());
    assert!(commands_with_prefix("c").is_empty());
}

#[test]
fn slash_offers_all_commands() {
    let panel = panel_with("/");
    assert_eq!(offered(&panel).unwrap().len(), 16);
    assert_eq!(selected(&panel), vec![0]);
}

#[test]
fn typing_narrows_the_list() {
    let mut panel = panel_with("/re");
    assert_eq!(offered(&panel), Some(vec!["/review", "/retry", "/resume"]));
    panel.handle_key_down(&types("z"));
    assert_eq!(offered(&panel), Some(vec![]));
    panel.handle_key_down(&key("backspace"));
    assert_eq!(offered(&panel), Some(vec!["/review", "/retry", "/resume"]));
}

#[test]
fn capitals_pick_commands_too() {
    let panel = panel_with("/CLE");
    assert_eq!(panel.filter_commands(), vec![0]);
    assert_eq!(offered(&panel), Some(vec!["/clear"]));
    assert_eq!(input(&panel), "/CLE");
}

#[test]
fn longer_text_brings_no_command_back() {
    let text = "/ReSume";
    let mut before = fresh().filter_commands();
    assert_eq!(before, (0..16).collect::<Vec<usize>>());
    for end in 1..=text.len() {
        let panel = panel_with(&text[..end]);
        let now = panel.filter_commands();
        assert!(now.iter().all(|index| before.contains(index)));
        assert_eq!(offered(&panel).unwrap().len(), now.len());
        before = now;
    }
    assert_eq!(before, vec![14]);
}

#[test]
fn no_list_is_on_show_of_other_than_ascii() {
    let mut panel = panel_with("/");
    panel.append_path_to_input("é");
    assert_eq!(offered(&panel), None);
    panel.handle_key_down(&types("a"));
    panel.handle_key_down(&key("backspace"));
    assert_eq!(offered(&panel), None);
    assert_eq!(input(&panel), "/ é");
}

#[test]
fn text_whose_lower_case_is_not_ascii_picks_nothing() {
    for text in ["/É", "/c\u{3a3}", "/\u{130}"] {
        let mut panel = fresh();
        panel.append_path_to_input(text);
        assert!(panel.filter_commands().is_empty());
        panel.append_path_to_input("x");
        assert!(panel.filter_commands().is_empty());
    }
}

#[test]
fn backspace_brings_the_list_back_as_it_was() {
    let mut panel = panel_with("/re");
    let before = offered(&panel);
    panel.handle_key_down(&types("z"));
    panel.handle_key_down(&key("backspace"));
    assert_eq!(offered(&panel), before);

    let mut plain = panel_with("a");
    plain.handle_key_down(&types("/"));
    plain.handle_key_down(&key("backspace"));
    assert_eq!(offered(&plain), None);
}

#[test]
fn messages_are_shown_under_who_said_them() {
    let mut panel = panel_with("hi");
    panel.send_message();
    panel.finish_claude_task(answer("hello"), cost(0.0));
    let mut failed = answer("");
    failed.error = Some("gone".to_string());
    panel.finish_claude_task(failed, cost(0.0));
    let shown = panel.render(false).bubbles.unwrap();
    let labels: Vec<&str> = shown.iter().map(|b| b.label.as_str()).collect();
    assert_eq!(labels, vec!["You", "Helper Code", "Error"]);
    assert_eq!(shown[2].background, Background::Element);

    let mut namesake = ClaudeCodePanel::load(Assistant {
        name: "You".to_string(),
        title: "Helper Code".to_string(),
        program: "helper".to_string(),
    });
    namesake.finish_claude_task(answer("hello"), cost(0.0));
    assert_eq!(namesake.render(false).bubbles.unwrap()[0].label, "You");
}

#[test]
fn taking_back_to_the_slash_offers_all() {
    let mut panel = panel_with("/x");
    assert_eq!(offered(&panel), Some(vec![]));
    panel.handle_key_down(&key("backspace"));
    assert_eq!(offered(&panel).unwrap().len(), 16);
}

#[test]
fn slash_within_text_offers_nothing() {
    assert_eq!(offered(&panel_with("a/")), None);
    assert_eq!(offered(&panel_with("//")).map(|rows| rows.len()), Some(0));
}

#[test]
fn selection_moves_and_stops() {
    let mut panel = panel_with("/re");
    assert_eq!(panel.handle_select_previous(), PanelAction::Nothing);
    assert_eq!(panel.handle_select_next(), PanelAction::Redraw);
    assert_eq!(panel.handle_select_next(), PanelAction::Redraw);
    assert_eq!(selected(&panel), vec![2]);
    assert_eq!(panel.handle_select_next(), PanelAction::Nothing);
    assert_eq!(selected(&panel), vec![2]);
    assert_eq!(panel.handle_select_previous(), PanelAction::Redraw);
    assert_eq!(selected(&panel), vec![1]);
    panel.handle_key_down(&types("t"));
    assert_eq!(selected(&panel), vec![0]);
}

#[test]
fn selection_needs_the_list() {
    let mut panel = panel_with("text");
    assert_eq!(panel.handle_select_next(), PanelAction::Nothing);
    assert_eq!(panel.handle_select_previous(), PanelAction::Nothing);
}

#[test]
fn enter_picks_the_selected_command() {
    let mut panel = panel_with("/re");
    panel.handle_select_next();
    assert_eq!(panel.handle_key_down(&key("enter")), PanelAction::Redraw);
    assert_eq!(input(&panel), "/retry ");
    assert_eq!(offered(&panel), None);
    match panel.handle_key_down(&key("enter")) {
        PanelAction::Run(task) => assert_eq!(task.input_line, "/retry"),
        other => panic!("{:?}", other),
    }
}

#[test]
fn enter_in_an_empty_list_does_nothing() {
    let mut panel = panel_with("/zzz");
    assert_eq!(panel.handle_key_down(&key("enter")), PanelAction::Redraw);
    assert_eq!(input(&panel), "/zzz");
    assert_eq!(offered(&panel), Some(vec![]));
    assert!(conversation(&panel).is_empty());
}

#[test]
fn escape_leaves_the_list() {
    let mut panel = panel_with("/c");
    assert_eq!(panel.handle_key_down(&key("escape")), PanelAction::Redraw);
    assert_eq!(offered(&panel), None);
    assert_eq!(input(&panel), "/c");
    assert_eq!(panel.handle_key_down(&key("escape")), PanelAction::Nothing);
}

#[test]
fn a_list_that_was_left_stays_away() {
    let mut panel = panel_with("/c");
    panel.handle_key_down(&key("escape"));
    panel.handle_key_down(&types("l"));
    assert_eq!(offered(&panel), None);
    panel.handle_key_down(&key("backspace"));
    assert_eq!(offered(&panel), None);
    panel.handle_key_down(&key("backspace"));
    panel.handle_key_down(&key("backspace"));
    panel.handle_key_down(&types("/"));
    assert_eq!(offered(&panel).unwrap().len(), 16);
}

#[test]
fn chosen_command_is_typed() {
    let mut panel = panel_with("/");
    assert_eq!(panel.choose_command("/model"), PanelAction::Redraw);
    assert_eq!(input(&panel), "/model ");
    assert_eq!(offered(&panel), None);
}

#[test]
fn backspace_undoes_typing() {
    let mut panel = panel_with("a");
    panel.handle_key_down(&types("b"));
    assert_eq!(panel.handle_key_down(&key("backspace")), PanelAction::Redraw);
    assert_eq!(input(&panel), "a");
    panel.handle_key_down(&key("backspace"));
    assert_eq!(panel.handle_key_down(&key("backspace")), PanelAction::Redraw);
    assert_eq!(input(&panel), "");
}

#[test]
fn backspace_over_the_slash_leaves_the_list() {
    let mut panel = panel_with("/");
    panel.handle_key_down(&key("backspace"));
    assert_eq!(offered(&panel), None);
}

#[test]
fn backspace_takes_a_whole_character() {
    let mut panel = fresh();
    panel.append_path_to_input("caf\u{e9}");
    panel.handle_key_down(&key("backspace"));
    assert_eq!(input(&panel), "caf");
}

#[test]
fn only_single_bytes_are_typed() {
    let mut panel = fresh();
    assert_eq!(panel.handle_key_down(&types("é")), PanelAction::Nothing);
    assert_eq!(panel.handle_key_down(&types("ab")), PanelAction::Nothing);
    assert_eq!(panel.handle_key_down(&types("")), PanelAction::Nothing);
    assert_eq!(panel.handle_key_down(&key("shift")), PanelAction::Nothing);
    assert_eq!(input(&panel), "");
}

#[test]
fn held_command_keys_are_not_typed() {
    let mut panel = fresh();
    let control = Keystroke { control: true, ..types("a") };
    let platform = Keystroke { platform: true, ..types("a") };
    assert_eq!(panel.handle_key_down(&control), PanelAction::Nothing);
    assert_eq!(panel.handle_key_down(&platform), PanelAction::Nothing);
    assert_eq!(input(&panel), "");
}

#[test]
fn enter_asks_what_was_typed() {
    let mut panel = panel_with(" why? ");
    assert!(!panel.render(true).send_disabled);
    match panel.handle_key_down(&key("enter")) {
        PanelAction::Run(task) => {
            assert_eq!(task.program, "helper");
            assert_eq!(task.args, vec!["-p", "--verbose", "--output-format", "stream-json"]);
            assert_eq!(task.input_line, "why?");
        }
        other => panic!("{:?}", other),
    }
    assert_eq!(input(&panel), "");
    assert_eq!(conversation(&panel), vec![("You".to_string(), "why?".to_string())]);
    assert!(panel.render(true).thinking);
}

#[test]
fn enter_asks_nothing_of_whitespace() {
    let mut panel = panel_with("   ");
    assert!(panel.render(true).send_disabled);
    assert_eq!(panel.handle_key_down(&key("enter")), PanelAction::Nothing);
    assert_eq!(panel.send_message(), PanelAction::Nothing);
    assert_eq!(input(&panel), "   ");
    assert_eq!(fresh().handle_key_down(&key("enter")), PanelAction::Nothing);
}

#[test]
fn enter_that_types_a_newline_types_it_where_nothing_is_typed() {
    let mut panel = fresh();
    let enter = Keystroke { key_char: Some("\n".to_string()), ..key("enter") };
    assert_eq!(panel.handle_key_down(&enter), PanelAction::Redraw);
    assert_eq!(input(&panel), "\n");
}

#[test]
fn one_question_at_a_time() {
    let mut panel = panel_with("why?");
    assert!(matches!(panel.send_message(), PanelAction::Run(_)));
    assert_eq!(panel.handle_key_down(&types("a")), PanelAction::Nothing);
    panel.append_path_to_input("more");
    assert!(panel.render(true).send_disabled);
    assert_eq!(panel.send_message(), PanelAction::Nothing);
    assert_eq!(panel.handle_key_down(&key("enter")), PanelAction::Nothing);
    assert_eq!(input(&panel), "more");
    panel.finish_claude_task(answer("because"), cost(0.0));
    assert!(!panel.render(true).send_disabled);
    assert!(matches!(panel.send_message(), PanelAction::Run(_)));
}

#[test]
fn sending_leaves_the_list_as_it_is() {
    let mut panel = panel_with("/c");
    assert!(matches!(panel.send_message(), PanelAction::Run(_)));
    assert_eq!(offered(&panel), Some(vec!["/clear", "/compact", "/cost", "/context"]));
    panel.finish_claude_task(answer("done"), cost(0.0));
    panel.handle_key_down(&types("a"));
    assert_eq!(offered(&panel), Some(vec![]));
}

#[test]
fn question_and_answer() {
    let mut panel = panel_with("hi");
    panel.send_message();
    let mut run = TaskRun::start();
    run.text_parts = vec!["Hel".to_string(), "lo".to_string()];
    run.session_id = Some("s1".to_string());
    assert_eq!(panel.finish_claude_task(run, cost(0.0)), PanelAction::Redraw);
    assert_eq!(
        conversation(&panel),
        vec![("You".to_string(), "hi".to_string()), ("Helper Code".to_string(), "Hello".to_string())]
    );
    assert!(!panel.render(true).thinking);
    let task = panel.spawn_claude_task("next".to_string());
    assert_eq!(task.args[4..], ["--resume".to_string(), "s1".to_string()]);
}

#[test]
fn answer_without_text_is_not_shown() {
    let mut panel = panel_with("hi");
    panel.send_message();
    panel.finish_claude_task(TaskRun::start(), cost(0.0));
    assert_eq!(conversation(&panel), vec![("You".to_string(), "hi".to_string())]);
    assert!(!panel.render(true).thinking);
}

#[test]
fn failed_run_leaves_only_its_error() {
    let mut panel = panel_with("hi");
    panel.send_message();
    let mut run = answer("half an ans");
    run.session_id = Some("s1".to_string());
    run.error = Some("Read error: gone".to_string());
    run.usage.input_tokens = 5;
    panel.finish_claude_task(run, cost(1.0));
    let shown = panel.render(true).bubbles.unwrap();
    assert_eq!(shown.len(), 2);
    assert_eq!(shown[0].background, Background::Surface);
    assert_eq!(shown[1].label, "Error");
    assert_eq!(shown[1].background, Background::Element);
    assert_eq!(shown[1].text, "Read error: gone");
    assert_eq!(panel.session_usage().input_tokens, 0);
    assert_eq!(dollars(panel.session_usage().total_cost), 0.0);
    assert_eq!(panel.spawn_claude_task("x".to_string()).args.len(), 4);
    assert!(!panel.render(true).thinking);
}

#[test]
fn usage_adds_up() {
    let mut panel = fresh();
    for (tokens, dollars) in [(1_u64, 0.25), (20, 0.5)] {
        let mut run = answer("x");
        run.usage.total_cost = cost(dollars);
        run.usage.input_tokens = tokens;
        run.usage.output_tokens = 2 * tokens;
        run.usage.cache_read = 3 * tokens;
        run.usage.cache_creation = 4 * tokens;
        assert!(panel.can_count_in(&run));
        let sum = f64::from_bits(panel.session_usage().total_cost.bits) + dollars;
        panel.finish_claude_task(run, cost(sum));
    }
    let usage = panel.session_usage();
    assert_eq!(dollars(usage.total_cost), 0.75);
    assert_eq!(usage.input_tokens, 21);
    assert_eq!(usage.output_tokens, 42);
    assert_eq!(usage.cache_read, 63);
    assert_eq!(usage.cache_creation, 84);
}

#[test]
fn model_and_window_are_taken_over_where_known() {
    let mut panel = fresh();
    let mut run = answer("x");
    run.usage.model = "opus".to_string();
    run.usage.context_window = 7;
    panel.finish_claude_task(run, cost(0.0));
    let mut run = answer("y");
    run.usage.context_window = 0;
    panel.finish_claude_task(run, cost(0.0));
    assert_eq!(panel.session_usage().model, "opus");
    assert_eq!(panel.session_usage().context_window, 7);
}

#[test]
fn tokens_that_do_not_fit() {
    let mut panel = fresh();
    let mut run = answer("x");
    run.usage.cache_read = u64::MAX;
    assert!(panel.can_count_in(&run));
    panel.finish_claude_task(run, cost(0.0));
    let mut more = answer("x");
    assert!(panel.can_count_in(&more));
    more.usage.cache_read = 1;
    assert!(!panel.can_count_in(&more));
}

#[test]
fn session_survives_a_run_without_one() {
    let mut panel = fresh();
    let mut run = answer("x");
    run.session_id = Some("s1".to_string());
    panel.finish_claude_task(run, cost(0.0));
    panel.finish_claude_task(answer("y"), cost(0.0));
    assert_eq!(panel.spawn_claude_task("z".to_string()).args[5], "s1");
}

#[test]
fn dropped_paths_are_spaced() {
    let mut panel = fresh();
    let paths = vec!["a.rs".to_string(), "b.rs".to_string()];
    let done = panel.handle_drop(&paths, false);
    assert_eq!(done, DropAction { focus: true, redraw: true });
    assert_eq!(input(&panel), "a.rs b.rs");
    assert_eq!(panel.handle_drop(&paths, true), DropAction { focus: false, redraw: true });
    assert_eq!(input(&panel), "a.rs b.rs a.rs b.rs");
}

#[test]
fn no_space_is_doubled() {
    let mut panel = panel_with("see ");
    assert_eq!(panel.append_path_to_input("a.rs"), PanelAction::Redraw);
    assert_eq!(input(&panel), "see a.rs");
}

#[test]
fn drop_of_nothing() {
    let mut panel = panel_with("/");
    let done = panel.handle_drop(&Vec::new(), false);
    assert_eq!(done, DropAction { focus: false, redraw: false });
    assert_eq!(offered(&panel).unwrap().len(), 16);
}

#[test]
fn drop_leaves_the_list() {
    let mut panel = panel_with("/c");
    panel.handle_drop(&vec!["x".to_string()], true);
    assert_eq!(offered(&panel), None);
    assert_eq!(input(&panel), "/c x");
}

#[test]
fn dropped_tab() {
    let mut panel = panel_with("see");
    let none = panel.handle_drop_tab(&None, false);
    assert_eq!(none, DropAction { focus: false, redraw: false });
    assert_eq!(input(&panel), "see");
    let some = panel.handle_drop_tab(&Some("src/a.rs".to_string()), false);
    assert_eq!(some, DropAction { focus: true, redraw: true });
    assert_eq!(input(&panel), "see src/a.rs");
}

#[test]
fn dropped_selection() {
    let mut panel = fresh();
    let nothing = panel.handle_drop_selection(&vec![None], false);
    assert_eq!(nothing, DropAction { focus: true, redraw: false });
    let some = panel.handle_drop_selection(
        &vec![Some("a".to_string()), None, Some("b".to_string())],
        true,
    );
    assert_eq!(some, DropAction { focus: false, redraw: true });
    assert_eq!(input(&panel), "a b");
}

#[test]
fn chat_panel_in_its_dock() {
    let panel = fresh();
    assert_eq!(ClaudeCodePanel::persistent_name(), "ClaudeCodePanel");
    assert_eq!(ClaudeCodePanel::panel_key(), "ClaudeCodePanel");
    assert_eq!(panel.position(), DockPosition::Right);
    assert!(panel.position_is_valid(DockPosition::Left));
    assert!(panel.position_is_valid(DockPosition::Right));
    assert!(!panel.position_is_valid(DockPosition::Bottom));
    assert_eq!(panel.icon_tooltip(), Some("Helper Code"));
    assert_eq!(panel.activation_priority(), 4);
    assert!(closes_on_toggle(false));
    assert!(!closes_on_toggle(true));
}
