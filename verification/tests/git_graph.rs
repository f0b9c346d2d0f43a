use editor_panels::dock::DockPosition;
use editor_panels::git_graph_panel::{
    visible_ref, visible_refs, CommitData, CommitDataState, GitGraphEvent, GitGraphPanel,
    GitStoreEvent, GraphAction, GraphCommit, GraphQuery, GraphRange, MenuEntry, RepositoryEvent,
    RowInfo,
};

type Query = (&'static str, u8);

fn commit(sha: &str, refs: &[&str]) -> GraphCommit {
    GraphCommit {
        sha: sha.to_string(),
        short_sha: sha[..2].to_string(),
        ref_names: refs.iter().map(|r| r.to_string()).collect(),
    }
}

fn panel_with(commits: Vec<GraphCommit>) -> GitGraphPanel {
    let (mut panel, _): (GitGraphPanel, GraphRange<Query>) = GitGraphPanel::load();
    let done: GraphAction<Query> = panel.receive_graph_data(Some(commits));
    assert!(matches!(done, GraphAction::Redraw));
    panel
}

fn is_everything(range: &GraphRange<Query>) -> bool {
    matches!(range.query, GraphQuery::AllByDate) && range.start == 0 && range.end == usize::MAX
}

#[test]
fn fresh_panel_fetches_everything() {
    let (panel, range): (GitGraphPanel, GraphRange<Query>) = GitGraphPanel::load();
    assert!(is_everything(&range));
    assert_eq!(panel.render().item_count, 0);
    assert_eq!(panel.render().count_label, None);
}

#[test]
fn commits_come_in_behind() {
    let mut panel = panel_with(vec![commit("aaaa", &[]), commit("bbbb", &[])]);
    let done: GraphAction<Query> = panel.receive_graph_data(Some(vec![commit("cccc", &[])]));
    assert!(matches!(done, GraphAction::Redraw));
    assert_eq!(panel.render().item_count, 3);
    assert_eq!(panel.render().count_label, Some("3 commits".to_string()));
    assert_eq!(panel.open_commit_view(0), Some("aaaa".to_string()));
    assert_eq!(panel.open_commit_view(2), Some("cccc".to_string()));
    assert_eq!(panel.open_commit_view(3), None);
}

#[test]
fn nothing_comes_in_without_a_repository() {
    let mut panel = panel_with(vec![commit("aaaa", &[])]);
    let done: GraphAction<Query> = panel.receive_graph_data(None);
    assert!(matches!(done, GraphAction::Nothing));
    assert_eq!(panel.render().item_count, 1);
}

#[test]
fn change_of_head_or_branches_starts_over() {
    for event in [RepositoryEvent::<Query>::HeadChanged, RepositoryEvent::BranchListChanged] {
        let mut panel = panel_with(vec![commit("aaaa", &[]), commit("bbbb", &[])]);
        panel.click_row(1);
        match panel.handle_repository_event(event) {
            GraphAction::Fetch(range) => assert!(is_everything(&range)),
            _ => panic!("nothing fetched"),
        }
        assert_eq!(panel.render().item_count, 0);
        let _: GraphAction<Query> =
            panel.receive_graph_data(Some(vec![commit("cccc", &[]), commit("dddd", &[])]));
        assert!(!panel.render_row(1, None).unwrap().selected);
    }
}

#[test]
fn growing_list_is_fetched_once() {
    let mut panel = panel_with(vec![commit("aaaa", &[])]);
    let grown = |count: usize| {
        RepositoryEvent::GraphEvent(("all", 1_u8), GitGraphEvent::CountUpdated(count))
    };
    match panel.handle_repository_event(grown(3)) {
        GraphAction::Fetch(range) => {
            assert!(matches!(range.query, GraphQuery::Of(("all", 1))));
            assert_eq!((range.start, range.end), (1, 3));
        }
        _ => panic!("nothing fetched"),
    }
    assert_eq!(panel.render().item_count, 1);
    let _: GraphAction<Query> =
        panel.receive_graph_data(Some(vec![commit("bbbb", &[]), commit("cccc", &[])]));
    match panel.handle_repository_event(grown(10)) {
        GraphAction::Fetch(range) => assert_eq!((range.start, range.end), (3, 10)),
        _ => panic!("nothing fetched"),
    }
}

#[test]
fn other_news() {
    let mut panel = panel_with(vec![commit("aaaa", &[])]);
    let failed = RepositoryEvent::GraphEvent(("all", 1_u8), GitGraphEvent::LoadingError);
    assert!(matches!(panel.handle_repository_event(failed), GraphAction::Redraw));
    let loaded = RepositoryEvent::GraphEvent(("all", 1_u8), GitGraphEvent::Other);
    assert!(matches!(panel.handle_repository_event(loaded), GraphAction::Nothing));
    let other = RepositoryEvent::<Query>::Other;
    assert!(matches!(panel.handle_repository_event(other), GraphAction::Nothing));
    assert_eq!(panel.render().item_count, 1);
}

#[test]
fn news_count_while_there_is_a_repository() {
    let mut panel = panel_with(vec![commit("aaaa", &[])]);
    let news = || GitStoreEvent::RepositoryUpdated(RepositoryEvent::<Query>::HeadChanged);
    assert!(matches!(panel.handle_store_event(news(), false), GraphAction::Nothing));
    assert_eq!(panel.render().item_count, 1);
    let other = GitStoreEvent::<Query>::Other;
    assert!(matches!(panel.handle_store_event(other, true), GraphAction::Nothing));
    assert_eq!(panel.render().item_count, 1);
    assert!(matches!(panel.handle_store_event(news(), true), GraphAction::Fetch(_)));
    assert_eq!(panel.render().item_count, 0);
}

#[test]
fn refs_on_show() {
    assert_eq!(visible_ref("main"), Some("main".to_string()));
    assert_eq!(visible_ref("tag: v1"), Some("v1".to_string()));
    assert_eq!(visible_ref("tag: tag: v1"), Some("tag: v1".to_string()));
    assert_eq!(visible_ref("tag:v1"), Some("tag:v1".to_string()));
    assert_eq!(visible_ref("größe"), Some("größe".to_string()));
    assert_eq!(visible_ref("HEAD"), None);
    assert_eq!(visible_ref("tag: HEAD"), None);
    assert_eq!(visible_ref("tag: "), None);
    assert_eq!(visible_ref(""), None);
    let names = vec!["HEAD".to_string(), "tag: v2".to_string(), "main".to_string()];
    assert_eq!(visible_refs(&names), vec!["v2", "main"]);
}

#[test]
fn menu_copies_what_the_row_shows() {
    let panel = panel_with(vec![commit("abcdef", &["HEAD", "tag: v1", "main"])]);
    let menu = panel.deploy_context_menu(0).unwrap();
    assert_eq!(menu.header, "v1 | ab");
    let entry = |label: &str, copies: &str| MenuEntry {
        label: label.to_string(),
        copies: copies.to_string(),
    };
    assert_eq!(
        menu.entries,
        vec![
            entry("Copy SHA", "abcdef"),
            entry("Copy \"v1\"", "v1"),
            entry("Copy \"main\"", "main"),
        ]
    );
    assert_eq!(panel.render_row(0, None).unwrap().chips, vec!["v1", "main"]);
}

#[test]
fn menu_of_a_commit_without_refs() {
    let panel = panel_with(vec![commit("abcdef", &["HEAD"])]);
    let menu = panel.deploy_context_menu(0).unwrap();
    assert_eq!(menu.header, "Commit ab");
    assert_eq!(menu.entries.len(), 1);
    assert_eq!(panel.deploy_context_menu(1), None);
}

#[test]
fn clicked_row_is_selected() {
    let mut panel = panel_with(vec![commit("aaaa", &[]), commit("bbbb", &[])]);
    assert_eq!(panel.click_row(0), Some("aaaa".to_string()));
    assert!(panel.render_row(0, None).unwrap().selected);
    assert_eq!(panel.right_click_row(1).unwrap().header, "Commit bb");
    assert!(!panel.render_row(0, None).unwrap().selected);
    assert!(panel.render_row(1, None).unwrap().selected);
    assert_eq!(panel.click_row(9), None);
    assert_eq!(panel.right_click_row(9), None);
}

#[test]
fn rows() {
    let panel = panel_with(vec![commit("abcdef", &["main"])]);
    let row = panel.render_row(0, None).unwrap();
    assert_eq!(row.subject, "Loading…");
    assert_eq!(row.author_name, "");
    assert_eq!(row.formatted_time, "");
    assert_eq!(row.short_sha, "ab");
    let info = RowInfo {
        subject: "Fix".to_string(),
        author_name: "Ada".to_string(),
        formatted_time: "today".to_string(),
    };
    let row = panel.render_row(0, Some(info)).unwrap();
    assert_eq!(row.subject, "Fix");
    assert_eq!(row.author_name, "Ada");
    assert_eq!(row.formatted_time, "today");
    assert_eq!(panel.render_row(1, None), None);
    assert_eq!(panel.row_sha(0), Some(&"abcdef".to_string()));
    assert_eq!(panel.row_sha(1), None);
}

#[test]
fn commit_data_once_loaded() {
    let data = CommitData {
        subject: "Fix".to_string(),
        author_name: "Ada".to_string(),
        commit_timestamp: -5,
    };
    assert_eq!(
        GitGraphPanel::load_commit_data(Some(CommitDataState::Loaded(data))),
        Some(("Fix".to_string(), "Ada".to_string(), -5))
    );
    assert_eq!(GitGraphPanel::load_commit_data(Some(CommitDataState::Loading)), None);
    assert_eq!(GitGraphPanel::load_commit_data(None), None);
}

#[test]
fn commit_panel_in_its_dock() {
    let panel = panel_with(Vec::new());
    assert_eq!(GitGraphPanel::persistent_name(), "GitGraphPanel");
    assert_eq!(GitGraphPanel::panel_key(), "GitGraphPanel");
    assert_eq!(panel.position(), DockPosition::Right);
    assert!(panel.position_is_valid(DockPosition::Left));
    assert!(!panel.position_is_valid(DockPosition::Bottom));
    assert_eq!(panel.icon_tooltip(), Some("Git Graph Panel"));
    assert_eq!(panel.activation_priority(), 2);
}
