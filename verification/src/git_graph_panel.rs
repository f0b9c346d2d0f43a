//! The commit panel: the commits of a repository, which of them is selected, and what is offered for
//! each.

use crate::text::decimal;
use crate::text::decimal_string;
use crate::text::same_text;
use crate::text::starts_with;
use crate::text::texts;
use vstd::prelude::*;

verus! {

/// A commit: its identifier, that identifier cut short, and the references that point at it.
#[derive(Debug, PartialEq, Eq)]
pub struct GraphCommit {
    pub sha: String,
    pub short_sha: String,
    pub ref_names: Vec<String>,
}

#[verifier::ext_equal]
pub struct GraphCommitView {
    pub sha: Seq<char>,
    pub short_sha: Seq<char>,
    pub ref_names: Seq<Seq<char>>,
}

impl View for GraphCommit {
    type V = GraphCommitView;

    open spec fn view(&self) -> GraphCommitView {
        GraphCommitView {
            sha: self.sha@,
            short_sha: self.short_sha@,
            ref_names: texts(self.ref_names@),
        }
    }
}

/// The contents of a list of commits.
pub open spec fn commits_view(commits: Seq<GraphCommit>) -> Seq<GraphCommitView> {
    commits.map_values(|c: GraphCommit| c@)
}

/// News of the list of commits that a repository keeps.
#[derive(Clone, Copy, Debug, PartialEq, Eq, Structural)]
pub enum GitGraphEvent {
    /// The list now holds this many commits.
    CountUpdated(usize),
    /// The list could not be loaded.
    LoadingError,
    Other,
}

/// News of a repository. `Q` stands for which commits a list is of, and in which order.
pub enum RepositoryEvent<Q> {
    HeadChanged,
    BranchListChanged,
    GraphEvent(Q, GitGraphEvent),
    Other,
}

/// News of the store of repositories.
pub enum GitStoreEvent<Q> {
    RepositoryUpdated(RepositoryEvent<Q>),
    Other,
}

/// Which commits are asked for, and in which order.
pub enum GraphQuery<Q> {
    /// All commits, by date.
    AllByDate,
    /// Those of a list that the repository has sent news of.
    Of(Q),
}

/// The commits from `start` on, up to and without `end`.
pub struct GraphRange<Q> {
    pub query: GraphQuery<Q>,
    pub start: usize,
    pub end: usize,
}

/// What is to be done when the panel has handled something.
pub enum GraphAction<Q> {
    /// Nothing.
    Nothing,
    /// The panel is to be drawn anew.
    Redraw,
    /// Commits are to be fetched from the active repository, and handed to the panel.
    Fetch(GraphRange<Q>),
}

/// What a repository knows of a commit.
#[derive(Debug, PartialEq, Eq)]
pub struct CommitData {
    pub subject: String,
    pub author_name: String,
    pub commit_timestamp: i64,
}

/// Whether a repository has loaded what it knows of a commit.
#[derive(Debug, PartialEq, Eq)]
pub enum CommitDataState {
    Loaded(CommitData),
    Loading,
}

/// An entry of a commit's menu, and the text that it copies.
#[derive(Debug, PartialEq, Eq)]
pub struct MenuEntry {
    pub label: String,
    pub copies: String,
}

pub struct MenuEntryView {
    pub label: Seq<char>,
    pub copies: Seq<char>,
}

impl View for MenuEntry {
    type V = MenuEntryView;

    open spec fn view(&self) -> MenuEntryView {
        MenuEntryView { label: self.label@, copies: self.copies@ }
    }
}

/// A commit's menu.
#[derive(Debug, PartialEq, Eq)]
pub struct CommitMenu {
    pub header: String,
    pub entries: Vec<MenuEntry>,
}

#[verifier::ext_equal]
pub struct CommitMenuView {
    pub header: Seq<char>,
    pub entries: Seq<MenuEntryView>,
}

impl View for CommitMenu {
    type V = CommitMenuView;

    open spec fn view(&self) -> CommitMenuView {
        CommitMenuView {
            header: self.header@,
            entries: self.entries@.map_values(|e: MenuEntry| e@),
        }
    }
}

/// What is known of a commit for its row.
#[derive(Debug, PartialEq, Eq)]
pub struct RowInfo {
    pub subject: String,
    pub author_name: String,
    pub formatted_time: String,
}

/// A commit's row.
#[derive(Debug, PartialEq, Eq)]
pub struct CommitRow {
    pub chips: Vec<String>,
    pub subject: String,
    pub formatted_time: String,
    pub author_name: String,
    pub short_sha: String,
    pub selected: bool,
}

#[verifier::ext_equal]
pub struct CommitRowView {
    pub chips: Seq<Seq<char>>,
    pub subject: Seq<char>,
    pub formatted_time: Seq<char>,
    pub author_name: Seq<char>,
    pub short_sha: Seq<char>,
    pub selected: bool,
}

impl View for CommitRow {
    type V = CommitRowView;

    open spec fn view(&self) -> CommitRowView {
        CommitRowView {
            chips: texts(self.chips@),
            subject: self.subject@,
            formatted_time: self.formatted_time@,
            author_name: self.author_name@,
            short_sha: self.short_sha@,
            selected: self.selected,
        }
    }
}

/// The head of the panel: how many rows there are, and the label that says so if there are any.
#[derive(Debug, PartialEq, Eq)]
pub struct GraphDisplay {
    pub item_count: usize,
    pub count_label: Option<String>,
}

/// The commit panel.
pub struct GitGraphPanel {
    commits: Vec<GraphCommit>,
    selected_entry_idx: Option<usize>,
}

/// What a commit panel holds: the commits, and the position of the selected row.
#[verifier::ext_equal]
pub struct GitGraphPanelView {
    pub commits: Seq<GraphCommitView>,
    pub selected: Option<usize>,
}

impl View for GitGraphPanel {
    type V = GitGraphPanelView;

    closed spec fn view(&self) -> GitGraphPanelView {
        GitGraphPanelView {
            commits: commits_view(self.commits@),
            selected: self.selected_entry_idx,
        }
    }
}

/// A panel without commits, and so without a selected one.
pub open spec fn empty_panel() -> GitGraphPanelView {
    GitGraphPanelView { commits: Seq::empty(), selected: None }
}

/// All the commits there are, by date.
pub open spec fn everything<Q>() -> GraphRange<Q> {
    GraphRange { query: GraphQuery::AllByDate, start: 0, end: usize::MAX }
}

/// The panel after news of the repository: when its head or its branches have changed, the panel
/// starts over.
pub open spec fn after_repository_event<Q>(
    p: GitGraphPanelView,
    event: RepositoryEvent<Q>,
) -> GitGraphPanelView {
    match event {
        RepositoryEvent::HeadChanged => empty_panel(),
        RepositoryEvent::BranchListChanged => empty_panel(),
        _ => p,
    }
}

/// What is to be done after news of the repository: a panel that starts over fetches everything, and
/// one whose list has grown fetches what it has not got.
pub open spec fn repository_action<Q>(
    p: GitGraphPanelView,
    event: RepositoryEvent<Q>,
) -> GraphAction<Q> {
    match event {
        RepositoryEvent::HeadChanged => GraphAction::Fetch(everything()),
        RepositoryEvent::BranchListChanged => GraphAction::Fetch(everything()),
        RepositoryEvent::GraphEvent(query, GitGraphEvent::CountUpdated(count)) =>
        GraphAction::Fetch(
            GraphRange {
                query: GraphQuery::Of(query),
                start: p.commits.len() as usize,
                end: count,
            },
        ),
        RepositoryEvent::GraphEvent(_, GitGraphEvent::LoadingError) => GraphAction::Redraw,
        _ => GraphAction::Nothing,
    }
}

/// The panel with more commits behind those that it has.
pub open spec fn with_commits(
    p: GitGraphPanelView,
    more: Seq<GraphCommitView>,
) -> GitGraphPanelView {
    GitGraphPanelView { commits: p.commits + more, ..p }
}

/// The name under which a reference is shown: a tag without the mark that it is one. A reference
/// without a name, and the head, are not shown.
pub open spec fn shown_ref(name: Seq<char>) -> Option<Seq<char>> {
    let bare = if "tag: "@.is_prefix_of(name) {
        name.skip("tag: "@.len() as int)
    } else {
        name
    };
    if bare.len() == 0 || bare == "HEAD"@ {
        None
    } else {
        Some(bare)
    }
}

/// The names under which references are shown, in order.
pub open spec fn shown_refs(names: Seq<Seq<char>>) -> Seq<Seq<char>> {
    names.filter_map(|name: Seq<char>| shown_ref(name))
}

/// What a commit's menu is headed with: the first of its references, and its identifier cut short.
pub open spec fn menu_header(commit: GraphCommitView) -> Seq<char> {
    let refs = shown_refs(commit.ref_names);
    if refs.len() == 0 {
        "Commit "@ + commit.short_sha
    } else {
        refs[0] + " | "@ + commit.short_sha
    }
}

/// The entry that copies the name of a reference.
pub open spec fn ref_entry(name: Seq<char>) -> MenuEntryView {
    MenuEntryView { label: "Copy \""@ + name + "\""@, copies: name }
}

/// A commit's menu: it copies the identifier, and the name of each reference on show.
pub open spec fn menu_of(commit: GraphCommitView) -> CommitMenuView {
    CommitMenuView {
        header: menu_header(commit),
        entries: seq![MenuEntryView { label: "Copy SHA"@, copies: commit.sha }] + shown_refs(
            commit.ref_names,
        ).map_values(|name: Seq<char>| ref_entry(name)),
    }
}

/// A commit's row. Until something is known of the commit, the row says that it is loading.
pub open spec fn commit_row_of(
    p: GitGraphPanelView,
    idx: usize,
    info: Option<RowInfo>,
) -> CommitRowView {
    CommitRowView {
        chips: shown_refs(p.commits[idx as int].ref_names),
        subject: match info {
            Some(i) => i.subject@,
            None => "Loading…"@,
        },
        formatted_time: match info {
            Some(i) => i.formatted_time@,
            None => Seq::empty(),
        },
        author_name: match info {
            Some(i) => i.author_name@,
            None => Seq::empty(),
        },
        short_sha: p.commits[idx as int].short_sha,
        selected: p.selected == Some(idx),
    }
}

/// The name under which a reference is shown, if it is.
pub fn visible_ref(name: &str) -> (r: Option<String>)
    ensures
        match r {
            Some(shown) => shown_ref(name@) == Some(shown@),
            None => shown_ref(name@) is None,
        },
{
    let bare = if starts_with(name, "tag: ") {
        name.substring_char("tag: ".unicode_len(), name.unicode_len())
    } else {
        name
    };
    if bare.is_empty() || same_text(bare, "HEAD") {
        None
    } else {
        Some(bare.to_owned())
    }
}

/// The names under which references are shown.
pub fn visible_refs(names: &Vec<String>) -> (r: Vec<String>)
    ensures
        texts(r@) == shown_refs(texts(names@)),
{
    let ghost all = texts(names@);
    let ghost shown = |name: Seq<char>| shown_ref(name);
    let mut r: Vec<String> = Vec::new();
    let mut i: usize = 0;
    assert(all.take(0) == Seq::<Seq<char>>::empty());
    assert(texts(r@) =~= shown_refs(all.take(0)));
    while i < names.len()
        invariant
            i <= names.len(),
            all == texts(names@),
            shown == (|name: Seq<char>| shown_ref(name)),
            texts(r@) == shown_refs(all.take(i as int)),
        decreases names.len() - i,
    {
        let ghost before = r@;
        proof {
            all.lemma_filter_map_take_succ(shown, i as int);
        }
        match visible_ref(names[i].as_str()) {
            Some(name) => {
                r.push(name);
                assert(texts(r@) =~= texts(before) + seq![name@]);
            },
            None => {
                assert(shown_refs(all.take(i + 1)) =~= shown_refs(all.take(i as int)));
            },
        }
        i += 1;
    }
    assert(all.take(i as int) == all);
    r
}

impl GitGraphPanel {
    /// A panel without commits, and what it is to fetch first.
    pub fn load<Q>() -> (r: (Self, GraphRange<Q>))
        ensures
            r.0@ == empty_panel(),
            r.1 == everything::<Q>(),
    {
        let panel = GitGraphPanel { commits: Vec::new(), selected_entry_idx: None };
        assert(panel@ =~= empty_panel());
        (panel, Self::fetch_initial_graph_data())
    }

    /// What a panel that starts over is to fetch: all the commits there are, by date.
    pub fn fetch_initial_graph_data<Q>() -> (r: GraphRange<Q>)
        ensures
            r == everything::<Q>(),
    {
        GraphRange { query: GraphQuery::AllByDate, start: 0, end: usize::MAX }
    }

    /// Handles news of the store: news of a repository count while there is an active one.
    pub fn handle_store_event<Q>(&mut self, event: GitStoreEvent<Q>, has_repository: bool) -> (r:
        GraphAction<Q>)
        ensures
            match event {
                GitStoreEvent::RepositoryUpdated(e) => if has_repository {
                    &&& final(self)@ == after_repository_event(old(self)@, e)
                    &&& r == repository_action(old(self)@, e)
                } else {
                    final(self)@ == old(self)@ && r is Nothing
                },
                GitStoreEvent::Other => final(self)@ == old(self)@ && r is Nothing,
            },
    {
        match event {
            GitStoreEvent::RepositoryUpdated(e) => {
                if has_repository {
                    self.handle_repository_event(e)
                } else {
                    GraphAction::Nothing
                }
            },
            GitStoreEvent::Other => GraphAction::Nothing,
        }
    }

    /// Handles news of the active repository.
    pub fn handle_repository_event<Q>(&mut self, event: RepositoryEvent<Q>) -> (r: GraphAction<Q>)
        ensures
            final(self)@ == after_repository_event(old(self)@, event),
            r == repository_action(old(self)@, event),
    {
        match event {
            RepositoryEvent::HeadChanged | RepositoryEvent::BranchListChanged => {
                self.commits.clear();
                self.selected_entry_idx = None;
                assert(self@ =~= empty_panel());
                GraphAction::Fetch(Self::fetch_initial_graph_data())
            },
            RepositoryEvent::GraphEvent(query, graph_event) => match graph_event {
                GitGraphEvent::CountUpdated(count) => {
                    let old_count = self.commits.len();
                    GraphAction::Fetch(
                        GraphRange { query: GraphQuery::Of(query), start: old_count, end: count },
                    )
                },
                GitGraphEvent::LoadingError => GraphAction::Redraw,
                GitGraphEvent::Other => GraphAction::Nothing,
            },
            RepositoryEvent::Other => GraphAction::Nothing,
        }
    }

    /// Takes in the commits that were fetched; `None` where there is no active repository.
    pub fn receive_graph_data<Q>(&mut self, fetched: Option<Vec<GraphCommit>>) -> (r: GraphAction<
        Q,
    >)
        ensures
            match fetched {
                Some(more) => {
                    &&& final(self)@ == with_commits(old(self)@, commits_view(more@))
                    &&& r is Redraw
                },
                None => final(self)@ == old(self)@ && r is Nothing,
            },
    {
        match fetched {
            Some(more) => {
                let mut more = more;
                let ghost fetched = more@;
                self.commits.append(&mut more);
                assert(self@ =~= with_commits(old(self)@, commits_view(fetched)));
                GraphAction::Redraw
            },
            None => GraphAction::Nothing,
        }
    }

    /// What a repository knows of a commit, if there is a repository and it has loaded it.
    pub fn load_commit_data(state: Option<CommitDataState>) -> (r: Option<(String, String, i64)>)
        ensures
            match state {
                Some(CommitDataState::Loaded(data)) => r == Some(
                    (data.subject, data.author_name, data.commit_timestamp),
                ),
                _ => r is None,
            },
    {
        match state {
            Some(CommitDataState::Loaded(data)) => Some(
                (data.subject, data.author_name, data.commit_timestamp),
            ),
            _ => None,
        }
    }

    /// The identifier of the commit in a row, to be opened.
    pub fn open_commit_view(&self, idx: usize) -> (r: Option<String>)
        ensures
            match r {
                Some(sha) => idx < self@.commits.len() && sha@ == self@.commits[idx as int].sha,
                None => idx >= self@.commits.len(),
            },
    {
        match self.row_sha(idx) {
            Some(sha) => Some(sha.clone()),
            None => None,
        }
    }

    /// The menu of the commit in a row.
    pub fn deploy_context_menu(&self, index: usize) -> (r: Option<CommitMenu>)
        ensures
            match r {
                Some(menu) => index < self@.commits.len() && menu@ == menu_of(
                    self@.commits[index as int],
                ),
                None => index >= self@.commits.len(),
            },
    {
        if index >= self.commits.len() {
            return None;
        }
        let commit = &self.commits[index];
        let ref_names = visible_refs(&commit.ref_names);
        let ghost refs = shown_refs(commit@.ref_names);
        let mut header = if ref_names.len() == 0 {
            "Commit ".to_owned()
        } else {
            let mut first = ref_names[0].clone();
            assert(first@ == texts(ref_names@)[0]);
            first.append(" | ");
            first
        };
        header.append(commit.short_sha.as_str());
        let mut entries: Vec<MenuEntry> = Vec::new();
        entries.push(MenuEntry { label: "Copy SHA".to_owned(), copies: commit.sha.clone() });
        let mut i: usize = 0;
        while i < ref_names.len()
            invariant
                i <= ref_names.len(),
                refs == texts(ref_names@),
                entries@.len() == i + 1,
                entries@[0]@ == (MenuEntryView { label: "Copy SHA"@, copies: commit.sha@ }),
                forall|k: int| 0 <= k < i ==> (#[trigger] entries@[k + 1])@ == ref_entry(refs[k]),
            decreases ref_names.len() - i,
        {
            let mut label = "Copy \"".to_owned();
            label.append(ref_names[i].as_str());
            label.append("\"");
            entries.push(MenuEntry { label, copies: ref_names[i].clone() });
            i += 1;
        }
        let menu = CommitMenu { header, entries };
        proof {
            let expected = menu_of(commit@).entries;
            assert forall|k: int| 0 <= k < expected.len() implies menu@.entries[k] == expected[k] by {
                if k > 0 {
                    assert(entries@[(k - 1) + 1]@ == ref_entry(refs[k - 1]));
                }
            }
            assert(menu@.entries =~= expected);
        }
        Some(menu)
    }

    /// Selects a row, and gives the identifier of its commit, to be opened.
    pub fn click_row(&mut self, idx: usize) -> (r: Option<String>)
        ensures
            final(self)@ == (GitGraphPanelView { selected: Some(idx), ..old(self)@ }),
            match r {
                Some(sha) => idx < old(self)@.commits.len() && sha@ == old(
                    self,
                )@.commits[idx as int].sha,
                None => idx >= old(self)@.commits.len(),
            },
    {
        self.selected_entry_idx = Some(idx);
        self.open_commit_view(idx)
    }

    /// Selects a row, and gives the menu of its commit.
    pub fn right_click_row(&mut self, idx: usize) -> (r: Option<CommitMenu>)
        ensures
            final(self)@ == (GitGraphPanelView { selected: Some(idx), ..old(self)@ }),
            match r {
                Some(menu) => idx < old(self)@.commits.len() && menu@ == menu_of(
                    old(self)@.commits[idx as int],
                ),
                None => idx >= old(self)@.commits.len(),
            },
    {
        self.selected_entry_idx = Some(idx);
        self.deploy_context_menu(idx)
    }

    /// The head of the panel.
    pub fn render(&self) -> (r: GraphDisplay)
        ensures
            r.item_count == self@.commits.len(),
            match r.count_label {
                Some(label) => self@.commits.len() > 0 && label@ == decimal(self@.commits.len())
                    + " commits"@,
                None => self@.commits.len() == 0,
            },
    {
        let item_count = self.commits.len();
        let count_label = if item_count > 0 {
            let mut label = decimal_string(item_count);
            label.append(" commits");
            Some(label)
        } else {
            None
        };
        GraphDisplay { item_count, count_label }
    }

    /// The identifier of the commit in a row, for what is known of it to be looked up.
    pub fn row_sha(&self, idx: usize) -> (r: Option<&String>)
        ensures
            match r {
                Some(sha) => idx < self@.commits.len() && sha@ == self@.commits[idx as int].sha,
                None => idx >= self@.commits.len(),
            },
    {
        if idx < self.commits.len() {
            Some(&self.commits[idx].sha)
        } else {
            None
        }
    }

    /// A row; `None` where there is no commit, when the row is blank.
    pub fn render_row(&self, idx: usize, info: Option<RowInfo>) -> (r: Option<CommitRow>)
        ensures
            match r {
                Some(row) => idx < self@.commits.len() && row@ == commit_row_of(self@, idx, info),
                None => idx >= self@.commits.len(),
            },
    {
        if idx >= self.commits.len() {
            return None;
        }
        let commit = &self.commits[idx];
        let selected = match self.selected_entry_idx {
            Some(at) => at == idx,
            None => false,
        };
        let (subject, author_name, formatted_time) = match info {
            Some(i) => (i.subject, i.author_name, i.formatted_time),
            None => ("Loading…".to_owned(), String::new(), String::new()),
        };
        Some(
            CommitRow {
                chips: visible_refs(&commit.ref_names),
                subject,
                formatted_time,
                author_name,
                short_sha: commit.short_sha.clone(),
                selected,
            },
        )
    }
}

/// When the head or the branches have changed, nothing is left of the old list: neither a commit nor
/// a selection of one; and everything is fetched anew.
pub proof fn law_change_starts_over<Q>(p: GitGraphPanelView, event: RepositoryEvent<Q>)
    requires
        event is HeadChanged || event is BranchListChanged,
    ensures
        after_repository_event(p, event) == empty_panel(),
        repository_action(p, event) == GraphAction::Fetch(everything::<Q>()),
{
}

/// Other news take neither commits nor the selection away, and neither do commits that come in.
pub proof fn law_other_news_keep_commits<Q>(
    p: GitGraphPanelView,
    event: RepositoryEvent<Q>,
    more: Seq<GraphCommitView>,
)
    requires
        event is GraphEvent || event is Other,
    ensures
        after_repository_event(p, event) == p,
        with_commits(p, more).selected == p.selected,
        p.commits.is_prefix_of(with_commits(p, more).commits),
{
    assert(with_commits(p, more).commits.subrange(0, p.commits.len() as int) == p.commits);
}

/// As a list grows, each commit is fetched once: where what was asked for has come, the panel holds
/// as many commits as it was told of, and what it then asks for starts where that ended.
pub proof fn law_growing_list_is_fetched_once<Q>(
    p: GitGraphPanelView,
    query: Q,
    count: usize,
    more: Seq<GraphCommitView>,
    later_query: Q,
    later_count: usize,
)
    requires
        p.commits.len() <= count,
        more.len() == count - p.commits.len(),
    ensures
        ({
            let asked = repository_action(
                p,
                RepositoryEvent::GraphEvent(query, GitGraphEvent::CountUpdated(count)),
            );
            let q = with_commits(p, more);
            let asked_later = repository_action(
                q,
                RepositoryEvent::GraphEvent(later_query, GitGraphEvent::CountUpdated(later_count)),
            );
            &&& asked->Fetch_0.start == p.commits.len()
            &&& asked->Fetch_0.end == count
            &&& q.commits.len() == count
            &&& asked_later->Fetch_0.start == asked->Fetch_0.end
        }),
{
}

/// A name on show is never empty and never that of the head, and it is that of one of the references.
pub proof fn law_shown_refs(names: Seq<Seq<char>>, k: int)
    requires
        0 <= k < shown_refs(names).len(),
    ensures
        shown_refs(names)[k].len() > 0,
        shown_refs(names)[k] != "HEAD"@,
        exists|i: int|
            0 <= i < names.len() && (names[i] == shown_refs(names)[k] || #[trigger] names[i]
                == "tag: "@ + shown_refs(names)[k]),
{
    let shown = |name: Seq<char>| shown_ref(name);
    let name = shown_refs(names)[k];
    assert(shown_refs(names).contains(name));
    names.lemma_filter_map_contains(shown, name);
    let from = choose|t: Seq<char>| #[trigger] names.contains(t) && shown(t) == Some(name);
    let i = choose|i: int| 0 <= i < names.len() && names[i] == from;
    if "tag: "@.is_prefix_of(from) {
        assert(from == "tag: "@ + name);
    }
    assert(names[i] == name || names[i] == "tag: "@ + name);
}

/// A commit's menu copies its identifier first, and then the names that its row shows, in that order.
pub proof fn law_menu_copies_what_the_row_shows(
    p: GitGraphPanelView,
    idx: usize,
    info: Option<RowInfo>,
)
    requires
        idx < p.commits.len(),
    ensures
        ({
            let entries = menu_of(p.commits[idx as int]).entries;
            let chips = commit_row_of(p, idx, info).chips;
            &&& entries.len() == chips.len() + 1
            &&& entries[0].copies == p.commits[idx as int].sha
            &&& forall|k: int|
                0 <= k < chips.len() ==> (#[trigger] entries[k + 1]).copies == chips[k]
        }),
{
}

/// After a click, the row that was clicked is selected and no other.
pub proof fn law_clicked_row_is_selected(
    p: GitGraphPanelView,
    clicked: usize,
    idx: usize,
    info: Option<RowInfo>,
)
    ensures
        commit_row_of(GitGraphPanelView { selected: Some(clicked), ..p }, idx, info).selected == (idx
            == clicked),
{
}

/// Commits that come in keep their order, behind those that are there: the row behind the old ones by
/// `k` is the `k`-th that came in. No row is lost, changed or added besides, and the selection stays.
pub proof fn law_commits_come_in_in_order(p: GitGraphPanelView, more: Seq<GraphCommitView>)
    ensures
        ({
            let q = with_commits(p, more);
            &&& q.commits.len() == p.commits.len() + more.len()
            &&& forall|k: int| 0 <= k < p.commits.len() ==> #[trigger] q.commits[k] == p.commits[k]
            &&& forall|k: int|
                0 <= k < more.len() ==> q.commits[p.commits.len() + k] == #[trigger] more[k]
            &&& q.selected == p.selected
        }),
{
}

/// Commits that come in at once come in as if in two parts, one after the other.
pub proof fn law_commits_come_in_by_parts(
    p: GitGraphPanelView,
    first: Seq<GraphCommitView>,
    second: Seq<GraphCommitView>,
)
    ensures
        with_commits(p, first + second) == with_commits(with_commits(p, first), second),
{
    assert(p.commits + (first + second) == p.commits + first + second);
}

/// A reference is shown by its name, and a tag by its name without the mark in front. What then has no
/// name, or is named as the head is, is not shown, and nothing else is left out.
pub proof fn law_ref_is_shown_by_its_name(name: Seq<char>)
    ensures
        name.len() > 0 && name != "HEAD"@ && !"tag: "@.is_prefix_of(name) ==> shown_ref(name)
            == Some(name),
        name.len() > 0 && name != "HEAD"@ ==> shown_ref("tag: "@ + name) == Some(name),
        name.len() == 0 || name == "HEAD"@ ==> shown_ref(name) is None && shown_ref("tag: "@ + name)
            is None,
{
    reveal_strlit("tag: ");
    reveal_strlit("HEAD");
    assert(("tag: "@ + name).subrange(0, "tag: "@.len() as int) == "tag: "@);
    assert(("tag: "@ + name).skip("tag: "@.len() as int) == name);
    if "tag: "@.is_prefix_of(name) {
        assert(name.len() >= 5);
    }
}

/// The names on show are those of all the references, in order, tags without the mark in front,
/// but for empty ones and that of the head: so there are as many as there are such references.
pub proof fn law_all_other_refs_are_shown(names: Seq<Seq<char>>)
    ensures
        shown_refs(names) == names.map_values(
            |name: Seq<char>|
                if "tag: "@.is_prefix_of(name) {
                    name.skip(5)
                } else {
                    name
                },
        ).filter(|name: Seq<char>| name.len() > 0 && name != "HEAD"@),
    decreases names.len(),
{
    reveal_strlit("tag: ");
    let bare = |name: Seq<char>|
        if "tag: "@.is_prefix_of(name) {
            name.skip(5)
        } else {
            name
        };
    let kept = |name: Seq<char>| name.len() > 0 && name != "HEAD"@;
    let shown = |name: Seq<char>| shown_ref(name);
    reveal(Seq::filter);
    if names.len() > 0 {
        let earlier = names.drop_last();
        law_all_other_refs_are_shown(earlier);
        names.lemma_filter_map_take_succ(shown, earlier.len() as int);
        assert(names.take(earlier.len() as int) == earlier);
        assert(names.take(names.len() as int) == names);
        assert(names.map_values(bare).drop_last() == earlier.map_values(bare));
        assert(names.map_values(bare).last() == bare(names.last()));
    }
}

/// A reference whose name, without the mark of a tag, is neither empty nor that of the head is among
/// those on show.
pub proof fn law_no_other_ref_is_left_out(names: Seq<Seq<char>>, i: int, bare: Seq<char>)
    requires
        0 <= i < names.len(),
        names[i] == "tag: "@ + bare || (names[i] == bare && !"tag: "@.is_prefix_of(bare)),
        bare.len() > 0,
        bare != "HEAD"@,
    ensures
        shown_refs(names).contains(bare),
{
    reveal_strlit("tag: ");
    let unmarked = |name: Seq<char>|
        if "tag: "@.is_prefix_of(name) {
            name.skip(5)
        } else {
            name
        };
    let kept = |name: Seq<char>| name.len() > 0 && name != "HEAD"@;
    let mark = "tag: "@ + bare;
    assert(mark.subrange(0, 5) == "tag: "@ && mark.skip(5) == bare);
    assert(names.map_values(unmarked)[i] == bare);
    names.map_values(unmarked).lemma_filter_contains(kept, i);
    law_all_other_refs_are_shown(names);
}

/// A commit's menu is headed with the first of the names on show and the short identifier, or says
/// that it is a commit's where no name is on show. Its first entry copies the identifier, and each
/// other one copies a name, which stands in quotes on its label.
pub proof fn law_menu_names_what_it_copies(commit: GraphCommitView)
    ensures
        ({
            let menu = menu_of(commit);
            let refs = shown_refs(commit.ref_names);
            &&& refs.len() == 0 ==> menu.header == "Commit "@ + commit.short_sha
            &&& refs.len() > 0 ==> menu.header == refs[0] + " | "@ + commit.short_sha
            &&& menu.entries.len() == refs.len() + 1
            &&& menu.entries[0].label == "Copy SHA"@
            &&& menu.entries[0].copies == commit.sha
            &&& forall|k: int|
                0 <= k < refs.len() ==> {
                    let entry = #[trigger] menu.entries[k + 1];
                    &&& entry.copies == refs[k]
                    &&& entry.label == "Copy \""@ + entry.copies + "\""@
                }
        }),
{
}

/// A row shows its own commit: the references on show, the short identifier, what is known of the
/// commit, and whether it is selected. Until something is known, it says that it is loading, and
/// names neither a time nor an author.
pub proof fn law_row_shows_its_commit(p: GitGraphPanelView, idx: usize, info: Option<RowInfo>)
    requires
        idx < p.commits.len(),
    ensures
        ({
            let row = commit_row_of(p, idx, info);
            &&& row.chips == shown_refs(p.commits[idx as int].ref_names)
            &&& row.short_sha == p.commits[idx as int].short_sha
            &&& info is Some ==> {
                &&& row.subject == info->0.subject@
                &&& row.formatted_time == info->0.formatted_time@
                &&& row.author_name == info->0.author_name@
            }
            &&& info is None ==> {
                &&& row.subject == "Loading…"@
                &&& row.formatted_time.len() == 0
                &&& row.author_name.len() == 0
            }
            &&& row.selected <==> p.selected is Some && p.selected->0 == idx
        }),
{
}

/// News of the head or the branches empty the panel and have all commits fetched, by date, from the
/// first on. News that a list has grown have it fetched from where the panel ends up to the number
/// told, news that it could not be loaded have the panel drawn anew, and other news do nothing; none
/// of these touches what the panel holds.
pub proof fn law_news_are_acted_on<Q>(p: GitGraphPanelView, event: RepositoryEvent<Q>)
    requires
        p.commits.len() <= usize::MAX,
    ensures
        ({
            let q = after_repository_event(p, event);
            let action = repository_action(p, event);
            match event {
                RepositoryEvent::HeadChanged | RepositoryEvent::BranchListChanged => {
                    &&& q.commits.len() == 0
                    &&& q.selected is None
                    &&& action is Fetch
                    &&& action->Fetch_0.query is AllByDate
                    &&& action->Fetch_0.start == 0
                    &&& action->Fetch_0.end == usize::MAX
                },
                RepositoryEvent::GraphEvent(query, GitGraphEvent::CountUpdated(count)) => {
                    &&& q == p
                    &&& action is Fetch
                    &&& action->Fetch_0.query == GraphQuery::Of(query)
                    &&& action->Fetch_0.start == p.commits.len()
                    &&& action->Fetch_0.end == count
                },
                RepositoryEvent::GraphEvent(_, GitGraphEvent::LoadingError) => q == p
                    && action is Redraw,
                RepositoryEvent::GraphEvent(_, GitGraphEvent::Other) => q == p
                    && action is Nothing,
                RepositoryEvent::Other => q == p && action is Nothing,
            }
        }),
{
}

/// A panel starts out with no commits and none selected, and asks for all of them, by date.
pub proof fn law_panel_starts_empty<Q>()
    ensures
        empty_panel().commits.len() == 0,
        empty_panel().selected is None,
        everything::<Q>().query is AllByDate,
        everything::<Q>().start == 0,
        everything::<Q>().end == usize::MAX,
{
}

/// Commits, menus and rows are read as they are held, part by part.
pub proof fn law_commits_are_read_as_held(
    commits: Seq<GraphCommit>,
    commit: GraphCommit,
    menu: CommitMenu,
    row: CommitRow,
)
    ensures
        commits_view(commits).len() == commits.len(),
        forall|i: int| 0 <= i < commits.len() ==> #[trigger] commits_view(commits)[i] == commits[i]@,
        commit@.sha == commit.sha@,
        commit@.short_sha == commit.short_sha@,
        commit@.ref_names.len() == commit.ref_names@.len(),
        forall|i: int|
            0 <= i < commit.ref_names@.len() ==> #[trigger] commit@.ref_names[i]
                == commit.ref_names@[i]@,
        menu@.header == menu.header@,
        menu@.entries.len() == menu.entries@.len(),
        forall|i: int|
            0 <= i < menu.entries@.len() ==> {
                let entry = #[trigger] menu@.entries[i];
                &&& entry.label == menu.entries@[i].label@
                &&& entry.copies == menu.entries@[i].copies@
            },
        row@.chips.len() == row.chips@.len(),
        forall|i: int| 0 <= i < row.chips@.len() ==> #[trigger] row@.chips[i] == row.chips@[i]@,
        row@.subject == row.subject@,
        row@.formatted_time == row.formatted_time@,
        row@.author_name == row.author_name@,
        row@.short_sha == row.short_sha@,
        row@.selected == row.selected,
{
}

/// The panel is read as it is held.
proof fn law_panel_is_read_as_held(panel: GitGraphPanel)
    ensures
        panel@.commits.len() == panel.commits@.len(),
        forall|i: int|
            0 <= i < panel.commits@.len() ==> #[trigger] panel@.commits[i] == panel.commits@[i]@,
        panel@.selected == panel.selected_entry_idx,
{
}

} // verus!
