//! The commands that can be typed into the chat panel, and how a beginning of one picks some out.

use crate::text::ascii;
use crate::text::starts_with;
use crate::text::whitespace;
use vstd::prelude::*;

verus! {

/// How many commands there are.
pub const COMMAND_COUNT: usize = 16;

/// A command: what is typed, and what it does.
#[derive(Clone, Copy, Debug)]
pub struct Command {
    pub name: &'static str,
    pub description: &'static str,
}

/// What is typed for each command.
pub open spec fn command_names() -> Seq<Seq<char>> {
    seq![
        "/clear"@,
        "/compact"@,
        "/help"@,
        "/model"@,
        "/effort"@,
        "/cost"@,
        "/status"@,
        "/context"@,
        "/plan"@,
        "/diff"@,
        "/review"@,
        "/explain"@,
        "/retry"@,
        "/undo"@,
        "/resume"@,
        "/export"@,
    ]
}

/// What each command does.
pub open spec fn command_descriptions() -> Seq<Seq<char>> {
    seq![
        "Start new conversation"@,
        "Compress conversation to save context"@,
        "Show available commands"@,
        "Switch AI model"@,
        "Set reasoning effort (low/medium/high/xhigh/max)"@,
        "Show token usage and cost"@,
        "Show session info"@,
        "Show context window usage"@,
        "Plan before writing code"@,
        "Show uncommitted changes"@,
        "Review current diff"@,
        "Explain last response"@,
        "Retry last response"@,
        "Undo last file edit"@,
        "Resume prior session"@,
        "Export conversation"@,
    ]
}

/// The `index`-th command.
pub fn command(index: usize) -> (r: Command)
    requires
        index < COMMAND_COUNT,
    ensures
        r.name@ == command_names()[index as int],
        r.description@ == command_descriptions()[index as int],
{
    let (name, description) = match index {
        0 => ("/clear", "Start new conversation"),
        1 => ("/compact", "Compress conversation to save context"),
        2 => ("/help", "Show available commands"),
        3 => ("/model", "Switch AI model"),
        4 => ("/effort", "Set reasoning effort (low/medium/high/xhigh/max)"),
        5 => ("/cost", "Show token usage and cost"),
        6 => ("/status", "Show session info"),
        7 => ("/context", "Show context window usage"),
        8 => ("/plan", "Plan before writing code"),
        9 => ("/diff", "Show uncommitted changes"),
        10 => ("/review", "Review current diff"),
        11 => ("/explain", "Explain last response"),
        12 => ("/retry", "Retry last response"),
        13 => ("/undo", "Undo last file edit"),
        14 => ("/resume", "Resume prior session"),
        _ => ("/export", "Export conversation"),
    };
    Command { name, description }
}

/// The positions of the commands, in order.
pub open spec fn command_indices() -> Seq<usize> {
    Seq::new(COMMAND_COUNT as nat, |i: int| i as usize)
}

/// The positions of the commands whose names start with `prefix`, in order.
pub open spec fn matching_commands(prefix: Seq<char>) -> Seq<usize> {
    command_indices().filter(|i: usize| prefix.is_prefix_of(command_names()[i as int]))
}

/// The positions of the commands whose names start with `prefix`.
pub fn commands_with_prefix(prefix: &str) -> (r: Vec<usize>)
    ensures
        r@ == matching_commands(prefix@),
{
    let ghost all = command_indices();
    let ghost pred = |i: usize| prefix@.is_prefix_of(command_names()[i as int]);
    let mut r: Vec<usize> = Vec::new();
    let mut i: usize = 0;
    proof {
        reveal(Seq::filter);
        assert(all.take(0) == Seq::<usize>::empty());
    }
    while i < COMMAND_COUNT
        invariant
            i <= COMMAND_COUNT,
            all == command_indices(),
            pred == (|i: usize| prefix@.is_prefix_of(command_names()[i as int])),
            r@ == all.take(i as int).filter(pred),
        decreases COMMAND_COUNT - i,
    {
        proof {
            assert(all.take(i + 1) == all.take(i as int).push(i));
            all.take(i as int).lemma_filter_push(i, pred);
        }
        if starts_with(command(i).name, prefix) {
            r.push(i);
        }
        i += 1;
    }
    assert(all.take(i as int) == all);
    r
}

/// Every position in a list of matches is that of a command, and the positions rise.
pub proof fn law_matches_are_commands_in_order(prefix: Seq<char>)
    ensures
        matching_commands(prefix).len() <= COMMAND_COUNT,
        forall|k: int|
            0 <= k < matching_commands(prefix).len() ==> #[trigger] matching_commands(prefix)[k]
                < COMMAND_COUNT,
        forall|j: int, k: int|
            0 <= j < k < matching_commands(prefix).len() ==> #[trigger] matching_commands(prefix)[j]
                < #[trigger] matching_commands(prefix)[k],
{
    lemma_rising(
        command_indices(),
        |i: usize| prefix.is_prefix_of(command_names()[i as int]),
    );
}

/// A command is among the matches exactly when its name starts with the prefix.
pub proof fn law_matches_are_those_with_prefix(prefix: Seq<char>, index: usize)
    requires
        index < COMMAND_COUNT,
    ensures
        matching_commands(prefix).contains(index) <==> prefix.is_prefix_of(
            command_names()[index as int],
        ),
{
    let pred = |i: usize| prefix.is_prefix_of(command_names()[i as int]);
    let matches = matching_commands(prefix);
    if pred(index) {
        assert(command_indices()[index as int] == index);
        command_indices().lemma_filter_contains(pred, index as int);
    }
    if matches.contains(index) {
        let k = choose|k: int| 0 <= k < matches.len() && matches[k] == index;
        command_indices().lemma_filter_pred(pred, k);
    }
}

/// Only ASCII text is the beginning of a command.
pub proof fn law_matched_prefix_is_ascii(prefix: Seq<char>)
    requires
        matching_commands(prefix).len() > 0,
    ensures
        ascii(prefix),
{
    law_matches_are_commands_in_order(prefix);
    let index = matching_commands(prefix)[0];
    assert(matching_commands(prefix).contains(index));
    law_matches_are_those_with_prefix(prefix, index);
    lemma_names();
    let name = command_names()[index as int];
    assert forall|i: int| 0 <= i < prefix.len() implies (#[trigger] prefix[i] as u32) < 128 by {
        assert(prefix[i] == name.subrange(0, prefix.len() as int)[i]);
        assert((name[i] as u32) < 128);
    }
}

/// Typing on never brings a command back: what matches a longer prefix matches a shorter one too.
pub proof fn law_matches_narrow(prefix: Seq<char>, more: Seq<char>, index: usize)
    requires
        index < COMMAND_COUNT,
        matching_commands(prefix + more).contains(index),
    ensures
        matching_commands(prefix).contains(index),
{
    law_matches_are_those_with_prefix(prefix + more, index);
    law_matches_are_those_with_prefix(prefix, index);
    let name = command_names()[index as int];
    assert((prefix + more).subrange(0, prefix.len() as int) == prefix);
    assert(name.subrange(0, (prefix + more).len() as int).subrange(0, prefix.len() as int)
        == name.subrange(0, prefix.len() as int));
}

/// A slash, with which every command starts, picks out all of them.
pub proof fn law_slash_matches_all()
    ensures
        matching_commands("/"@) == command_indices(),
{
    lemma_names();
    let pred = |i: usize| "/"@.is_prefix_of(command_names()[i as int]);
    assert forall|k: int| 0 <= k < command_indices().len() implies pred(
        #[trigger] command_indices()[k],
    ) by {
        let name = command_names()[k];
        reveal_strlit("/");
        assert("/"@ == name.subrange(0, 1));
    }
    lemma_filter_all(command_indices(), pred);
}

/// Nothing typed leaves all commands.
pub proof fn law_nothing_matches_all()
    ensures
        matching_commands(Seq::empty()) == command_indices(),
{
    let pred = |i: usize| Seq::<char>::empty().is_prefix_of(command_names()[i as int]);
    assert forall|k: int| 0 <= k < command_indices().len() implies pred(
        #[trigger] command_indices()[k],
    ) by {
        assert(Seq::<char>::empty() == command_names()[k].subrange(0, 0));
    }
    lemma_filter_all(command_indices(), pred);
}

/// Every name is ASCII, starts with a slash, and ends in no whitespace.
pub proof fn lemma_names()
    ensures
        forall|k: int|
            0 <= k < COMMAND_COUNT ==> {
                let name = #[trigger] command_names()[k];
                &&& name.len() > 0
                &&& name[0] == '/'
                &&& !whitespace(name.last())
                &&& ascii(name)
            },
{
    reveal_strlit("/clear");
    reveal_strlit("/compact");
    reveal_strlit("/help");
    reveal_strlit("/model");
    reveal_strlit("/effort");
    reveal_strlit("/cost");
    reveal_strlit("/status");
    reveal_strlit("/context");
    reveal_strlit("/plan");
    reveal_strlit("/diff");
    reveal_strlit("/review");
    reveal_strlit("/explain");
    reveal_strlit("/retry");
    reveal_strlit("/undo");
    reveal_strlit("/resume");
    reveal_strlit("/export");
}

/// A filter that passes every element passes the whole sequence.
proof fn lemma_filter_all(s: Seq<usize>, pred: spec_fn(usize) -> bool)
    requires
        forall|k: int| 0 <= k < s.len() ==> pred(#[trigger] s[k]),
    ensures
        s.filter(pred) == s,
    decreases s.len(),
{
    reveal(Seq::filter);
    if s.len() > 0 {
        assert(s.last() == s[s.len() - 1]);
        assert forall|k: int| 0 <= k < s.drop_last().len() implies pred(
            #[trigger] s.drop_last()[k],
        ) by {
            assert(s.drop_last()[k] == s[k]);
        }
        lemma_filter_all(s.drop_last(), pred);
    }
}

/// A filter of a rising sequence rises, and goes no higher.
proof fn lemma_rising(s: Seq<usize>, pred: spec_fn(usize) -> bool)
    requires
        forall|j: int, k: int| 0 <= j < k < s.len() ==> #[trigger] s[j] < #[trigger] s[k],
    ensures
        s.filter(pred).len() <= s.len(),
        forall|k: int|
            0 <= k < s.filter(pred).len() ==> s.contains(#[trigger] s.filter(pred)[k]),
        forall|j: int, k: int|
            0 <= j < k < s.filter(pred).len() ==> #[trigger] s.filter(pred)[j]
                < #[trigger] s.filter(pred)[k],
    decreases s.len(),
{
    reveal(Seq::filter);
    if s.len() > 0 {
        let rest = s.drop_last();
        assert forall|j: int, k: int| 0 <= j < k < rest.len() implies #[trigger] rest[j]
            < #[trigger] rest[k] by {
            assert(rest[j] == s[j] && rest[k] == s[k]);
        }
        lemma_rising(rest, pred);
        let out = s.filter(pred);
        let kept = rest.filter(pred);
        assert forall|k: int| 0 <= k < kept.len() implies s.contains(#[trigger] kept[k])
            && kept[k] < s.last() by {
            let i = choose|i: int| 0 <= i < rest.len() && rest[i] == kept[k];
            assert(s[i] == kept[k]);
        }
        assert forall|k: int| 0 <= k < out.len() implies s.contains(#[trigger] out[k]) by {
            if k < kept.len() {
                assert(out[k] == kept[k]);
            } else {
                assert(s[s.len() - 1] == out[k]);
            }
        }
        assert forall|j: int, k: int| 0 <= j < k < out.len() implies #[trigger] out[j]
            < #[trigger] out[k] by {
            assert(out[j] == kept[j]);
            if k < kept.len() {
                assert(out[k] == kept[k]);
            }
        }
    }
}

/// The commands, each with what it does, in the order in which they are offered.
pub proof fn law_commands_and_what_they_do(index: int)
    requires
        0 <= index < 16,
    ensures
        command_names().len() == 16,
        command_descriptions().len() == 16,
        (command_names()[index], command_descriptions()[index]) == seq![
            ("/clear"@, "Start new conversation"@),
            ("/compact"@, "Compress conversation to save context"@),
            ("/help"@, "Show available commands"@),
            ("/model"@, "Switch AI model"@),
            ("/effort"@, "Set reasoning effort (low/medium/high/xhigh/max)"@),
            ("/cost"@, "Show token usage and cost"@),
            ("/status"@, "Show session info"@),
            ("/context"@, "Show context window usage"@),
            ("/plan"@, "Plan before writing code"@),
            ("/diff"@, "Show uncommitted changes"@),
            ("/review"@, "Review current diff"@),
            ("/explain"@, "Explain last response"@),
            ("/retry"@, "Retry last response"@),
            ("/undo"@, "Undo last file edit"@),
            ("/resume"@, "Resume prior session"@),
            ("/export"@, "Export conversation"@),
        ][index],
{
}

/// There are sixteen positions, from the first to the last.
pub proof fn law_positions_are_all_there()
    ensures
        command_indices().len() == 16,
        forall|i: int| 0 <= i < 16 ==> #[trigger] command_indices()[i] == i,
{
}

} // verus!
