//! Tells the chat of new defense fissures on the maps that are best for
//! arbitrations.

use vstd::prelude::*;
use crate::listener::placeholders::{Difficulty, ListenerPlaceholder, Node};
use crate::listener::{Change, Fissure, MapTier, MissionType};
use crate::placeholder::{rendered, ChannelName};
use crate::state::listener_response;
use crate::text::{chars_of, find, matches_at, occurs_at, occurs_in};

verus! {

/// What stands between a node and its planet in a label: a space and an
/// opening bracket.
pub open spec fn planet_mark() -> Seq<char> {
    seq![' ', '(']
}

/// Whether the node of a label stands from `from` up to `to`.
///
/// `to` is the position of a planet mark and `from` the start of the line
/// that the mark stands on. The line is the first one of the label that
/// holds a mark, and the mark is the last one on that line, so a node may
/// itself hold a space and a bracket. Lines end with a line feed.
pub open spec fn node_span(label: Seq<char>, from: int, to: int) -> bool {
    &&& 0 <= from <= to
    &&& occurs_at(label, planet_mark(), to)
    &&& (from == 0 || label[from - 1] == '\n')
    &&& forall|k: int| from <= k < to ==> label[k] != '\n'
    &&& forall|j: int| 0 <= j < from ==> !occurs_at(label, planet_mark(), j)
    &&& forall|j: int|
        to < j && occurs_at(label, planet_mark(), j) ==> exists|k: int|
            to <= k < j && label[k] == '\n'
}

/// A label has one span for its node at most.
pub proof fn lemma_node_span_unique(label: Seq<char>, from: int, to: int, from2: int, to2: int)
    requires
        node_span(label, from, to),
        node_span(label, from2, to2),
    ensures
        from == from2,
        to == to2,
{
    assert(label[to] == ' ') by {
        assert(label.subrange(to, to + 2)[0] == planet_mark()[0]);
    }
    assert(label[to2] == ' ') by {
        assert(label.subrange(to2, to2 + 2)[0] == planet_mark()[0]);
    }
    // Each mark stands at or behind the start of the other span's line.
    assert(from2 <= to);
    assert(from <= to2);
    if from < from2 {
        // from2 - 1 holds a line feed and lies on the first span's line or
        // behind its mark.
        if from2 - 1 < to {
            assert(label[from2 - 1] != '\n');
        } else {
            assert(to < to2);
            let k = choose|k: int| to <= k < to2 && label[k] == '\n';
            assert(from2 <= k < to2);
        }
        assert(false);
    }
    if from2 < from {
        if from - 1 < to2 {
            assert(label[from - 1] != '\n');
        } else {
            assert(to2 < to);
            let k = choose|k: int| to2 <= k < to && label[k] == '\n';
            assert(from <= k < to);
        }
        assert(false);
    }
    if to < to2 {
        let k = choose|k: int| to <= k < to2 && label[k] == '\n';
        assert(from2 <= k < to2);
        assert(false);
    }
    if to2 < to {
        let k = choose|k: int| to2 <= k < to && label[k] == '\n';
        assert(from <= k < to);
        assert(false);
    }
}

/// The node of a label of the form `Node (Planet)`: what stands before the
/// planet mark. A label without a mark has no node.
pub fn extract_node(node: &str) -> (name: Option<&str>)
    ensures
        match name {
            None => !occurs_in(node@, planet_mark()),
            Some(name) => exists|from: int, to: int|
                node_span(node@, from, to) && name@ == node@.subrange(from, to),
        },
{
    let label = chars_of(node);
    let mut mark: Vec<char> = Vec::new();
    mark.push(' ');
    mark.push('(');
    assert(mark@ =~= planet_mark());
    let first = match find(label.as_slice(), mark.as_slice()) {
        Some(first) => first,
        None => {
            return None;
        },
    };
    let mut from: usize = first;
    while from > 0 && label[from - 1] != '\n'
        invariant
            from <= first < label.len(),
            forall|k: int| from <= k < first ==> label@[k] != '\n',
        decreases from,
    {
        from -= 1;
    }
    let mut to: usize = first;
    let mut next: usize = first + 1;
    assert(label@[first as int] == ' ') by {
        assert(label@.subrange(first as int, first + 2)[0] == planet_mark()[0]);
    }
    while next < label.len() && label[next] != '\n'
        invariant
            from <= first <= to < next <= label.len(),
            mark@ == planet_mark(),
            occurs_at(label@, planet_mark(), to as int),
            forall|k: int| from <= k < next ==> label@[k] != '\n',
            forall|j: int| to < j < next ==> !occurs_at(label@, planet_mark(), j),
        decreases label.len() - next,
    {
        if matches_at(label.as_slice(), mark.as_slice(), next) {
            to = next;
        }
        next += 1;
    }
    proof {
        assert forall|j: int| to < j && occurs_at(label@, planet_mark(), j) implies exists|k: int|
            to <= k < j && label@[k] == '\n' by {
            assert(label@[j] == ' ') by {
                assert(label@.subrange(j, j + 2)[0] == planet_mark()[0]);
            }
            assert(next < label.len() && label@[next as int] == '\n');
            assert(to <= next < j);
        }
        assert(node_span(node@, from as int, to as int));
    }
    Some(node.substring_char(from, to))
}

/// The listener for fissures on the best arbitration maps.
pub struct MetaRelicsListener;

impl MetaRelicsListener {
    /// The node whose rank decides whether a change of the fissures is
    /// told: that of a defense fissure that has been added. Any other
    /// change is not told, whatever the rank.
    pub fn ranked_node<'a>(fissure: &'a Fissure, change: Change) -> (node: Option<&'a str>)
        ensures
            match node {
                None => change != Change::Added || fissure.mission_key != MissionType::Defense
                    || !occurs_in(fissure.node_key@, planet_mark()),
                Some(name) => change == Change::Added && fissure.mission_key
                    == MissionType::Defense && exists|from: int, to: int|
                    node_span(fissure.node_key@, from, to) && name@ == fissure.node_key@.subrange(
                        from,
                        to,
                    ),
            },
    {
        let added = match change {
            Change::Added => true,
            Change::Removed => false,
        };
        let defense = match fissure.mission_key {
            MissionType::Defense => true,
            _ => false,
        };
        if !added || !defense {
            return None;
        }
        // fissure.node_key contains a formatted node, including the planet.
        // The ranking expects just the node name
        extract_node(fissure.node_key.as_str())
    }

    /// Whether a map of this rank is worth telling.
    pub open spec fn worth_telling(tier: Option<MapTier>) -> bool {
        tier == Some(MapTier::S) || tier == Some(MapTier::A)
    }

    /// What is said of a fissure whose node has the given rank: the
    /// message with the node and the difficulty where the rank is `S` or
    /// `A`, nothing for a lower rank or a node without a rank.
    pub fn message(fissure: &Fissure, tier: Option<MapTier>, format: &str, channel_name: &ChannelName) -> (message:
        Option<String>)
        ensures
            message is Some <==> Self::worth_telling(tier),
            message matches Some(text) ==> text@ == rendered(
                rendered(
                    format@,
                    seq![
                        ("{node}"@, fissure.node@),
                        ("{difficulty}"@, if fissure.is_hard {
                            "Steel Path"@
                        } else {
                            "Normal"@
                        }),
                    ],
                ),
                seq![("{channel_name}"@, channel_name.0@)],
            ),
    {
        match tier {
            Some(MapTier::S) | Some(MapTier::A) => {
                let mut placeholders: Vec<ListenerPlaceholder> = Vec::new();
                placeholders.push(ListenerPlaceholder::Node(Node(fissure.node.as_str())));
                placeholders.push(
                    ListenerPlaceholder::Difficulty(Difficulty { is_hard: fissure.is_hard }),
                );
                assert(crate::placeholder::pairs_of(placeholders@) =~= seq![
                    ("{node}"@, fissure.node@),
                    ("{difficulty}"@, if fissure.is_hard {
                        "Steel Path"@
                    } else {
                        "Normal"@
                    }),
                ]);
                Some(listener_response(format, channel_name, placeholders.as_slice()))
            },
            _ => None,
        }
    }
}

} // verus!
