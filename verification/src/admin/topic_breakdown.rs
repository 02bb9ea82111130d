use vstd::prelude::*;
use crate::admin::collapsible::{Collapsible, toggled};

verus! {

/// A level of a topic address: a name, or the wildcard that matches every name.
#[derive(Debug, Clone)]
pub enum TopicLiteral {
    Name(String),
    Wildcard,
}

/// What the topic breakdown reports.
#[derive(Debug, Clone)]
pub enum Message {
    /// Create a subtopic (name typed in), or a sub-subtopic of the named subtopic.
    CreateSubtopic(String, Option<String>),
    NewSubtopicNameChanged(String),
    /// Expand or collapse the whole breakdown (`None`) or one subtopic.
    ToggleBreakdown(Option<usize>),
    /// Sub-subtopic `1` of subtopic `0` was clicked.
    SubSubSelected(usize, usize),
}

/// The subtopics of a topic, each with its collapsible section and its sub-subtopics, the name
/// typed for a new subtopic and the selected sub-subtopic.
pub struct TopicBreakdown {
    pub breakdown_view: Collapsible,
    pub sub_breakdown_views: Vec<(String, Collapsible, Vec<String>)>,
    pub new_subtopic_name: String,
    pub subsub_selection: Option<(usize, usize)>,
}

/// The row that `set_data` makes of a subtopic and its sub-subtopics: the name, a collapsed
/// section titled with it, and the sub-subtopics.
pub open spec fn breakdown_row(d: (String, Vec<String>)) -> (String, Collapsible, Vec<String>) {
    (d.0, Collapsible { title: d.0, is_expanded: false }, d.1)
}

/// The name of a topic level; the wildcard has none.
pub open spec fn name_of(t: TopicLiteral) -> Seq<char> {
    match t {
        TopicLiteral::Name(s) => s@,
        TopicLiteral::Wildcard => Seq::empty(),
    }
}

/// Whether a subtopic named `name` matches `sub`.
pub open spec fn level_matches(name: String, sub: TopicLiteral) -> bool {
    match sub {
        TopicLiteral::Name(s) => name@ == s@,
        TopicLiteral::Wildcard => true,
    }
}

/// Whether `n` is a sub-subtopic of one of the first `k` rows whose subtopic matches `sub`.
pub open spec fn is_subsub_upto(rows: Seq<(String, Collapsible, Vec<String>)>, sub: TopicLiteral, n: Seq<char>, k: int) -> bool {
    exists|r: int, j: int|
        0 <= r < k && r < rows.len() && level_matches(rows[r].0, sub) && 0 <= j < rows[r].2@.len()
            && #[trigger] rows[r].2@[j]@ == n
}

/// Whether one of the first `j` strings of `b` is `n`.
pub open spec fn in_prefix(b: Seq<String>, n: Seq<char>, j: int) -> bool {
    exists|j2: int| 0 <= j2 < j && #[trigger] b[j2]@ == n
}

/// Every entry is a name.
pub open spec fn all_names(v: Seq<TopicLiteral>) -> bool {
    forall|i: int| 0 <= i < v.len() ==> #[trigger] v[i] is Name
}

/// No name occurs twice.
pub open spec fn distinct_names(v: Seq<TopicLiteral>) -> bool {
    forall|i: int, j: int| 0 <= i < j < v.len() ==> name_of(#[trigger] v[i]) != name_of(#[trigger] v[j])
}

/// Some entry has name `n`.
pub open spec fn has_name(v: Seq<TopicLiteral>, n: Seq<char>) -> bool {
    exists|i: int| 0 <= i < v.len() && #[trigger] name_of(v[i]) == n
}

/// Adds `Name(s)` unless a name equal to `s` is already there.
fn insert_name(topics: &mut Vec<TopicLiteral>, s: &String)
    requires
        all_names(old(topics)@),
        distinct_names(old(topics)@),
    ensures
        all_names(final(topics)@),
        distinct_names(final(topics)@),
        forall|n: Seq<char>| has_name(final(topics)@, n) <==> (has_name(old(topics)@, n) || n == s@),
{
    let mut i: usize = 0;
    while i < topics.len()
        invariant
            i <= topics@.len(),
            *topics == *old(topics),
            all_names(topics@),
            distinct_names(topics@),
            forall|i2: int| 0 <= i2 < i ==> name_of(#[trigger] topics@[i2]) != s@,
        decreases topics.len() - i,
    {
        match &topics[i] {
            TopicLiteral::Name(t) => {
                if t.eq(s) {
                    assert(name_of(topics@[i as int]) == s@);
                    assert forall|n: Seq<char>| has_name(topics@, n) <==> (has_name(old(topics)@, n) || n == s@) by {
                        if n == s@ {
                            assert(name_of(topics@[i as int]) == n);
                        }
                    }
                    return;
                }
            },
            TopicLiteral::Wildcard => {},
        }
        i = i + 1;
    }
    let ghost before = topics@;
    topics.push(TopicLiteral::Name(s.clone()));
    assert(topics@ == before.push(TopicLiteral::Name(*s)));
    assert(name_of(topics@[before.len() as int]) == s@);
    assert forall|n: Seq<char>| has_name(topics@, n) <==> (has_name(before, n) || n == s@) by {
        if has_name(before, n) {
            let w = choose|w: int| 0 <= w < before.len() && #[trigger] name_of(before[w]) == n;
            assert(name_of(topics@[w]) == n);
        }
        if n == s@ {
            assert(name_of(topics@[before.len() as int]) == n);
        }
        if has_name(topics@, n) && n != s@ {
            let w = choose|w: int| 0 <= w < topics@.len() && #[trigger] name_of(topics@[w]) == n;
            assert(w < before.len());
            assert(name_of(before[w]) == n);
        }
    }
}

impl TopicBreakdown {
    /// Whether `next` is the breakdown after `update(msg)` on `self`.
    pub open spec fn update_rel(self, msg: Message, next: Self) -> bool {
        match msg {
            Message::CreateSubtopic(_, _) => next == self,
            Message::NewSubtopicNameChanged(s) => next == (TopicBreakdown { new_subtopic_name: s, ..self }),
            Message::ToggleBreakdown(None) => next == (TopicBreakdown {
                breakdown_view: toggled(self.breakdown_view),
                ..self
            }),
            Message::ToggleBreakdown(Some(i)) => if i < self.sub_breakdown_views@.len() {
                let row = self.sub_breakdown_views@[i as int];
                &&& next.sub_breakdown_views@ == self.sub_breakdown_views@.update(i as int, (row.0, toggled(row.1), row.2))
                &&& next.breakdown_view == self.breakdown_view
                &&& next.new_subtopic_name == self.new_subtopic_name
                &&& next.subsub_selection == self.subsub_selection
            } else {
                next == self
            },
            Message::SubSubSelected(i, j) => next == (TopicBreakdown { subsub_selection: Some((i, j)), ..self }),
        }
    }

    /// Whether `next` is the breakdown after `set_data(data)` on `self`: one collapsed row per
    /// entry, in order, and the rest unchanged.
    pub open spec fn set_data_rel(self, data: Seq<(String, Vec<String>)>, next: Self) -> bool {
        &&& next.sub_breakdown_views@ == data.map_values(|d: (String, Vec<String>)| breakdown_row(d))
        &&& next.breakdown_view == self.breakdown_view
        &&& next.new_subtopic_name == self.new_subtopic_name
        &&& next.subsub_selection == self.subsub_selection
    }

    /// A collapsed breakdown titled `title`, with no subtopic and nothing selected.
    pub fn new(title: String) -> (b: Self)
        ensures
            b.breakdown_view == (Collapsible { title: title, is_expanded: false }),
            b.sub_breakdown_views@.len() == 0,
            b.new_subtopic_name@.len() == 0,
            b.subsub_selection is None,
    {
        Self {
            breakdown_view: Collapsible::new(title, false),
            sub_breakdown_views: Vec::new(),
            new_subtopic_name: String::new(),
            subsub_selection: None,
        }
    }

    /// Handles a message: the typed name, a toggle of the breakdown or of one subtopic (none for
    /// an index out of range), or a selection. Creation is left to the caller.
    pub fn update(&mut self, msg: Message)
        ensures
            old(self).update_rel(msg, *final(self)),
    {
        match msg {
            Message::CreateSubtopic(_, _) => {},
            Message::NewSubtopicNameChanged(s) => self.new_subtopic_name = s,
            Message::ToggleBreakdown(which) => match which {
                None => self.breakdown_view.toggle(),
                Some(i) => {
                    if i < self.sub_breakdown_views.len() {
                        let (name, mut c, subs) = self.sub_breakdown_views.remove(i);
                        c.toggle();
                        self.sub_breakdown_views.insert(i, (name, c, subs));
                        assert(self.sub_breakdown_views@ =~= old(self).sub_breakdown_views@.update(
                            i as int,
                            (old(self).sub_breakdown_views@[i as int].0, toggled(old(self).sub_breakdown_views@[i as int].1), old(self).sub_breakdown_views@[i as int].2),
                        ));
                    }
                },
            },
            Message::SubSubSelected(i, j) => self.subsub_selection = Some((i, j)),
        }
    }

    /// The sub-subtopics of the subtopics that `sub` matches (the one of that name, or all of
    /// them for the wildcard), each name once, in no promised order.
    pub fn subsubs(&self, sub: &TopicLiteral) -> (r: Vec<TopicLiteral>)
        ensures
            all_names(r@),
            distinct_names(r@),
            forall|n: Seq<char>|
                has_name(r@, n) <==> is_subsub_upto(self.sub_breakdown_views@, *sub, n, self.sub_breakdown_views@.len() as int),
    {
        let rows = &self.sub_breakdown_views;
        let mut topics: Vec<TopicLiteral> = Vec::new();
        let mut k: usize = 0;
        while k < rows.len()
            invariant
                k <= rows@.len(),
                all_names(topics@),
                distinct_names(topics@),
                forall|n: Seq<char>| has_name(topics@, n) <==> is_subsub_upto(rows@, *sub, n, k as int),
            decreases rows.len() - k,
        {
            let (a, _, b) = &rows[k];
            let take = match sub {
                TopicLiteral::Name(s) => a.eq(s),
                TopicLiteral::Wildcard => true,
            };
            assert(take == level_matches(rows@[k as int].0, *sub));
            let ghost before = topics@;
            if take {
                let mut j: usize = 0;
                while j < b.len()
                    invariant
                        k < rows@.len(),
                        j <= b@.len(),
                        b == rows@[k as int].2,
                        level_matches(rows@[k as int].0, *sub),
                        all_names(topics@),
                        distinct_names(topics@),
                        forall|n: Seq<char>| #![trigger has_name(topics@, n)]
                            has_name(topics@, n) <==> (has_name(before, n) || in_prefix(b@, n, j as int)),
                    decreases b.len() - j,
                {
                    let ghost t0 = topics@;
                    let ghost j0 = j as int;
                    insert_name(&mut topics, &b[j]);
                    j = j + 1;
                    assert forall|n: Seq<char>| #![trigger has_name(topics@, n)]
                        has_name(topics@, n) <==> (has_name(before, n) || in_prefix(b@, n, j as int)) by {
                        assert(has_name(t0, n) <==> (has_name(before, n) || in_prefix(b@, n, j0)));
                        assert(has_name(topics@, n) <==> (has_name(t0, n) || n == b@[j0]@));
                        if in_prefix(b@, n, j as int) {
                            let w = choose|j2: int| 0 <= j2 < j && #[trigger] b@[j2]@ == n;
                            if w < j0 {
                                assert(in_prefix(b@, n, j0));
                            } else {
                                assert(n == b@[j0]@);
                            }
                        }
                        if in_prefix(b@, n, j0) {
                            let w = choose|j2: int| 0 <= j2 < j0 && #[trigger] b@[j2]@ == n;
                            assert(b@[w]@ == n);
                        }
                        if n == b@[j0]@ {
                            assert(b@[j0]@ == n);
                        }
                    }
                }
                assert(forall|n: Seq<char>| has_name(topics@, n) <==> (has_name(before, n) || in_prefix(b@, n, b@.len() as int)));
            }
            assert forall|n: Seq<char>| has_name(topics@, n) <==> is_subsub_upto(rows@, *sub, n, k + 1) by {
                assert(has_name(before, n) <==> is_subsub_upto(rows@, *sub, n, k as int));
                if is_subsub_upto(rows@, *sub, n, k + 1) {
                    let (r, j2) = choose|r: int, j2: int|
                        0 <= r < k + 1 && r < rows@.len() && level_matches(rows@[r].0, *sub) && 0 <= j2 < rows@[r].2@.len()
                            && #[trigger] rows@[r].2@[j2]@ == n;
                    if r < k {
                        assert(is_subsub_upto(rows@, *sub, n, k as int));
                    } else {
                        assert(b@[j2]@ == n);
                    }
                }
                if is_subsub_upto(rows@, *sub, n, k as int) {
                    let (r, j2) = choose|r: int, j2: int|
                        0 <= r < k && r < rows@.len() && level_matches(rows@[r].0, *sub) && 0 <= j2 < rows@[r].2@.len()
                            && #[trigger] rows@[r].2@[j2]@ == n;
                    assert(rows@[r].2@[j2]@ == n);
                }
                if take && in_prefix(b@, n, b@.len() as int) {
                    let w = choose|j2: int| 0 <= j2 < b@.len() && #[trigger] b@[j2]@ == n;
                    assert(rows@[k as int].2@[w]@ == n);
                }
                if take && is_subsub_upto(rows@, *sub, n, k + 1) && !is_subsub_upto(rows@, *sub, n, k as int) {
                    let (r, j2) = choose|r: int, j2: int|
                        0 <= r < k + 1 && r < rows@.len() && level_matches(rows@[r].0, *sub) && 0 <= j2 < rows@[r].2@.len()
                            && #[trigger] rows@[r].2@[j2]@ == n;
                    assert(r == k);
                    assert(b@[j2]@ == n);
                    assert(in_prefix(b@, n, b@.len() as int));
                }
            }
            k = k + 1;
        }
        topics
    }

    /// The selected sub-subtopic as (subtopic, sub-subtopic), if the selection is in range.
    pub fn selected_topic(&self) -> (r: Option<(TopicLiteral, TopicLiteral)>)
        ensures
            match self.subsub_selection {
                None => r is None,
                Some((i, j)) => if i < self.sub_breakdown_views@.len() && j < self.sub_breakdown_views@[i as int].2@.len() {
                    r == Some((
                        TopicLiteral::Name(self.sub_breakdown_views@[i as int].0),
                        TopicLiteral::Name(self.sub_breakdown_views@[i as int].2@[j as int]),
                    ))
                } else {
                    r is None
                },
            },
    {
        let (i, j) = match self.subsub_selection {
            Some(sel) => sel,
            None => {
                return None;
            },
        };
        if i >= self.sub_breakdown_views.len() {
            return None;
        }
        let (name, _, subs) = &self.sub_breakdown_views[i];
        if j >= subs.len() {
            return None;
        }
        Some((TopicLiteral::Name(name.clone()), TopicLiteral::Name(subs[j].clone())))
    }

    /// Replaces the subtopics: one collapsed row per (subtopic, sub-subtopics) entry, in order.
    pub fn set_data(&mut self, data: Vec<(String, Vec<String>)>)
        ensures
            old(self).set_data_rel(data@, *final(self)),
    {
        let mut data = data;
        let ghost d0 = data@;
        self.sub_breakdown_views.clear();
        while data.len() > 0
            invariant
                self.sub_breakdown_views@.len() + data@.len() == d0.len(),
                data@ == d0.skip(self.sub_breakdown_views@.len() as int),
                self.sub_breakdown_views@ == d0.take(self.sub_breakdown_views@.len() as int).map_values(
                    |d: (String, Vec<String>)| breakdown_row(d),
                ),
                self.breakdown_view == old(self).breakdown_view,
                self.new_subtopic_name == old(self).new_subtopic_name,
                self.subsub_selection == old(self).subsub_selection,
            decreases data.len(),
        {
            let ghost n: int = self.sub_breakdown_views@.len() as int;
            let (s, ss) = data.remove(0);
            self.sub_breakdown_views.push((s.clone(), Collapsible::new(s, false), ss));
            assert(data@ =~= d0.skip(n + 1));
            assert(d0.take(n + 1) =~= d0.take(n).push(d0[n]));
            assert(self.sub_breakdown_views@ =~= d0.take(n + 1).map_values(|d: (String, Vec<String>)| breakdown_row(d)));
        }
        assert(d0.take(d0.len() as int) =~= d0);
    }
}

} // verus!
