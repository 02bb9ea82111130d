use vstd::prelude::*;
use crate::admin::queue_selector::{copy_literal, Message, QueueFilter, QueueId, QueueSelector};
use crate::admin::topic_breakdown::{
    all_names, distinct_names, has_name, is_subsub_upto, TopicBreakdown, TopicLiteral,
};

verus! {

/// Selects a topic of the queue `name`: its breakdown into subtopics, the options offered for the
/// subtopic and the sub-subtopic filter, and the levels chosen so far.
pub struct TopicSelector {
    pub name: String,
    pub breakdown_view: TopicBreakdown,
    pub new_filter_options: (Vec<TopicLiteral>, Vec<TopicLiteral>),
    pub new_filter_selection: (Option<TopicLiteral>, Option<TopicLiteral>),
}

/// The wildcard followed by a name for each subtopic of `data`, in order.
pub open spec fn subtopic_options(data: Seq<(String, Vec<String>)>) -> Seq<TopicLiteral> {
    seq![TopicLiteral::Wildcard] + data.map_values(|e: (String, Vec<String>)| TopicLiteral::Name(e.0))
}

/// Options for the second level after `choice` is picked for the first: the wildcard, then each
/// sub-subtopic of the matching subtopics once.
pub open spec fn subsub_options(b: TopicBreakdown, choice: TopicLiteral, options: Seq<TopicLiteral>) -> bool {
    let rest = options.skip(1);
    let rows = b.sub_breakdown_views@;
    &&& options.len() >= 1
    &&& options[0] is Wildcard
    &&& all_names(rest)
    &&& distinct_names(rest)
    &&& forall|n: Seq<char>| has_name(rest, n) <==> is_subsub_upto(rows, choice, n, rows.len() as int)
}

impl TopicSelector {
    /// A selector for the topic `name` with an empty breakdown titled "Breakdown", no option and
    /// nothing chosen.
    pub open spec fn is_fresh(self, name: String) -> bool {
        &&& self.name == name
        &&& self.breakdown_view.breakdown_view.title@ == "Breakdown"@
        &&& !self.breakdown_view.breakdown_view.is_expanded
        &&& self.breakdown_view.sub_breakdown_views@.len() == 0
        &&& self.breakdown_view.new_subtopic_name@.len() == 0
        &&& self.breakdown_view.subsub_selection is None
        &&& self.new_filter_options.0@.len() == 0 && self.new_filter_options.1@.len() == 0
        &&& self.new_filter_selection == (None::<TopicLiteral>, None::<TopicLiteral>)
    }

    /// A selector for the topic `name` with an empty breakdown titled "Breakdown", no option and
    /// nothing chosen.
    pub fn new(name: String) -> (s: Self)
        ensures
            s.is_fresh(name),
    {
        Self {
            name,
            breakdown_view: TopicBreakdown::new("Breakdown".to_owned()),
            new_filter_options: (Vec::new(), Vec::new()),
            new_filter_selection: (None, None),
        }
    }
}

impl QueueSelector for TopicSelector {
    open spec fn update_rel(self, message: Message, next: Self) -> bool {
        match message {
            Message::SubtopicCreateSelectionChanged0(choice) => {
                &&& next.name == self.name
                &&& next.breakdown_view == self.breakdown_view
                &&& next.new_filter_options.0 == self.new_filter_options.0
                &&& subsub_options(self.breakdown_view, choice, next.new_filter_options.1@)
                &&& next.new_filter_selection == (Some(choice), None::<TopicLiteral>)
            },
            Message::SubtopicCreateSelectionChanged1(choice) => next == (TopicSelector {
                new_filter_selection: (self.new_filter_selection.0, Some(choice)),
                ..self
            }),
            Message::BreakdownMessage(msg) => {
                &&& self.breakdown_view.update_rel(msg, next.breakdown_view)
                &&& next == (TopicSelector { breakdown_view: next.breakdown_view, ..self })
            },
            Message::BreakdownLoaded(None) => next == self,
            Message::BreakdownLoaded(Some(data)) => {
                &&& next.name == self.name
                &&& next.new_filter_options.0@ == subtopic_options(data@)
                &&& next.new_filter_options.1@ == seq![TopicLiteral::Wildcard]
                &&& self.breakdown_view.set_data_rel(data@, next.breakdown_view)
                &&& next.new_filter_selection == self.new_filter_selection
            },
            Message::CreateSubtopic(_, _) => next == self,
        }
    }

    /// A topic address once both levels are names.
    open spec fn selected_spec(self) -> Option<QueueId> {
        match self.new_filter_selection {
            (Some(TopicLiteral::Name(f1)), Some(TopicLiteral::Name(f2))) => Some(QueueId::Topic(self.name, f1, f2)),
            _ => None,
        }
    }

    /// The topic with each level as chosen, the wildcard where nothing is.
    open spec fn selected_filter_spec(self) -> QueueFilter {
        let f1 = match self.new_filter_selection.0 {
            None => TopicLiteral::Wildcard,
            Some(lit) => lit,
        };
        let f2 = match self.new_filter_selection.1 {
            None => TopicLiteral::Wildcard,
            Some(lit) => lit,
        };
        QueueFilter::Topic(self.name, f1, f2)
    }

    fn update(&mut self, message: Message) {
        match message {
            Message::SubtopicCreateSelectionChanged0(choice) => {
                let topics = self.breakdown_view.subsubs(&choice);
                let mut items = vec![TopicLiteral::Wildcard];
                let mut topics = topics;
                let total = topics.len();
                let ghost t0 = topics@;
                let mut i: usize = 0;
                while topics.len() > 0
                    invariant
                        t0.len() == total,
                        items@.len() >= 1,
                        items@[0] is Wildcard,
                        items@.len() == 1 + i,
                        i + topics@.len() == t0.len(),
                        items@.skip(1) == t0.take(i as int),
                        topics@ == t0.skip(i as int),
                    decreases topics.len(),
                {
                    let t = topics.remove(0);
                    items.push(t);
                    assert(items@.skip(1) =~= t0.take(i + 1));
                    assert(topics@ =~= t0.skip(i + 1));
                    i = i + 1;
                }
                assert(items@.skip(1) =~= t0);
                self.new_filter_options.1 = items;
                self.new_filter_selection = (Some(choice), None);
            },
            Message::SubtopicCreateSelectionChanged1(choice) => {
                self.new_filter_selection.1 = Some(choice);
            },
            Message::BreakdownMessage(msg) => self.breakdown_view.update(msg),
            Message::BreakdownLoaded(breakdown) => {
                if let Some(data) = breakdown {
                    let mut items = vec![TopicLiteral::Wildcard];
                    let mut i: usize = 0;
                    while i < data.len()
                        invariant
                            i <= data@.len(),
                            items@ == subtopic_options(data@.take(i as int)),
                        decreases data.len() - i,
                    {
                        items.push(TopicLiteral::Name(data[i].0.clone()));
                        assert(data@.take(i + 1) =~= data@.take(i as int).push(data@[i as int]));
                        assert(items@ =~= subtopic_options(data@.take(i + 1)));
                        i = i + 1;
                    }
                    assert(data@.take(data@.len() as int) =~= data@);
                    self.new_filter_options = (items, vec![TopicLiteral::Wildcard]);
                    self.breakdown_view.set_data(data);
                    assert(self.new_filter_options.0@ == subtopic_options(data@));
                    assert(self.new_filter_options.1@ == seq![TopicLiteral::Wildcard]);
                    assert(old(self).breakdown_view.set_data_rel(data@, self.breakdown_view));

                }
            },
            Message::CreateSubtopic(_, _) => {},
        }
    }

    fn selected(&self) -> (r: Option<QueueId>) {
        match &self.new_filter_selection {
            (Some(TopicLiteral::Name(f1)), Some(TopicLiteral::Name(f2))) => {
                Some(QueueId::Topic(self.name.clone(), f1.clone(), f2.clone()))
            },
            _ => None,
        }
    }

    fn selected_filter(&self) -> (r: QueueFilter) {
        let f1 = match &self.new_filter_selection.0 {
            None => TopicLiteral::Wildcard,
            Some(lit) => copy_literal(lit),
        };
        let f2 = match &self.new_filter_selection.1 {
            None => TopicLiteral::Wildcard,
            Some(lit) => copy_literal(lit),
        };
        QueueFilter::Topic(self.name.clone(), f1, f2)
    }
}

} // verus!
