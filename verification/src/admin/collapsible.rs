use vstd::prelude::*;

verus! {

/// What a collapsible section reports: its header was clicked, or a message of its body.
#[derive(Debug, Clone, Copy)]
pub enum Message<B> {
    Toggle,
    Body(B),
}

/// A titled section that shows its body only when expanded.
pub struct Collapsible {
    pub title: String,
    pub is_expanded: bool,
}

/// The section with its body shown if it was hidden and hidden if it was shown.
pub open spec fn toggled(c: Collapsible) -> Collapsible {
    Collapsible { is_expanded: !c.is_expanded, ..c }
}

impl Collapsible {
    /// A section titled `title`, expanded or not.
    pub fn new(title: String, is_expanded: bool) -> (c: Self)
        ensures
            c.title == title,
            c.is_expanded == is_expanded,
    {
        Self { title, is_expanded }
    }

    /// Shows a hidden body, hides a shown one.
    pub fn toggle(&mut self)
        ensures
            *final(self) == toggled(*old(self)),
    {
        self.is_expanded = !self.is_expanded;
    }
}

/// Toggling twice gives the section back as it was.
pub proof fn lemma_toggle_twice(c: Collapsible)
    ensures
        toggled(toggled(c)) == c,
{
}

} // verus!
