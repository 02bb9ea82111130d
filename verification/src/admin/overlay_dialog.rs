use vstd::prelude::*;

verus! {

/// What an overlay dialog reports: it was closed, or a message of its body.
#[derive(Debug, Clone)]
pub enum Message<M> {
    Close,
    Dialog(M),
}

/// A titled dialog shown over the main view, holding the widget it shows.
pub struct OverlayDialog<B> {
    pub title: String,
    pub body: B,
}

impl<B> OverlayDialog<B> {
    /// A dialog titled `title` showing `body`.
    pub fn new(title: String, body: B) -> (d: Self)
        ensures
            d.title == title,
            d.body == body,
    {
        Self { title, body }
    }

    /// Applies `update_func` to the body and returns what it returns.
    pub fn update<F, R>(&mut self, update_func: F) -> (r: R)
        where
            F: FnOnce(&mut B) -> R,
        requires
            forall|b: &mut B| #[trigger] call_requires(update_func, (b,)),
        ensures
            final(self).title == old(self).title,
            exists|b: &mut B|
                *b == old(self).body && *final(b) == final(self).body && #[trigger] call_ensures(update_func, (b,), r),
    {
        update_func(&mut self.body)
    }

    /// Closes the dialog, giving back its body.
    pub fn close(self) -> (b: B)
        ensures
            b == self.body,
    {
        self.body
    }
}

} // verus!
