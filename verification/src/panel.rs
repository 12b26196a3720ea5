//! A floating panel around an inner widget, hidden while a preview is shown.

use vstd::prelude::*;

verus! {

/// A wrapper around control elements, drawn as a floating panel; it hides itself
/// while the editor shows a temporary preview.
pub struct FloatingPanel<W> {
    hide_panel: bool,
    inner: W,
}

impl<W> FloatingPanel<W> {
    /// Whether the panel is hidden.
    pub closed spec fn hidden(&self) -> bool {
        self.hide_panel
    }

    /// The wrapped widget.
    pub closed spec fn inner_spec(&self) -> W {
        self.inner
    }

    /// A shown panel around `inner`.
    pub fn new(inner: W) -> (r: Self)
        ensures
            !r.hidden(),
            r.inner_spec() == inner,
    {
        FloatingPanel { hide_panel: false, inner }
    }

    /// The wrapped widget.
    pub fn inner(&self) -> (r: &W)
        ensures
            *r == self.inner_spec(),
    {
        &self.inner
    }

    /// The wrapped widget, for handing events on to it.
    pub fn inner_mut(&mut self) -> (r: &mut W)
        ensures
            *r == old(self).inner_spec(),
            final(self).inner_spec() == *final(r),
            final(self).hidden() == old(self).hidden(),
    {
        &mut self.inner
    }

    /// Whether the panel is hidden (and so draws nothing).
    pub fn is_hidden(&self) -> (r: bool)
        ensures
            r == self.hidden(),
    {
        self.hide_panel
    }

    /// The editor enters or leaves a temporary preview: the panel hides while it lasts.
    pub fn set_preview(&mut self, in_temporary_preview: bool)
        ensures
            final(self).hidden() == in_temporary_preview,
            final(self).inner_spec() == old(self).inner_spec(),
    {
        self.hide_panel = in_temporary_preview;
    }
}

} // verus!
