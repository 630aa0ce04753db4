//! The suggestion popup under a form's description field.

use crate::ids::AccountId;
use crate::money::Cents;
use vstd::prelude::*;

verus! {

/// A description typed before, and what it was last written with.
#[derive(Debug)]
pub struct Suggestion {
    pub description: String,
    pub account_id: AccountId,
    pub cents: Cents,
    pub uses: i64,
}

impl Clone for Suggestion {
    fn clone(&self) -> (copy: Suggestion)
        ensures
            copy == *self,
    {
        Suggestion {
            description: self.description.clone(),
            account_id: self.account_id,
            cents: self.cents,
            uses: self.uses,
        }
    }
}

/// The popup's state: what the query returned for the description typed so
/// far, which row the arrows are on, and how many of those rows the last draw
/// actually fitted on screen.
///
/// **What is drawn is what is selectable.** The popup hangs below a form that
/// is centered in the terminal, so on a short window the list is clipped, and
/// a cursor free to roam the whole list would let `Enter` apply a suggestion
/// the user never saw. `set_visible` is how the draw reports what it managed
/// to fit, and `next`, `previous` and `selected` are confined to that.
#[derive(Debug)]
pub struct Autocomplete {
    suggestions: Vec<Suggestion>,
    selected: usize,
    visible: usize,
}

/// What an [`Autocomplete`] stands for: the suggestions, the row the arrows
/// are on, and how many rows are on screen.
#[verifier::ext_equal]
pub struct PopupView {
    pub suggestions: Seq<Suggestion>,
    pub selected: int,
    pub visible: int,
}

impl PopupView {
    /// No more rows are drawn than there are suggestions, and the cursor is
    /// on a drawn row, or at the top when none is.
    pub open spec fn confined(self) -> bool {
        &&& 0 <= self.visible <= self.suggestions.len()
        &&& 0 <= self.selected
        &&& self.selected < self.visible || self.selected == 0
    }

    pub open spec fn closed() -> PopupView {
        PopupView { suggestions: Seq::empty(), selected: 0, visible: 0 }
    }

    /// The suggestion under the cursor, when any row is on screen.
    pub open spec fn chosen(self) -> Option<Suggestion> {
        if self.visible == 0 {
            None
        } else {
            Some(self.suggestions[self.selected])
        }
    }

    /// The row after this one, coming round to the top past the last drawn.
    pub open spec fn after(self) -> PopupView {
        if self.selected + 1 < self.visible {
            PopupView { selected: self.selected + 1, ..self }
        } else {
            PopupView { selected: 0, ..self }
        }
    }

    /// The row before this one, coming round to the last drawn from the top.
    pub open spec fn before(self) -> PopupView {
        if self.visible == 0 {
            self
        } else if self.selected == 0 {
            PopupView { selected: self.visible - 1, ..self }
        } else {
            PopupView { selected: self.selected - 1, ..self }
        }
    }

    /// The popup once a draw fitted `rows` rows.
    pub open spec fn drawn(self, rows: int) -> PopupView {
        let visible = if rows <= self.suggestions.len() {
            rows
        } else {
            self.suggestions.len() as int
        };
        PopupView {
            selected: if self.selected < visible {
                self.selected
            } else if visible > 0 {
                visible - 1
            } else {
                0
            },
            visible,
            ..self
        }
    }
}

impl View for Autocomplete {
    type V = PopupView;

    closed spec fn view(&self) -> PopupView {
        PopupView {
            suggestions: self.suggestions@,
            selected: self.selected as int,
            visible: self.visible as int,
        }
    }
}

impl Autocomplete {
    /// How many suggestions to ask for and show.
    pub const LIMIT: i64 = 5;

    #[verifier::type_invariant]
    spec fn on_a_drawn_row(self) -> bool {
        self@.confined()
    }

    /// Replace the list, resetting the cursor to the top.
    ///
    /// Reset rather than preserved: each keystroke re-queries, so a carried
    /// selection would point at whichever unrelated description happened to
    /// land at that index.
    ///
    /// The new list counts as fully visible until the next draw says
    /// otherwise.
    pub fn set(&mut self, suggestions: Vec<Suggestion>)
        ensures
            final(self)@ == (PopupView {
                suggestions: suggestions@,
                selected: 0,
                visible: suggestions@.len() as int,
            }),
    {
        let visible: usize = suggestions.len();
        *self = Autocomplete { suggestions, selected: 0, visible };
    }

    pub fn clear(&mut self)
        ensures
            final(self)@ == PopupView::closed(),
    {
        *self = Autocomplete { suggestions: Vec::new(), selected: 0, visible: 0 };
    }

    /// Record how many suggestion rows the draw just fitted, pulling the
    /// cursor back onto them if the window shrank underneath it.
    pub fn set_visible(&mut self, visible: usize)
        ensures
            final(self)@ == old(self)@.drawn(visible as int),
    {
        proof {
            use_type_invariant(&*self);
        }
        let len: usize = self.suggestions.len();
        let shown: usize = if visible <= len {
            visible
        } else {
            len
        };
        let last: usize = shown.saturating_sub(1);
        if last < self.selected {
            self.selected = last;
        }
        self.visible = shown;
    }

    /// Whether there is anything to draw. Deliberately *not* what decides
    /// whether keys are captured: were this to fold in the visible count, a
    /// frame that fitted nothing would latch the popup shut and it could
    /// never draw again.
    pub fn is_open(&self) -> (open: bool)
        ensures
            open == (self@.suggestions.len() > 0),
    {
        self.suggestions.len() > 0
    }

    /// How many rows the last draw fitted, and therefore how many can be
    /// selected. Zero means the popup captures no keys at all.
    pub fn visible(&self) -> (visible: usize)
        ensures
            visible == self@.visible,
            self@.confined(),
    {
        proof {
            use_type_invariant(self);
        }
        self.visible
    }

    pub fn suggestions(&self) -> (suggestions: &[Suggestion])
        ensures
            suggestions@ == self@.suggestions,
    {
        self.suggestions.as_slice()
    }

    pub fn selected_index(&self) -> (index: usize)
        ensures
            index == self@.selected,
            self@.confined(),
    {
        proof {
            use_type_invariant(self);
        }
        self.selected
    }

    pub fn selected(&self) -> (hit: Option<&Suggestion>)
        ensures
            match hit {
                Some(suggestion) => self@.chosen() == Some(*suggestion),
                None => self@.chosen() is None,
            },
    {
        proof {
            use_type_invariant(self);
        }
        if self.visible == 0 {
            return None;
        }
        Some(&self.suggestions[self.selected])
    }

    pub fn next(&mut self)
        ensures
            final(self)@ == old(self)@.after(),
    {
        proof {
            use_type_invariant(&*self);
        }
        if self.visible == 0 {
            return ;
        }
        self.selected = if self.selected + 1 < self.visible {
            self.selected + 1
        } else {
            0
        };
    }

    pub fn previous(&mut self)
        ensures
            final(self)@ == old(self)@.before(),
    {
        proof {
            use_type_invariant(&*self);
        }
        if self.visible == 0 {
            return ;
        }
        self.selected = if self.selected == 0 {
            self.visible - 1
        } else {
            self.selected - 1
        };
    }
}

impl Clone for Autocomplete {
    fn clone(&self) -> (copy: Autocomplete)
        ensures
            copy@ == self@,
    {
        proof {
            use_type_invariant(self);
        }
        let suggestions: Vec<Suggestion> = self.suggestions.clone();
        proof {
            assert(suggestions@ =~= self.suggestions@);
        }
        Autocomplete { suggestions, selected: self.selected, visible: self.visible }
    }
}

impl Default for Autocomplete {
    fn default() -> (popup: Autocomplete)
        ensures
            popup@ == PopupView::closed(),
    {
        Autocomplete { suggestions: Vec::new(), selected: 0, visible: 0 }
    }
}

/// Going one way and back again returns to the same row.
pub proof fn arrows_undo_each_other(popup: PopupView)
    requires
        popup.confined(),
    ensures
        popup.after().before() == popup,
        popup.before().after() == popup,
{
}

/// However the popup is driven, the suggestion `Enter` would apply is one the
/// last draw put on screen.
pub proof fn the_cursor_never_leaves_the_drawn_rows(popup: PopupView, rows: int)
    requires
        popup.confined(),
        rows >= 0,
    ensures
        popup.after().confined(),
        popup.before().confined(),
        popup.drawn(rows).confined(),
        popup.drawn(rows).visible <= rows,
        popup.after().visible == popup.visible,
        popup.before().visible == popup.visible,
{
}

/// A draw keeps the cursor on its row where that row is drawn, and otherwise
/// puts it on the last that is; no more is drawn than there is.
pub proof fn a_draw_keeps_the_cursor_on_screen(popup: PopupView, rows: int)
    requires
        popup.confined(),
        rows >= 0,
    ensures
        ({
            let after = popup.drawn(rows);
            let count = popup.suggestions.len() as int;
            &&& after.suggestions == popup.suggestions
            &&& (rows <= count ==> after.visible == rows)
            &&& (rows > count ==> after.visible == count)
            &&& (popup.selected < after.visible ==> after.selected == popup.selected)
            &&& (popup.selected >= after.visible && after.visible > 0 ==> after.selected
                == after.visible - 1)
            &&& (after.visible > 0 ==> after.chosen() == Some(popup.suggestions[after.selected]))
            &&& (after.visible == 0 ==> after.selected == 0 && after.chosen() is None)
        }),
{
}

} // verus!
