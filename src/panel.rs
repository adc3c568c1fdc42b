//! The per-unit editing panel: a show/hide toggle and two coordinate fields.
use vstd::prelude::*;

verus! {

/// Whether a unit's coordinate fields are shown. Each unit has its own flag.
#[derive(Debug, Clone, Copy, PartialEq, Eq, Structural, Hash)]
pub struct Editing(pub bool);

impl Editing {
    /// A flag with the fields hidden, as every unit starts.
    pub fn hidden() -> (r: Editing)
        ensures
            !r.0,
    {
        Editing(false)
    }

    /// Whether the coordinate fields are shown.
    pub fn fields_shown(&self) -> (r: bool)
        ensures
            r == self.0,
    {
        self.0
    }

    /// Flips the flag, as a click on the panel's button does.
    pub fn toggle(&mut self)
        ensures
            final(self).0 == !old(self).0,
    {
        self.0 = !self.0;
    }

    /// The flag after a frame in which the button was clicked or not.
    pub fn after_button(self, clicked: bool) -> (r: Editing)
        ensures
            r.0 == (self.0 != clicked),
    {
        let mut e = self;
        if clicked {
            e.toggle();
        }
        e
    }

    /// The caption of the panel's button: "hide" while the fields are shown,
    /// "edit" while they are hidden.
    pub fn button_label(&self) -> (r: &'static str)
        ensures
            self.0 ==> r@ == "hide"@,
            !self.0 ==> r@ == "edit"@,
    {
        if self.0 {
            "hide"
        } else {
            "edit"
        }
    }
}

/// The coordinate after an edit of its text field, given what parsing the
/// new text gave: the parsed number on success; on failure the edit is
/// dropped and the coordinate keeps its value.
pub open spec fn spec_edited_coordinate<T, E>(current: T, parsed: Result<T, E>) -> T {
    match parsed {
        Ok(v) => v,
        Err(_) => current,
    }
}

/// Applies an edit of a coordinate field: the parsed number replaces the
/// coordinate, and text that did not parse leaves it unchanged.
pub fn apply_coordinate_edit<T, E>(current: T, parsed: Result<T, E>) -> (r: T)
    ensures
        r == spec_edited_coordinate(current, parsed),
        parsed is Err ==> r == current,
        parsed matches Ok(v) ==> r == v,
{
    match parsed {
        Ok(v) => v,
        Err(_) => current,
    }
}

/// Text that does not parse leaves the coordinate as it was, however many
/// such edits come in a row.
pub proof fn lemma_failed_edits_keep_coordinate<T, E>(current: T, e1: E, e2: E)
    ensures
        spec_edited_coordinate(current, Err::<T, E>(e1)) == current,
        spec_edited_coordinate(
            spec_edited_coordinate(current, Err::<T, E>(e1)),
            Err::<T, E>(e2),
        ) == current,
{
}


} // verus!
