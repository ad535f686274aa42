//! What the parts of the screen have in common.

use vstd::prelude::*;
use crate::buffer::IoError;
use crate::size::Size;
use crate::boundary::texts_of;

verus! {

/// A part of the screen that is drawn row by row, and again only when it is out of
/// date.
pub trait UiComponent: Sized {
    /// The component is consistent in itself.
    spec fn wf(&self) -> bool;

    /// `after` is this component with its mark set to `value`: out of date or not.
    spec fn marked_as(&self, value: bool, after: &Self) -> bool;

    /// `after` is this component given the size `size`.
    spec fn sized_as(&self, size: Size, after: &Self) -> bool;

    /// The component has to be drawn again.
    spec fn out_of_date(&self) -> bool;

    /// `rows` are the rows of this component, from the top, where its first row is
    /// row `origin_y` of the screen, and `after` is the component once they were
    /// handed out.
    spec fn draws(&self, origin_y: usize, rows: Seq<Seq<char>>, after: &Self) -> bool;

    /// Marks this component as out of date, or as up to date.
    fn set_needs_redraw(&mut self, value: bool)
        requires
            old(self).wf(),
        ensures
            final(self).wf(),
            old(self).marked_as(value, final(self)),
    ;

    /// Whether this component has to be drawn again.
    fn needs_redraw(&self) -> (needed: bool)
        requires
            self.wf(),
        ensures
            needed == self.out_of_date(),
    ;

    /// The text of each row of this component, from the top.
    fn draw(&mut self, origin_y: usize) -> (rows: Vec<String>)
        requires
            old(self).wf(),
        ensures
            final(self).wf(),
            old(self).draws(origin_y, texts_of(rows@), final(self)),
    ;

    /// Gives this component its size.
    fn set_size(&mut self, size: Size)
        requires
            old(self).wf(),
        ensures
            final(self).wf(),
            old(self).sized_as(size, final(self)),
    ;

    /// Gives this component its size and marks it as out of date.
    fn resize(&mut self, size: Size)
        requires
            old(self).wf(),
        ensures
            final(self).wf(),
            exists|sized: Self|
                #![trigger old(self).sized_as(size, &sized)]
                old(self).sized_as(size, &sized) && sized.marked_as(true, final(self)),
    {
        self.set_size(size);
        let ghost sized = *self;
        self.set_needs_redraw(true);
        assert(old(self).sized_as(size, &sized) && sized.marked_as(true, self));
    }

    /// What has to be painted: the rows of this component if it is out of date,
    /// nothing if it is not.
    fn render(&mut self, origin_y: usize) -> (rows: Option<Vec<String>>)
        requires
            old(self).wf(),
        ensures
            final(self).wf(),
            match rows {
                Some(rows) => old(self).out_of_date() && old(self).draws(
                    origin_y,
                    texts_of(rows@),
                    final(self),
                ),
                None => !old(self).out_of_date() && *final(self) == *old(self),
            },
    {
        if !self.needs_redraw() {
            return None;
        }
        Some(self.draw(origin_y))
    }

    /// Takes in how painting what `render` gave went: once it is painted, this
    /// component is up to date; where painting failed, it stays as it is.
    fn painted(&mut self, outcome: Result<(), IoError>)
        requires
            old(self).wf(),
        ensures
            final(self).wf(),
            match outcome {
                Ok(_) => old(self).marked_as(false, final(self)),
                Err(_) => *final(self) == *old(self),
            },
    {
        if outcome.is_ok() {
            self.set_needs_redraw(false);
        }
    }
}

/// `rows` is what rendering the component `before` gives, with its first row at
/// row `origin_y` of the screen, and `after` the component then: its rows if it
/// is out of date, nothing if it is not.
pub open spec fn renders<C: UiComponent>(
    before: C,
    origin_y: usize,
    rows: Option<Vec<String>>,
    after: C,
) -> bool {
    match rows {
        Some(rows) => before.out_of_date() && before.draws(origin_y, texts_of(rows@), &after),
        None => !before.out_of_date() && after == before,
    }
}

/// `after` is the component `before` once it was told how painting it went: up to
/// date once it is painted, as it was where painting failed.
pub open spec fn takes_in<C: UiComponent>(
    before: C,
    outcome: Result<(), IoError>,
    after: C,
) -> bool {
    match outcome {
        Ok(_) => before.marked_as(false, &after),
        Err(_) => after == before,
    }
}

} // verus!
