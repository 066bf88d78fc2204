//! A container that arranges its children in a row.

use super::linear::{
    arrange, arrangeable, can_arrange, default_padding, is_outcome, is_pass, strip, uniform,
    without, Axis, LayoutPass, Outcome, Padding, Table, Trigger,
};
use super::LayoutMode;
use crate::event::Event;
use crate::types::Size;
use crate::window::{Window, WindowID};
use vstd::prelude::*;

verus! {

/// A container that arranges its children in a row.
///
/// Its layout logic:
/// - If there are no elements involved in the layout, then nothing will be
///   done.
/// - A `Ratio` element degrades to a `Range` element with the bounds that
///   its window declares on its width.
/// - `LayoutMode::Fixed(width)`: the element has exactly that width.
/// - `LayoutMode::Ratio(ratio)`: the element shares what the fixed elements,
///   the padding and the spacing leave, by its ratio over the sum of all
///   ratios.
/// - `LayoutMode::Range { min, max, ratio }`: the element is first treated
///   as a `Ratio` element. If its share is not within `min` to `max`, it is
///   treated as a `Fixed` element of `min` or `max`, and the rest is shared
///   again, until every element is within its range.
pub struct Row {
    layouts: Vec<(WindowID, LayoutMode)>,
    padding: Padding,
    spacing: i32,
}

impl View for Row {
    type V = Table;

    closed spec fn view(&self) -> Table {
        Table { layouts: self.layouts@, padding: self.padding, spacing: self.spacing }
    }
}

impl Default for Row {
    fn default() -> (row: Row)
        ensures
            row@ == (Table { layouts: Seq::empty(), padding: default_padding(), spacing: 3 }),
    {
        Row {
            layouts: Vec::new(),
            padding: Padding { left: 5, top: 5, right: 5, bottom: 5 },
            spacing: 3,
        }
    }
}

impl Row {
    /// The main axis of every row.
    pub open spec fn axis() -> Axis {
        Axis::Horizontal
    }

    /// Whether `update` may be called with these arguments.
    pub open spec fn updatable(&self, size: Size, children: Seq<Window>) -> bool {
        arrangeable(Self::axis(), self@.layouts, self@.padding, self@.spacing, size, children)
    }

    /// Create a new `Row` with no children, 5 pixels of padding on each
    /// side and 3 pixels between neighbours.
    pub fn new() -> (row: Row)
        ensures
            row@ == (Table { layouts: Seq::empty(), padding: default_padding(), spacing: 3 }),
    {
        Row {
            layouts: Vec::new(),
            padding: Padding { left: 5, top: 5, right: 5, bottom: 5 },
            spacing: 3,
        }
    }

    /// Add a layout to the row, after those it has.
    pub fn add_layout(&mut self, layout: WindowID, mode: LayoutMode)
        ensures
            final(self)@ == (Table {
                layouts: old(self)@.layouts.push((layout, mode)),
                ..old(self)@
            }),
    {
        self.layouts.push((layout, mode));
    }

    /// Remove a layout from the row: every entry of the child `layout`.
    pub fn remove_layout(&mut self, layout: &WindowID)
        ensures
            final(self)@ == (Table {
                layouts: without(old(self)@.layouts, *layout),
                ..old(self)@
            }),
    {
        self.layouts = strip(&self.layouts, *layout);
    }

    /// Set the padding of the row on all four sides.
    pub fn set_padding(&mut self, padding: i32)
        ensures
            final(self)@ == (Table { padding: uniform(padding), ..old(self)@ }),
    {
        self.padding = Padding { left: padding, top: padding, right: padding, bottom: padding };
    }

    pub fn set_left_padding(&mut self, padding: i32)
        ensures
            final(self)@ == (Table {
                padding: Padding { left: padding, ..old(self)@.padding },
                ..old(self)@
            }),
    {
        self.padding.left = padding;
    }

    pub fn set_top_padding(&mut self, padding: i32)
        ensures
            final(self)@ == (Table {
                padding: Padding { top: padding, ..old(self)@.padding },
                ..old(self)@
            }),
    {
        self.padding.top = padding;
    }

    pub fn set_right_padding(&mut self, padding: i32)
        ensures
            final(self)@ == (Table {
                padding: Padding { right: padding, ..old(self)@.padding },
                ..old(self)@
            }),
    {
        self.padding.right = padding;
    }

    pub fn set_bottom_padding(&mut self, padding: i32)
        ensures
            final(self)@ == (Table {
                padding: Padding { bottom: padding, ..old(self)@.padding },
                ..old(self)@
            }),
    {
        self.padding.bottom = padding;
    }

    /// Set the spacing of the row.
    pub fn set_spacing(&mut self, spacing: i32)
        ensures
            final(self)@ == (Table { spacing, ..old(self)@ }),
    {
        self.spacing = spacing;
    }

    /// Whether `update` may be called with these arguments.
    pub fn can_update(&self, size: Size, children: &Vec<Window>) -> (ok: bool)
        ensures
            ok == self.updatable(size, children@),
    {
        can_arrange(Axis::Horizontal, &self.layouts, self.padding, self.spacing, size, children)
    }

    /// Lays the row out in a container of `size` whose direct children are
    /// `children`. With no layouts there is nothing to do and the result is
    /// `None`; else it holds the rectangle of each child that has a layout,
    /// the bounds on the row's width that the layouts add up to, and the
    /// bounds on its height that those children declare.
    pub fn update(&self, size: Size, children: &Vec<Window>) -> (pass: Option<LayoutPass>)
        requires
            self.updatable(size, children@),
        ensures
            self@.layouts.len() == 0 <==> pass is None,
            pass is Some ==> is_pass(
                pass->0,
                Self::axis(),
                self@.layouts,
                self@.padding,
                self@.spacing,
                size,
                children@,
            ),
    {
        arrange(Axis::Horizontal, &self.layouts, self.padding, self.spacing, size, children)
    }

    /// Reacts to an event of the container's window: a resize lays the
    /// row out anew in the size that the event carries, any other event
    /// asks for nothing.
    pub fn on_event(&self, event: &Event, children: &Vec<Window>) -> (pass: Option<LayoutPass>)
        requires
            event is WindowResized ==> self.updatable(event->size, children@),
        ensures
            !(event is WindowResized) ==> pass is None,
            event is WindowResized ==> (self@.layouts.len() == 0 <==> pass is None),
            event is WindowResized && pass is Some ==> is_pass(
                pass->0,
                Self::axis(),
                self@.layouts,
                self@.padding,
                self@.spacing,
                event->size,
                children@,
            ),
    {
        match event {
            Event::WindowResized { size, .. } => self.update(*size, children),
            _ => None,
        }
    }

    /// Takes the row through a trigger: the table changes as the trigger
    /// says, and the row is laid out anew at once, in the new size if the
    /// trigger brings one and in `last`, the size last known, if not.
    pub fn react(&mut self, trigger: Trigger, last: Size, children: &Vec<Window>) -> (outcome:
        Outcome)
        ensures
            final(self)@ == old(self)@.after(trigger),
            is_outcome(outcome, Self::axis(), final(self)@, trigger.extent(last), children@),
    {
        let mut size = last;
        match trigger {
            Trigger::AddLayout(id, mode) => self.add_layout(id, mode),
            Trigger::RemoveLayout(id) => self.remove_layout(&id),
            Trigger::SetPadding(p) => self.set_padding(p),
            Trigger::SetLeftPadding(p) => self.set_left_padding(p),
            Trigger::SetTopPadding(p) => self.set_top_padding(p),
            Trigger::SetRightPadding(p) => self.set_right_padding(p),
            Trigger::SetBottomPadding(p) => self.set_bottom_padding(p),
            Trigger::SetSpacing(s) => self.set_spacing(s),
            Trigger::Resized(new) => {
                size = new;
            },
        }
        if !self.can_update(size, children) {
            return Outcome::TooLarge;
        }
        match self.update(size, children) {
            Some(pass) => Outcome::Laid(pass),
            None => Outcome::Idle,
        }
    }
}

} // verus!
