//! What the simple controls decide when an event reaches them.
//!
//! A control is a small state machine. `on_event` takes the state to the
//! next one and returns what the control's window is to do: whom to notify,
//! whether to take the keyboard focus, whether to draw anew.

use crate::event::{Event, MouseButton};
use crate::types::{fits_i32, Color, Point, Rect, Size};
use vstd::prelude::*;

verus! {

/// The background of a control under the mouse.
pub open spec fn hovered_color() -> Color {
    Color { red: 215, green: 215, blue: 215, alpha: 255 }
}

/// The background of a control at rest.
pub open spec fn resting_color() -> Color {
    Color { red: 235, green: 235, blue: 235, alpha: 255 }
}

/// What a button or a switch asks of its window after an event.
#[derive(Debug, Clone, Copy, PartialEq, Eq, Structural)]
pub struct Response {
    /// The state to tell the responders, if they are to be told.
    pub notify: Option<bool>,
    /// The window is to be drawn anew.
    pub redraw: bool,
}

/// A button that is down while the left mouse button is held on it.
#[derive(Debug, Clone, Copy, PartialEq, Eq, Structural)]
pub struct PushButton {
    pub status: bool,
    pub backcolor: Color,
}

/// A button that changes between on and off with every click.
#[derive(Debug, Clone, Copy, PartialEq, Eq, Structural)]
pub struct Switch {
    pub status: bool,
    pub backcolor: Color,
}

/// The event is a press of the left mouse button.
pub open spec fn is_left_press(event: Event) -> bool {
    event matches Event::MouseButtonPressed { button, .. } && button == MouseButton::Left
}

/// The event is a release of the left mouse button.
pub open spec fn is_left_release(event: Event) -> bool {
    event matches Event::MouseButtonReleased { button, .. } && button == MouseButton::Left
}

/// The rectangle of a control's label: that of the control, moved one
/// pixel right and down while the control is pressed.
pub open spec fn label_rect(rect: Rect, pressed: bool) -> Rect {
    if pressed {
        Rect { pos: Point { x: (rect.pos.x + 1) as i32, y: (rect.pos.y + 1) as i32 }, size: rect.size }
    } else {
        rect
    }
}

/// Where the label of a control goes.
pub fn text_rect(rect: Rect, pressed: bool) -> (r: Rect)
    requires
        pressed ==> rect.pos.x < i32::MAX && rect.pos.y < i32::MAX,
    ensures
        r == label_rect(rect, pressed),
{
    if pressed {
        Rect { pos: Point { x: rect.pos.x + 1, y: rect.pos.y + 1 }, size: rect.size }
    } else {
        rect
    }
}

impl PushButton {
    /// The button after `event`.
    pub open spec fn next(self, event: Event) -> PushButton {
        if is_left_press(event) {
            PushButton { status: true, ..self }
        } else if is_left_release(event) {
            PushButton { status: false, ..self }
        } else if event is Hover {
            PushButton { backcolor: hovered_color(), ..self }
        } else if event is Leave {
            PushButton { backcolor: resting_color(), ..self }
        } else {
            self
        }
    }

    /// What the button asks of its window after `event`.
    pub open spec fn response(self, event: Event) -> Response {
        if is_left_press(event) {
            Response { notify: Some(true), redraw: true }
        } else if is_left_release(event) {
            Response { notify: Some(false), redraw: true }
        } else if event is Hover || event is Leave {
            Response { notify: None, redraw: true }
        } else {
            Response { notify: None, redraw: false }
        }
    }

    /// A button that is up, with the resting background.
    pub fn new() -> (button: PushButton)
        ensures
            button == (PushButton { status: false, backcolor: resting_color() }),
    {
        PushButton { status: false, backcolor: Color { red: 235, green: 235, blue: 235, alpha: 255 } }
    }

    /// Takes the button through `event`: the left mouse button presses and
    /// releases it, and the responders are told each time; the mouse
    /// resting over it or leaving it changes its background.
    pub fn on_event(&mut self, event: &Event) -> (response: Response)
        ensures
            *final(self) == old(self).next(*event),
            response == old(self).response(*event),
    {
        match event {
            Event::MouseButtonPressed { button, .. } => {
                if *button == MouseButton::Left {
                    self.status = true;
                    Response { notify: Some(true), redraw: true }
                } else {
                    Response { notify: None, redraw: false }
                }
            },
            Event::MouseButtonReleased { button, .. } => {
                if *button == MouseButton::Left {
                    self.status = false;
                    Response { notify: Some(false), redraw: true }
                } else {
                    Response { notify: None, redraw: false }
                }
            },
            Event::Hover { .. } => {
                self.backcolor = Color { red: 215, green: 215, blue: 215, alpha: 255 };
                Response { notify: None, redraw: true }
            },
            Event::Leave => {
                self.backcolor = Color { red: 235, green: 235, blue: 235, alpha: 255 };
                Response { notify: None, redraw: true }
            },
            _ => Response { notify: None, redraw: false },
        }
    }
}

impl Switch {
    /// The switch after `event`.
    pub open spec fn next(self, event: Event) -> Switch {
        if is_left_press(event) {
            Switch { status: !self.status, ..self }
        } else if event is Hover {
            Switch { backcolor: hovered_color(), ..self }
        } else if event is Leave {
            Switch { backcolor: resting_color(), ..self }
        } else {
            self
        }
    }

    /// What the switch asks of its window after `event`.
    pub open spec fn response(self, event: Event) -> Response {
        if is_left_press(event) {
            Response { notify: Some(!self.status), redraw: true }
        } else if event is Hover || event is Leave {
            Response { notify: None, redraw: true }
        } else {
            Response { notify: None, redraw: false }
        }
    }

    /// A switch that is off, with the resting background.
    pub fn new() -> (switch: Switch)
        ensures
            switch == (Switch { status: false, backcolor: resting_color() }),
    {
        Switch { status: false, backcolor: Color { red: 235, green: 235, blue: 235, alpha: 255 } }
    }

    /// Takes the switch through `event`: a press of the left mouse button
    /// turns it over and the responders are told the new state; the mouse
    /// resting over it or leaving it changes its background.
    pub fn on_event(&mut self, event: &Event) -> (response: Response)
        ensures
            *final(self) == old(self).next(*event),
            response == old(self).response(*event),
    {
        match event {
            Event::MouseButtonPressed { button, .. } => {
                if *button == MouseButton::Left {
                    self.status = !self.status;
                    Response { notify: Some(self.status), redraw: true }
                } else {
                    Response { notify: None, redraw: false }
                }
            },
            Event::Hover { .. } => {
                self.backcolor = Color { red: 215, green: 215, blue: 215, alpha: 255 };
                Response { notify: None, redraw: true }
            },
            Event::Leave => {
                self.backcolor = Color { red: 235, green: 235, blue: 235, alpha: 255 };
                Response { notify: None, redraw: true }
            },
            _ => Response { notify: None, redraw: false },
        }
    }
}

/// Two clicks leave a switch as it was.
pub proof fn law_switch_twice(switch: Switch, first: Event, second: Event)
    requires
        is_left_press(first),
        is_left_press(second),
    ensures
        switch.next(first).next(second) == switch,
        switch.next(first).response(second).notify == Some(switch.status),
{
}

/// The thickness of the frame of a line edit.
pub const BORDER_WIDTH: i32 = 5;

/// What a line edit tells its responders after an event.
#[derive(Debug, Clone, Copy, PartialEq, Eq, Structural)]
pub enum Told {
    /// Nothing.
    Nobody,
    /// Those who wait for a change of the content.
    Changed,
    /// Those who wait for the enter key.
    Entered,
}

/// What a line edit asks of its window after an event.
#[derive(Debug, Clone, Copy, PartialEq, Eq, Structural)]
pub struct EditResponse {
    /// Whom to tell the content.
    pub told: Told,
    /// The window is to take the keyboard focus.
    pub focus: bool,
    /// The window is to be drawn anew.
    pub redraw: bool,
}

/// A line of text that grows and shrinks at its end.
pub struct LineEdit {
    content: Vec<char>,
}

impl View for LineEdit {
    type V = Seq<char>;

    closed spec fn view(&self) -> Seq<char> {
        self.content@
    }
}

/// The content of a line edit after the character `ch` was typed: a
/// backspace takes the last character away, a tabulator adds a space, enter
/// leaves the line as it is and any other character is added.
pub open spec fn typed(content: Seq<char>, ch: char) -> Seq<char> {
    if ch == '\x08' {
        if content.len() > 0 {
            content.drop_last()
        } else {
            content
        }
    } else if ch == '\r' || ch == '\n' {
        content
    } else if ch == '\t' {
        content.push(' ')
    } else {
        content.push(ch)
    }
}

/// The content of a line edit after `event`.
pub open spec fn edited(content: Seq<char>, event: Event) -> Seq<char> {
    match event {
        Event::Input { ch } => typed(content, ch),
        _ => content,
    }
}

/// What a line edit asks of its window after `event`.
pub open spec fn edit_response(event: Event) -> EditResponse {
    match event {
        Event::MouseButtonPressed { button, .. } => EditResponse {
            told: Told::Nobody,
            focus: button == MouseButton::Left,
            redraw: true,
        },
        Event::Input { ch } => if ch == '\r' || ch == '\n' {
            EditResponse { told: Told::Entered, focus: false, redraw: false }
        } else {
            EditResponse { told: Told::Changed, focus: false, redraw: true }
        },
        _ => EditResponse { told: Told::Nobody, focus: false, redraw: false },
    }
}

/// The area of the text inside a frame of `BORDER_WIDTH` pixels.
pub open spec fn inner_size(size: Size) -> Size {
    Size {
        width: (size.width - 2 * BORDER_WIDTH) as i32,
        height: (size.height - 2 * BORDER_WIDTH) as i32,
    }
}

impl LineEdit {
    /// An empty line.
    pub fn new() -> (edit: LineEdit)
        ensures
            edit@ == Seq::<char>::empty(),
    {
        LineEdit { content: Vec::new() }
    }

    /// The characters of the line.
    pub fn content(&self) -> (text: &Vec<char>)
        ensures
            text@ == self@,
    {
        &self.content
    }

    /// Whether the line is empty, so that the placeholder is shown.
    pub fn is_empty(&self) -> (empty: bool)
        ensures
            empty == (self@.len() == 0),
    {
        self.content.len() == 0
    }

    /// The size of the text area of a line edit of `size`.
    pub fn text_size(size: Size) -> (inner: Size)
        requires
            fits_i32(size.width - 2 * BORDER_WIDTH),
            fits_i32(size.height - 2 * BORDER_WIDTH),
        ensures
            inner == inner_size(size),
    {
        Size { width: size.width - 2 * BORDER_WIDTH, height: size.height - 2 * BORDER_WIDTH }
    }

    /// Takes the line through `event`. A press of a mouse button draws the
    /// line anew, the left button also takes the focus. A typed character
    /// changes the content, and those who wait for changes are told; the
    /// enter key changes nothing, and those who wait for it are told.
    pub fn on_event(&mut self, event: &Event) -> (response: EditResponse)
        ensures
            final(self)@ == edited(old(self)@, *event),
            response == edit_response(*event),
    {
        match event {
            Event::MouseButtonPressed { button, .. } => EditResponse {
                told: Told::Nobody,
                focus: *button == MouseButton::Left,
                redraw: true,
            },
            Event::Input { ch } => {
                let ch = *ch;
                if ch == '\x08' {
                    if self.content.len() > 0 {
                        self.content.pop();
                    }
                } else if ch == '\r' || ch == '\n' {
                    return EditResponse { told: Told::Entered, focus: false, redraw: false };
                } else if ch == '\t' {
                    self.content.push(' ');
                } else {
                    self.content.push(ch);
                }
                EditResponse { told: Told::Changed, focus: false, redraw: true }
            },
            _ => EditResponse { told: Told::Nobody, focus: false, redraw: false },
        }
    }
}

} // verus!
