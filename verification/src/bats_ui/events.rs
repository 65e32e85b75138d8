use vstd::prelude::*;

verus! {

/// Poll for events. Reading the terminal is done outside of the library; the library decides
/// what each raw terminal event means with `Event::from_raw`.
#[derive(Copy, Clone, Debug, Default, PartialEq, Eq, Structural)]
pub struct EventPoll {}

/// A user input event.
#[derive(Copy, Clone, Debug, Default, PartialEq, Eq, Structural)]
pub enum Event {
    /// Nothing of significance happened.
    #[default]
    Nothing,
    /// The up arrow key was pressed.
    Up,
    /// The down arrow key was pressed.
    Down,
    /// The left arrow key was pressed.
    Left,
    /// The right arrow key was pressed.
    Right,
    /// The back button (or esc) was pressed.
    Back,
    /// The enter key was pressed.
    Enter,
    /// A redraw was requested.
    Redraw,
}

/// The key of a terminal key event, as far as the user interface tells keys apart.
#[derive(Copy, Clone, Debug, PartialEq, Eq, Structural)]
pub enum RawKey {
    /// A character key.
    Char(char),
    /// The up arrow key.
    Up,
    /// The down arrow key.
    Down,
    /// The left arrow key.
    Left,
    /// The right arrow key.
    Right,
    /// The escape key.
    Esc,
    /// The enter key.
    Enter,
    /// Any other key.
    Other,
}

/// A raw terminal event.
#[derive(Copy, Clone, Debug, PartialEq, Eq, Structural)]
pub enum RawEvent {
    /// A key event.
    Key {
        /// The key.
        key: RawKey,
        /// True for a key press (as opposed to a release or repeat).
        is_press: bool,
        /// True if the modifiers held are exactly the control key.
        control_only: bool,
    },
    /// The terminal was resized.
    Resize,
    /// Any other event.
    Other,
}

/// An error that ends event polling.
#[derive(Copy, Clone, Debug, PartialEq, Eq, Structural)]
pub enum EventError {
    /// Exit with C-c requested.
    ExitRequested,
}

impl Event {
    /// The meaning of a raw terminal event.
    pub open spec fn spec_from_raw(raw: RawEvent) -> Result<Event, EventError> {
        match raw {
            RawEvent::Key { key, is_press, control_only } => if !is_press {
                Ok(Event::Nothing)
            } else {
                match key {
                    RawKey::Char(c) => if c == 'c' && control_only {
                        Err(EventError::ExitRequested)
                    } else {
                        Ok(Event::Nothing)
                    },
                    RawKey::Up => Ok(Event::Up),
                    RawKey::Down => Ok(Event::Down),
                    RawKey::Left => Ok(Event::Left),
                    RawKey::Right => Ok(Event::Right),
                    RawKey::Esc => Ok(Event::Back),
                    RawKey::Enter => Ok(Event::Enter),
                    RawKey::Other => Ok(Event::Nothing),
                }
            },
            RawEvent::Resize => Ok(Event::Redraw),
            RawEvent::Other => Ok(Event::Nothing),
        }
    }

    /// Decide what a raw terminal event means: pressing C-c requests an exit, pressing an arrow,
    /// escape or enter key gives the matching event, a resize asks for a redraw and anything else
    /// is `Event::Nothing`.
    pub fn from_raw(raw: RawEvent) -> (r: Result<Event, EventError>)
        ensures
            r == Event::spec_from_raw(raw),
    {
        match raw {
            RawEvent::Key { key: RawKey::Char('c'), is_press: true, control_only: true } => Err(
                EventError::ExitRequested,
            ),
            RawEvent::Key { key: RawKey::Up, is_press: true, .. } => Ok(Event::Up),
            RawEvent::Key { key: RawKey::Down, is_press: true, .. } => Ok(Event::Down),
            RawEvent::Key { key: RawKey::Left, is_press: true, .. } => Ok(Event::Left),
            RawEvent::Key { key: RawKey::Right, is_press: true, .. } => Ok(Event::Right),
            RawEvent::Key { key: RawKey::Esc, is_press: true, .. } => Ok(Event::Back),
            RawEvent::Key { key: RawKey::Enter, is_press: true, .. } => Ok(Event::Enter),
            RawEvent::Resize => Ok(Event::Redraw),
            _ => Ok(Event::Nothing),
        }
    }
}

/// Only a press of C-c requests exit. Any other character key decodes to no event, with or
/// without the control key; a key release decodes to no event; the arrows, escape and enter
/// decode to their events, with or without modifiers; a resize asks for a redraw.
pub proof fn lemma_only_control_c_exits(key: RawKey, is_press: bool, control_only: bool)
    ensures
        (Event::spec_from_raw(RawEvent::Key { key, is_press, control_only }) is Err) <==> (key
            == RawKey::Char('c') && is_press && control_only),
        forall|c: char|
            c != 'c' ==> #[trigger] Event::spec_from_raw(
                RawEvent::Key { key: RawKey::Char(c), is_press, control_only },
            ) == Ok::<Event, EventError>(Event::Nothing),
        !is_press ==> Event::spec_from_raw(RawEvent::Key { key, is_press, control_only }) == Ok::<
            Event,
            EventError,
        >(Event::Nothing),
        is_press ==> {
            &&& Event::spec_from_raw(RawEvent::Key { key: RawKey::Up, is_press, control_only })
                == Ok::<Event, EventError>(Event::Up)
            &&& Event::spec_from_raw(RawEvent::Key { key: RawKey::Down, is_press, control_only })
                == Ok::<Event, EventError>(Event::Down)
            &&& Event::spec_from_raw(RawEvent::Key { key: RawKey::Left, is_press, control_only })
                == Ok::<Event, EventError>(Event::Left)
            &&& Event::spec_from_raw(RawEvent::Key { key: RawKey::Right, is_press, control_only })
                == Ok::<Event, EventError>(Event::Right)
            &&& Event::spec_from_raw(RawEvent::Key { key: RawKey::Esc, is_press, control_only })
                == Ok::<Event, EventError>(Event::Back)
            &&& Event::spec_from_raw(RawEvent::Key { key: RawKey::Enter, is_press, control_only })
                == Ok::<Event, EventError>(Event::Enter)
        },
        Event::spec_from_raw(RawEvent::Resize) == Ok::<Event, EventError>(Event::Redraw),
{
}

} // verus!
