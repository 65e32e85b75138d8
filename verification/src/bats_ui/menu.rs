use vstd::prelude::*;

use super::events::Event;
use super::selector::Selector;

verus! {

/// A menu action to perform.
#[derive(Debug, PartialEq, Eq)]
pub enum MenuAction<T> {
    /// Do not do anything and keep the menu going.
    Continue,
    /// Select the item from the menu.
    Select(T),
    /// Exit the menu with no selection.
    Exit,
    /// Redraw the menu.
    Redraw,
}

/// Handles the user events that a `SelectorMenu` does not use itself. A menu uses the up and
/// down arrow keys, back, enter and redraw; every other event goes to its handler together with
/// the selected item.
pub trait ExtraEventHandler<T> {
    /// The action that the handler answers to `event` while `selected` is the selected item. A
    /// handler states it by defining this function; a handler that does not leaves it unknown.
    closed spec fn spec_handle(&self, event: Event, selected: T) -> MenuAction<T> {
        arbitrary()
    }

    /// Handle `event` while `selected` is the selected item.
    fn handle(&mut self, event: Event, selected: &T) -> (r: MenuAction<T>)
        ensures
            r == old(self).spec_handle(event, *selected),
    ;
}

/// The handler of a new menu: it ignores every event.
#[derive(Copy, Clone, Debug, Default, PartialEq, Eq)]
pub struct IgnoreEvents;

impl<T> ExtraEventHandler<T> for IgnoreEvents {
    open spec fn spec_handle(&self, event: Event, selected: T) -> MenuAction<T> {
        MenuAction::Continue
    }

    fn handle(&mut self, event: Event, selected: &T) -> (r: MenuAction<T>)
        ensures
            r == MenuAction::<T>::Continue,
    {
        MenuAction::Continue
    }
}

/// A basic menu that selects an item of type `T`. `F` formats an item into a human readable menu
/// option and `H` handles the events the menu does not use.
pub struct SelectorMenu<T, F, H> {
    title: String,
    selection: Selector<T>,
    formatter: F,
    extra_event_handler: H,
}

impl<T, F, H> SelectorMenu<T, F, H> {
    /// The title of the menu.
    pub closed spec fn spec_title(self) -> Seq<char> {
        self.title@
    }

    /// The selection of the menu.
    pub closed spec fn spec_selection(self) -> Selector<T> {
        self.selection
    }

    /// The formatter of the menu.
    pub closed spec fn spec_formatter(self) -> F {
        self.formatter
    }

    /// The handler for the events the menu does not use.
    pub closed spec fn spec_handler(self) -> H {
        self.extra_event_handler
    }

    /// Replace the handler for the events the menu does not use itself. Typically, the only user
    /// input that `SelectorMenu` uses are the up/down arrow keys, exit, and enter.
    pub fn with_extra_event_handler<H2>(self, handler: H2) -> (r: SelectorMenu<T, F, H2>)
        ensures
            r.spec_title() == self.spec_title(),
            r.spec_selection() == self.spec_selection(),
            r.spec_formatter() == self.spec_formatter(),
            r.spec_handler() == handler,
    {
        SelectorMenu {
            title: self.title,
            selection: self.selection,
            formatter: self.formatter,
            extra_event_handler: handler,
        }
    }

    /// Set the title.
    pub fn set_title(&mut self, title: String)
        ensures
            final(self).spec_title() == title@,
            final(self).spec_selection() == old(self).spec_selection(),
            final(self).spec_formatter() == old(self).spec_formatter(),
            final(self).spec_handler() == old(self).spec_handler(),
    {
        self.title = title;
    }

    /// The title of the menu.
    pub fn title(&self) -> (r: &String)
        ensures
            r@ == self.spec_title(),
    {
        &self.title
    }

    /// The selection of the menu.
    pub fn selection(&self) -> (r: &Selector<T>)
        ensures
            *r == self.spec_selection(),
    {
        &self.selection
    }

    /// The formatter of the menu.
    pub fn formatter(&self) -> (r: &F)
        ensures
            *r == self.spec_formatter(),
    {
        &self.formatter
    }
}

impl<T, F> SelectorMenu<T, F, IgnoreEvents> {
    /// Create a new menu with the given title and items. `formatter` is used to convert an item
    /// of type `T` into a human readable menu option. The first item is selected.
    pub fn new(title: String, items: Vec<T>, formatter: F) -> (r: SelectorMenu<T, F, IgnoreEvents>)
        requires
            0 < items@.len() <= isize::MAX,
        ensures
            r.spec_title() == title@,
            r.spec_selection().items() == items@,
            r.spec_selection().selected_index() == 0,
            r.spec_formatter() == formatter,
    {
        SelectorMenu {
            title,
            selection: Selector::new(items),
            formatter,
            extra_event_handler: IgnoreEvents,
        }
    }
}

impl<T: Clone, F, H: ExtraEventHandler<T>> SelectorMenu<T, F, H> {
    /// Handle a user event and return the menu action that should be performed. Up and down move
    /// the selection by one (wrapping around) and ask for a redraw, back exits, enter selects a
    /// clone of the selected item and redraw asks for a redraw. Every other event goes to the
    /// extra event handler, with the selected item.
    pub fn handle_event(&mut self, event: Event) -> (r: MenuAction<T>)
        ensures
            final(self).spec_title() == old(self).spec_title(),
            final(self).spec_formatter() == old(self).spec_formatter(),
            final(self).spec_selection().items() == old(self).spec_selection().items(),
            event == Event::Up ==> r == MenuAction::<T>::Redraw
                && final(self).spec_selection().selected_index() == (old(
                self,
            ).spec_selection().selected_index() - 1) % (old(self).spec_selection().items().len() as int),
            event == Event::Down ==> r == MenuAction::<T>::Redraw
                && final(self).spec_selection().selected_index() == (old(
                self,
            ).spec_selection().selected_index() + 1) % (old(self).spec_selection().items().len() as int),
            event != Event::Up && event != Event::Down ==> final(self).spec_selection()
                == old(self).spec_selection(),
            event == Event::Back ==> r == MenuAction::<T>::Exit,
            event == Event::Redraw ==> r == MenuAction::<T>::Redraw,
            event == Event::Enter ==> (r matches MenuAction::Select(item) && cloned::<T>(
                old(self).spec_selection().items()[old(self).spec_selection().selected_index()],
                item,
            )),
            event != Event::Up && event != Event::Down && event != Event::Back && event
                != Event::Enter && event != Event::Redraw ==> r == old(self).spec_handler().spec_handle(
                event,
                old(self).spec_selection().items()[old(self).spec_selection().selected_index()],
            ),
    {
        match event {
            Event::Up => {
                self.selection.select_by(-1);
                MenuAction::Redraw
            },
            Event::Down => {
                self.selection.select_by(1);
                MenuAction::Redraw
            },
            Event::Back => MenuAction::Exit,
            Event::Enter => MenuAction::Select(self.selection.selected().clone()),
            Event::Redraw => MenuAction::Redraw,
            other => self.extra_event_handler.handle(other, self.selection.selected()),
        }
    }
}

} // verus!
