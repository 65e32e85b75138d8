use bats::bats_lib::builder::{PluginBuilder, TrackBuilder};
use bats::bats_ui::events::{Event, EventError, RawEvent, RawKey};
use bats::bats_ui::menu::{ExtraEventHandler, MenuAction, SelectorMenu};

fn key(key: RawKey) -> RawEvent {
    RawEvent::Key {
        key,
        is_press: true,
        control_only: false,
    }
}

#[test]
fn raw_events_are_decoded() {
    assert_eq!(Event::from_raw(key(RawKey::Up)), Ok(Event::Up));
    assert_eq!(Event::from_raw(key(RawKey::Down)), Ok(Event::Down));
    assert_eq!(Event::from_raw(key(RawKey::Left)), Ok(Event::Left));
    assert_eq!(Event::from_raw(key(RawKey::Right)), Ok(Event::Right));
    assert_eq!(Event::from_raw(key(RawKey::Esc)), Ok(Event::Back));
    assert_eq!(Event::from_raw(key(RawKey::Enter)), Ok(Event::Enter));
    assert_eq!(Event::from_raw(RawEvent::Resize), Ok(Event::Redraw));
    assert_eq!(Event::from_raw(RawEvent::Other), Ok(Event::Nothing));
    assert_eq!(Event::from_raw(key(RawKey::Char('c'))), Ok(Event::Nothing));
    assert_eq!(
        Event::from_raw(RawEvent::Key {
            key: RawKey::Char('c'),
            is_press: true,
            control_only: true
        }),
        Err(EventError::ExitRequested)
    );
    assert_eq!(
        Event::from_raw(RawEvent::Key {
            key: RawKey::Up,
            is_press: false,
            control_only: false
        }),
        Ok(Event::Nothing)
    );
}

struct CountLeft {
    lefts: usize,
}

impl ExtraEventHandler<u32> for CountLeft {
    fn handle(&mut self, event: Event, selected: &u32) -> MenuAction<u32> {
        if event == Event::Left {
            self.lefts += 1;
            MenuAction::Select(*selected * 10)
        } else {
            MenuAction::Continue
        }
    }
}

#[test]
fn selector_menu_handles_events() {
    let mut menu = SelectorMenu::new("Main".to_string(), vec![1u32, 2, 3], |i: &u32| i.to_string());
    assert_eq!(menu.handle_event(Event::Up), MenuAction::Redraw);
    assert_eq!(menu.handle_event(Event::Enter), MenuAction::Select(3));
    assert_eq!(menu.handle_event(Event::Down), MenuAction::Redraw);
    assert_eq!(menu.handle_event(Event::Enter), MenuAction::Select(1));
    assert_eq!(menu.handle_event(Event::Back), MenuAction::Exit);
    assert_eq!(menu.handle_event(Event::Redraw), MenuAction::Redraw);
    assert_eq!(menu.handle_event(Event::Left), MenuAction::Continue);
    assert_eq!(menu.title(), "Main");
    assert_eq!((menu.formatter())(&7), "7");

    let mut menu = menu.with_extra_event_handler(CountLeft { lefts: 0 });
    menu.set_title("Other".to_string());
    assert_eq!(menu.title(), "Other");
    assert_eq!(menu.handle_event(Event::Down), MenuAction::Redraw);
    assert_eq!(menu.handle_event(Event::Left), MenuAction::Select(20));
    assert_eq!(menu.handle_event(Event::Right), MenuAction::Continue);
}

#[test]
fn plugin_builders_have_names() {
    assert_eq!(PluginBuilder::Empty.name(), "empty");
    assert_eq!(PluginBuilder::Toof.name(), "toof");
    assert_eq!(PluginBuilder::all(), vec![PluginBuilder::Empty, PluginBuilder::Toof]);
    assert_eq!(TrackBuilder::default().plugin, PluginBuilder::Empty);
}
