//! The state machine behind the terminal screen: a counter moved with the arrow
//! keys and a quit flag set with `q`. Drawing and reading the terminal are done by
//! the program around the library; it hands key events to [`App::handle_events`].

use vstd::prelude::*;

verus! {

/// The key of a key event, as far as the screen tells keys apart.
#[derive(Debug, Clone, Copy, PartialEq, Eq, Structural)]
pub enum KeyCode {
    Char(char),
    Left,
    Right,
    /// Any other key.
    Other,
}

/// Whether a key went down, repeats, or went up.
#[derive(Debug, Clone, Copy, PartialEq, Eq, Structural)]
pub enum KeyEventKind {
    Press,
    Repeat,
    Release,
}

/// A key event: the key and what happened to it.
#[derive(Debug, Clone, Copy, PartialEq, Eq, Structural)]
pub struct KeyEvent {
    pub code: KeyCode,
    pub kind: KeyEventKind,
}

/// A terminal event handed to the screen.
#[derive(Debug, Clone, Copy, PartialEq, Eq, Structural)]
pub enum Event {
    Key(KeyEvent),
    /// Any event that is not a key event (resize, mouse, focus, paste).
    Other,
}

impl From<KeyCode> for KeyEvent {
    /// A key press of `code`.
    fn from(code: KeyCode) -> (ev: KeyEvent) {
        KeyEvent { code, kind: KeyEventKind::Press }
    }
}

impl vstd::std_specs::convert::FromSpecImpl<KeyCode> for KeyEvent {
    open spec fn obeys_from_spec() -> bool {
        true
    }

    open spec fn from_spec(v: KeyCode) -> KeyEvent {
        KeyEvent { code: v, kind: KeyEventKind::Press }
    }
}

/// The screen's state: the counter shown, and whether the user asked to quit.
#[derive(Debug)]
pub struct App {
    pub counter: u8,
    pub exit: bool,
}

/// The counter after one step to the right: one more, staying at 255.
pub open spec fn counter_up(c: u8) -> u8 {
    if c < 255 { (c + 1) as u8 } else { 255 }
}

/// The counter after one step to the left: one less, staying at 0.
pub open spec fn counter_down(c: u8) -> u8 {
    if c > 0 { (c - 1) as u8 } else { 0 }
}

/// The state after a key event: `q` quits, the left arrow counts down, the right
/// arrow counts up, and any other key changes nothing. The event's kind is not read.
pub open spec fn after_key(counter: u8, exit: bool, ev: KeyEvent) -> (u8, bool) {
    match ev.code {
        KeyCode::Char(c) => if c == 'q' { (counter, true) } else { (counter, exit) },
        KeyCode::Left => (counter_down(counter), exit),
        KeyCode::Right => (counter_up(counter), exit),
        KeyCode::Other => (counter, exit),
    }
}

/// The state after a terminal event: only key presses are handled.
pub open spec fn after_event(counter: u8, exit: bool, ev: Event) -> (u8, bool) {
    match ev {
        Event::Key(k) => if k.kind == KeyEventKind::Press {
            after_key(counter, exit, k)
        } else {
            (counter, exit)
        },
        Event::Other => (counter, exit),
    }
}

impl Default for App {
    /// A counter at 0 that has not been asked to quit.
    fn default() -> (app: App)
        ensures
            app.counter == 0,
            !app.exit,
    {
        App { counter: 0, exit: false }
    }
}

impl App {
    /// Whether the main loop goes on drawing and reading events.
    pub fn is_running(&self) -> (running: bool)
        ensures
            running == !self.exit,
    {
        !self.exit
    }

    /// Handles one terminal event; key events other than presses are ignored.
    pub fn handle_events(&mut self, event: Event)
        ensures
            (final(self).counter, final(self).exit) == after_event(
                old(self).counter,
                old(self).exit,
                event,
            ),
    {
        match event {
            Event::Key(key_event) => {
                if key_event.kind == KeyEventKind::Press {
                    self.handle_key_event(key_event);
                }
            },
            Event::Other => {},
        }
    }

    /// Asks the main loop to stop.
    pub fn exit(&mut self)
        ensures
            final(self).exit,
            final(self).counter == old(self).counter,
    {
        self.exit = true;
    }

    /// One step up, saturating at 255.
    pub fn increment_counter(&mut self)
        ensures
            final(self).counter == counter_up(old(self).counter),
            final(self).exit == old(self).exit,
    {
        self.counter = self.counter.saturating_add(1);
    }

    /// One step down, saturating at 0.
    pub fn decrement_counter(&mut self)
        ensures
            final(self).counter == counter_down(old(self).counter),
            final(self).exit == old(self).exit,
    {
        self.counter = self.counter.saturating_sub(1);
    }

    /// Handles a key event: `q` quits, left counts down, right counts up.
    pub fn handle_key_event(&mut self, key_event: KeyEvent)
        ensures
            (final(self).counter, final(self).exit) == after_key(
                old(self).counter,
                old(self).exit,
                key_event,
            ),
    {
        match key_event.code {
            KeyCode::Char(c) => {
                if c == 'q' {
                    self.exit();
                }
            },
            KeyCode::Left => self.decrement_counter(),
            KeyCode::Right => self.increment_counter(),
            KeyCode::Other => {},
        }
    }
}

/// A press of `code`.
pub open spec fn press(code: KeyCode) -> KeyEvent {
    KeyEvent { code, kind: KeyEventKind::Press }
}

/// Below the top, a step right then a step left gives back the state.
pub proof fn lemma_right_then_left_restores(counter: u8, exit: bool)
    requires
        counter < 255,
    ensures
        ({
            let (c1, e1) = after_key(counter, exit, press(KeyCode::Right));
            after_key(c1, e1, press(KeyCode::Left))
        }) == (counter, exit),
{
}

/// Above the bottom, a step left then a step right gives back the state.
pub proof fn lemma_left_then_right_restores(counter: u8, exit: bool)
    requires
        counter > 0,
    ensures
        ({
            let (c1, e1) = after_key(counter, exit, press(KeyCode::Left));
            after_key(c1, e1, press(KeyCode::Right))
        }) == (counter, exit),
{
}

/// The counter saturates: a step right at 255 and a step left at 0 change nothing.
pub proof fn lemma_counter_saturates(exit: bool)
    ensures
        after_key(255, exit, press(KeyCode::Right)) == (255u8, exit),
        after_key(0, exit, press(KeyCode::Left)) == (0u8, exit),
{
}

/// Pressing `q` asks to quit and leaves the counter as it was.
pub proof fn lemma_quit_keeps_counter(counter: u8, exit: bool)
    ensures
        after_event(counter, exit, Event::Key(press(KeyCode::Char('q')))) == (counter, true),
{
}

/// Once the user asked to quit, no event takes it back.
pub proof fn lemma_quit_is_final(counter: u8, ev: Event)
    ensures
        after_event(counter, true, ev).1,
{
}

/// Only key presses change the state: repeats, releases and other events leave it.
pub proof fn lemma_only_presses_count(counter: u8, exit: bool, ev: Event)
    requires
        !(ev matches Event::Key(k) && k.kind == KeyEventKind::Press),
    ensures
        after_event(counter, exit, ev) == (counter, exit),
{
}

/// Only `q` quits: any other character leaves the state as it was.
pub proof fn lemma_only_q_quits(counter: u8, exit: bool, c: char)
    requires
        c != 'q',
    ensures
        after_key(counter, exit, press(KeyCode::Char(c))) == (counter, exit),
        after_event(counter, exit, Event::Key(press(KeyCode::Char(c)))) == (counter, exit),
{
}

/// The arrows move the counter by one, staying within 0 and 255, and leave the quit
/// flag; other keys that are not characters change nothing.
pub proof fn lemma_arrows_move_by_one(counter: u8, exit: bool)
    ensures
        after_key(counter, exit, press(KeyCode::Right)).0 as int == if counter < 255 {
            counter + 1
        } else {
            255
        },
        after_key(counter, exit, press(KeyCode::Left)).0 as int == if counter > 0 {
            counter - 1
        } else {
            0
        },
        after_key(counter, exit, press(KeyCode::Right)).1 == exit,
        after_key(counter, exit, press(KeyCode::Left)).1 == exit,
        after_key(counter, exit, press(KeyCode::Other)) == (counter, exit),
{
}

/// A key event acts the same whatever its kind; only the screen's event handling
/// filters out what is not a press.
pub proof fn lemma_key_kind_not_read(counter: u8, exit: bool, code: KeyCode, kind: KeyEventKind)
    ensures
        after_key(counter, exit, KeyEvent { code, kind }) == after_key(counter, exit, press(code)),
{
}

/// A key press is handled as that key: the screen acts on every press.
pub proof fn lemma_presses_are_handled(counter: u8, exit: bool, code: KeyCode)
    ensures
        after_event(counter, exit, Event::Key(press(code))) == after_key(counter, exit, press(code)),
{
}

} // verus!
