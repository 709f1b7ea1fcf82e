//! A single emulated computer.

use vstd::prelude::*;
use vstd::string::StringExecFns;

use crate::backend::{
    one_based, signed, signed_long, to_one_based, to_signed, to_signed_long, BackendCall,
    BackendValue,
};
use crate::color::{number_color, number_to_hex};
use crate::convert::{button_code, button_to_lwjgl, key_code, key_to_lwjgl, Key, MouseButton};
use crate::failure::FrameError;
use crate::input::{command_down, shift_down, CursorReport, Event, HeldKeys, Modifier};
use crate::grid::{
    decode_frame, decode_row, decoded_row, frame_is_well_formed, is_decoded, is_decoded_frame, Cell,
    LinePair,
};

verus! {

/// The time between two cursor flashes, in nanoseconds.
pub const CURSOR_FLASH_RATE: u64 = 500_000_000;

/// The time to hold a timed keyboard shortcut for, in nanoseconds.
pub const TIMED_SHORTCUT_DURATION: u64 = 1_000_000_000;

/// The desired time for one frame, in nanoseconds: a sixtieth of a second.
pub const DESIRED_FRAME_DURATION: u64 = 16_666_666;

/// An action for the emulator to perform.
#[derive(Clone, Copy, Debug, PartialEq, Eq, Structural)]
pub enum Action {
    /// Open a new computer, advanced or normal, pocket-sized or not.
    NewInstance { advanced: bool, pocket: bool },
}

/// Minion initialization options.
#[derive(Clone, Debug)]
pub struct Options {
    pub id: u32,
    pub advanced: bool,
    pub title: String,
    pub width: u32,
    pub height: u32,
    pub space_limit: u64,
}

/// A command that is bound to holding a key together with control.
#[derive(Clone, Copy, Debug, PartialEq, Eq, Structural)]
pub enum TimedShortcut {
    Reboot,
    Shutdown,
    Terminate,
}

/// A timed shortcut that is being held, and since when.
#[derive(Clone, Copy, Debug, PartialEq, Eq, Structural)]
pub struct ShortcutTimer {
    pub shortcut: TimedShortcut,
    pub start_time: u64,
}

/// The cell of the last drag that was passed on, counted from one; both are
/// -1 as long as none was.
#[derive(Clone, Copy, Debug, PartialEq, Eq, Structural)]
pub struct DragState {
    pub last_cell_x: i32,
    pub last_cell_y: i32,
}

/// What to do with the cursor on the display.
#[derive(Clone, Copy, Debug, PartialEq, Eq, Structural)]
pub enum CursorUpdate {
    /// Hide it, and leave its position and color alone.
    Hidden,
    /// Show it at a position, in a color.
    Shown { x: i32, y: i32, color: u32 },
}

/// What was read for one frame: the lines and the cursor of the machine,
/// and the keys that are down.
#[derive(Clone, Debug)]
pub struct FrameReport {
    pub lines: Vec<LinePair>,
    pub cursor: CursorReport,
    pub held: HeldKeys,
}

/// What to do for one frame: the cells to draw, row by row, what to do with
/// the cursor, and the call of a timed shortcut that fired.
#[derive(Clone, Debug)]
pub struct FrameUpdate {
    pub rows: Vec<Vec<Cell>>,
    pub cursor: CursorUpdate,
    pub call: Option<BackendCall>,
}

/// The state of one emulated computer's controller.  Times are in
/// nanoseconds on a clock of the caller's choosing.
#[derive(Clone, Copy, Debug, PartialEq, Eq)]
pub struct Minion {
    pub width: u32,
    pub height: u32,
    /// Whether a blinking cursor is in the lit half of its cycle.
    pub cursor_flash: bool,
    /// When `cursor_flash` last changed.
    pub cursor_flash_swap_time: u64,
    pub shortcut_timer: Option<ShortcutTimer>,
    pub modem_attached: bool,
    pub drag: DragState,
    /// When the machine was last advanced.
    pub advance_time: u64,
    /// Whether the meta modifier counts as the command modifier, as it does
    /// on a Mac.
    pub meta_is_command: bool,
}

/// Whether `character` can be typed: the printable ASCII characters, space
/// to tilde.
pub open spec fn is_typeable(character: char) -> bool {
    ' ' <= character && character <= '~'
}

/// The call that passes on a key press, if the key has a code.
pub open spec fn key_call(key: Key) -> Option<BackendCall> {
    match key_code(key) {
        Some(code) => Some(BackendCall::KeyEvent { code }),
        None => None,
    }
}

/// The call that passes on a typed character, if it can be typed.
pub open spec fn char_call(character: char) -> Option<BackendCall> {
    if is_typeable(character) {
        Some(BackendCall::CharEvent { character })
    } else {
        None
    }
}

/// The call that passes on a click.
pub open spec fn click_call(cell_x: u32, cell_y: u32, button: MouseButton) -> BackendCall {
    BackendCall::MouseClickEvent {
        button: button_code(button),
        x: one_based(cell_x),
        y: one_based(cell_y),
    }
}

/// The call that passes on a turn of the wheel: backwards for a negative
/// amount, forwards otherwise.
pub open spec fn scroll_call(cell_x: u32, cell_y: u32, negative: bool) -> BackendCall {
    BackendCall::MouseScrollEvent {
        direction: if negative {
            -1i32
        } else {
            1i32
        },
        x: signed(cell_x),
        y: signed(cell_y),
    }
}

/// The time from `earlier` to `later`; nothing if `later` is the earlier one.
pub open spec fn time_between(earlier: u64, later: u64) -> u64 {
    if later >= earlier {
        (later - earlier) as u64
    } else {
        0
    }
}

/// How long to pause after a round of events that began at `started` and
/// was done at `finished`: what is left of the desired frame duration.
pub open spec fn frame_pause(started: u64, finished: u64) -> u64 {
    if time_between(started, finished) < DESIRED_FRAME_DURATION {
        (DESIRED_FRAME_DURATION - time_between(started, finished)) as u64
    } else {
        0
    }
}

/// `calls` with `call` at its end, if there is one.
pub open spec fn with_call(calls: Seq<BackendCall>, call: Option<BackendCall>) -> Seq<
    BackendCall,
> {
    match call {
        Some(call) => calls.push(call),
        None => calls,
    }
}

/// What a key press amounts to as a keyboard shortcut.
#[derive(Clone, Copy, Debug, PartialEq, Eq, Structural)]
pub struct ShortcutOutcome {
    /// What the shortcut asks of the emulator.
    pub action: Option<Action>,
    /// Whether the key press was a shortcut, and so is kept from the machine.
    pub suppress: bool,
    /// What the shortcut asks of the machine.
    pub call: Option<BackendCall>,
}

/// What a round of events amounts to.
#[derive(Clone, Debug)]
pub struct EventOutcome {
    /// The calls to make on the machine, in order.
    pub calls: Vec<BackendCall>,
    /// The last thing that a shortcut asked of the emulator.
    pub action: Option<Action>,
}

/// How far a round of events has come: the controller, the calls and the
/// action so far, and whether the last key press was a shortcut.
pub struct Dispatch {
    pub minion: Minion,
    pub calls: Seq<BackendCall>,
    pub action: Option<Action>,
    pub suppress: bool,
}

/// A round of events that has not begun.
pub open spec fn dispatch_start(minion: Minion) -> Dispatch {
    Dispatch { minion, calls: Seq::empty(), action: None, suppress: false }
}

/// The round after one more event.
///
/// A key press is first taken as a shortcut.  If it is one, its action
/// replaces the action so far and the key is kept from the machine; if not,
/// the key is passed on, as far as it has a code.  A character is passed on
/// unless the last key press was a shortcut, as far as it can be typed.
/// Clicks and turns of the wheel are passed on; drags are unless they stay
/// in the cell of the last one.
pub open spec fn dispatch_event(before: Dispatch, event: Event) -> Dispatch {
    match event {
        Event::KeyDown { key, modifiers } => {
            let outcome = before.minion.shortcut_outcome(key, modifiers@);
            let calls = with_call(before.calls, outcome.call);
            Dispatch {
                minion: before.minion.after_shortcut(key, modifiers@),
                calls: if outcome.suppress {
                    calls
                } else {
                    with_call(calls, key_call(key))
                },
                action: if outcome.action is Some {
                    outcome.action
                } else {
                    before.action
                },
                suppress: outcome.suppress,
            }
        },
        Event::Character { character } => if before.suppress {
            before
        } else {
            Dispatch { calls: with_call(before.calls, char_call(character)), ..before }
        },
        Event::MouseDown { cell_x, cell_y, button } => Dispatch {
            calls: before.calls.push(click_call(cell_x, cell_y, button)),
            ..before
        },
        Event::MouseDrag { cell_x, cell_y, button } => Dispatch {
            minion: before.minion.after_drag(cell_x, cell_y),
            calls: with_call(before.calls, before.minion.drag_call(cell_x, cell_y, button)),
            ..before
        },
        Event::MouseScroll { cell_x, cell_y, negative } => Dispatch {
            calls: before.calls.push(scroll_call(cell_x, cell_y, negative)),
            ..before
        },
        Event::Other => before,
    }
}

/// The round after `events`, taken in order.
pub open spec fn dispatch_events(start: Dispatch, events: Seq<Event>) -> Dispatch
    decreases events.len(),
{
    if events.len() == 0 {
        start
    } else {
        dispatch_event(dispatch_events(start, events.drop_last()), events.last())
    }
}

impl TimedShortcut {
    /// The call that the shortcut makes when it fires.
    pub open spec fn call(self) -> BackendCall {
        match self {
            TimedShortcut::Reboot => BackendCall::Reboot,
            TimedShortcut::Shutdown => BackendCall::Shutdown,
            TimedShortcut::Terminate => BackendCall::Terminate,
        }
    }
}

/// How long to pause after a round of events so that frames come no faster
/// than sixty a second.  A round that took longer is not made up for.
pub fn frame_delay(started: u64, finished: u64) -> (pause: u64)
    ensures
        pause == frame_pause(started, finished),
{
    let taken = if finished >= started {
        finished - started
    } else {
        0
    };
    if taken < DESIRED_FRAME_DURATION {
        DESIRED_FRAME_DURATION - taken
    } else {
        0
    }
}

impl Options {
    /// What the emulated machine is built from, in the order in which it
    /// takes them: its number, whether it is advanced, its width and height
    /// in cells, the directory it stores its files in, and the space it may
    /// fill there.
    pub fn backend_arguments(&self, storage_dir: &str) -> (arguments: Vec<BackendValue>)
        ensures
            arguments.len() == 6,
            arguments[0] == BackendValue::Int(signed(self.id)),
            arguments[1] == BackendValue::Boolean(self.advanced),
            arguments[2] == BackendValue::Int(signed(self.width)),
            arguments[3] == BackendValue::Int(signed(self.height)),
            arguments[4] matches BackendValue::Text(text) && text@ == storage_dir@,
            arguments[5] == BackendValue::Long(signed_long(self.space_limit)),
    {
        let mut arguments: Vec<BackendValue> = Vec::new();
        arguments.push(BackendValue::Int(to_signed(self.id)));
        arguments.push(BackendValue::Boolean(self.advanced));
        arguments.push(BackendValue::Int(to_signed(self.width)));
        arguments.push(BackendValue::Int(to_signed(self.height)));
        arguments.push(BackendValue::Text(String::from_str(storage_dir)));
        arguments.push(BackendValue::Long(to_signed_long(self.space_limit)));
        arguments
    }
}

impl Minion {
    /// The controller of a machine that was switched on at `now`.
    pub open spec fn initial(options: Options, now: u64, meta_is_command: bool) -> Minion {
        Minion {
            width: options.width,
            height: options.height,
            cursor_flash: true,
            cursor_flash_swap_time: now,
            shortcut_timer: None,
            modem_attached: false,
            drag: DragState { last_cell_x: -1i32, last_cell_y: -1i32 },
            advance_time: now,
            meta_is_command,
        }
    }

    /// Create a new minion.
    pub fn new(options: &Options, now: u64, meta_is_command: bool) -> (minion: Minion)
        ensures
            minion == Minion::initial(*options, now, meta_is_command),
    {
        Minion {
            width: options.width,
            height: options.height,
            cursor_flash: true,
            cursor_flash_swap_time: now,
            shortcut_timer: None,
            modem_attached: false,
            drag: DragState { last_cell_x: -1, last_cell_y: -1 },
            advance_time: now,
            meta_is_command,
        }
    }

    /// Trigger a key down event: the call to make, or none for a key that
    /// the machine has no code for.
    pub fn trigger_key(&self, key: Key) -> (call: Option<BackendCall>)
        ensures
            call == key_call(key),
    {
        match key_to_lwjgl(key) {
            Some(code) => Some(BackendCall::KeyEvent { code }),
            None => None,
        }
    }

    /// Trigger a char event: the call to make, or none for a character that
    /// cannot be typed.
    pub fn trigger_char(&self, character: char) -> (call: Option<BackendCall>)
        ensures
            call == char_call(character),
    {
        if ' ' <= character && character <= '~' {
            Some(BackendCall::char_event(character))
        } else {
            None
        }
    }

    /// Trigger a mouse click event on the cell under the pointer.
    pub fn trigger_mouse_click(&self, cell_x: u32, cell_y: u32, button: MouseButton) -> (call:
        BackendCall)
        ensures
            call == click_call(cell_x, cell_y, button),
    {
        BackendCall::MouseClickEvent {
            button: button_to_lwjgl(button),
            x: to_one_based(cell_x),
            y: to_one_based(cell_y),
        }
    }

    /// Trigger a mouse scroll event on the cell under the pointer.
    pub fn trigger_scroll(&self, cell_x: u32, cell_y: u32, negative: bool) -> (call: BackendCall)
        ensures
            call == scroll_call(cell_x, cell_y, negative),
    {
        let direction: i32 = if negative {
            -1
        } else {
            1
        };
        BackendCall::MouseScrollEvent {
            direction,
            x: to_signed(cell_x),
            y: to_signed(cell_y),
        }
    }

    /// Whether the cursor's flash is due to change at `now`.
    pub open spec fn flash_is_due(self, now: u64) -> bool {
        time_between(self.cursor_flash_swap_time, now) >= CURSOR_FLASH_RATE
    }

    /// The controller after the machine was advanced at `now`: the flash has
    /// changed, once, if it was due.
    pub open spec fn after_advance(self, now: u64) -> Minion {
        if self.flash_is_due(now) {
            Minion {
                advance_time: now,
                cursor_flash: !self.cursor_flash,
                cursor_flash_swap_time: now,
                ..self
            }
        } else {
            Minion { advance_time: now, ..self }
        }
    }

    /// Advance the computer's clock to `now`.  Returns the time by which to
    /// advance the machine: the time since the last advance.  The cursor's
    /// flash changes if half a second has gone by since it last did, however
    /// many frames were drawn meanwhile.
    pub fn advance(&mut self, now: u64) -> (delta: u64)
        ensures
            delta == time_between(old(self).advance_time, now),
            *final(self) == old(self).after_advance(now),
    {
        let delta = if now >= self.advance_time {
            now - self.advance_time
        } else {
            0
        };
        self.advance_time = now;
        let since_swap = if now >= self.cursor_flash_swap_time {
            now - self.cursor_flash_swap_time
        } else {
            0
        };
        if since_swap >= CURSOR_FLASH_RATE {
            self.cursor_flash = !self.cursor_flash;
            self.cursor_flash_swap_time = now;
        }
        delta
    }

    /// Decode the cell contents of one line from the machine's text and
    /// color string.
    pub fn update_line(&self, text: &str, color: &str) -> (result: Result<Vec<Cell>, FrameError>)
        ensures
            is_decoded(result, decoded_row(self.width as nat, text@, color@)),
    {
        decode_row(self.width, text, color)
    }

    /// Decode the cell contents of every line of the display, top to bottom.
    pub fn update_lines(&self, lines: &Vec<LinePair>) -> (result: Result<Vec<Vec<Cell>>, FrameError>)
        ensures
            match result {
                Ok(rows) => frame_is_well_formed(self.width as nat, self.height as nat, lines@)
                    && is_decoded_frame(rows@, self.width as nat, lines@),
                Err(error) => error == FrameError::MalformedFrameData && !frame_is_well_formed(
                    self.width as nat,
                    self.height as nat,
                    lines@,
                ),
            },
    {
        decode_frame(self.width, self.height, lines)
    }

    /// What to do with the cursor, given what the machine reports of it: it
    /// shows while it blinks and the flash is lit.  A color that the palette
    /// does not have is an error, shown or not.
    pub open spec fn cursor_update(self, report: CursorReport) -> Result<CursorUpdate, FrameError> {
        match number_color(report.color as int) {
            Ok(color) => Ok(
                if report.blink && self.cursor_flash {
                    CursorUpdate::Shown { x: report.x, y: report.y, color }
                } else {
                    CursorUpdate::Hidden
                },
            ),
            Err(error) => Err(error),
        }
    }

    /// Update the cursor position and visibility.
    pub fn update_cursor(&self, report: &CursorReport) -> (result: Result<CursorUpdate, FrameError>)
        ensures
            result == self.cursor_update(*report),
    {
        let visible = report.blink && self.cursor_flash;
        match number_to_hex(report.color) {
            Ok(color) => if visible {
                Ok(CursorUpdate::Shown { x: report.x, y: report.y, color })
            } else {
                Ok(CursorUpdate::Hidden)
            },
            Err(error) => Err(error),
        }
    }

    /// Whether the held shortcut is still held at `now`: its key and a
    /// control key are down.
    pub open spec fn timer_is_held(self, held: HeldKeys) -> bool {
        self.shortcut_timer matches Some(timer) && held.is_down(timer.shortcut)
            && held.command_down()
    }

    /// Whether the held shortcut fires at `now`: it is still held, and has
    /// been for the full duration.
    pub open spec fn timer_fires(self, now: u64, held: HeldKeys) -> bool {
        self.shortcut_timer matches Some(timer) && self.timer_is_held(held) && time_between(
            timer.start_time,
            now,
        ) >= TIMED_SHORTCUT_DURATION
    }

    /// The call that the timed shortcuts make at `now`, if any.
    pub open spec fn timed_call(self, now: u64, held: HeldKeys) -> Option<BackendCall> {
        if self.timer_fires(now, held) {
            Some(self.shortcut_timer->0.shortcut.call())
        } else {
            None
        }
    }

    /// The timer after the timed shortcuts were looked at at `now`.  A timer
    /// that runs goes on while its shortcut is held and has not fired, and
    /// stops otherwise.  With no timer running, one starts if a control key
    /// and the key of a shortcut are down.
    pub open spec fn timer_after(self, now: u64, held: HeldKeys) -> Option<ShortcutTimer> {
        match self.shortcut_timer {
            Some(timer) => if self.timer_is_held(held) && !self.timer_fires(now, held) {
                Some(timer)
            } else {
                None
            },
            None => if held.command_down() {
                match held.pressed() {
                    Some(shortcut) => Some(ShortcutTimer { shortcut, start_time: now }),
                    None => None,
                }
            } else {
                None
            },
        }
    }

    /// Updates any timed keyboard shortcuts.  Returns the call of the
    /// shortcut that fires, if one does.
    pub fn update_timed_shortcuts(&mut self, now: u64, held: &HeldKeys) -> (call: Option<
        BackendCall,
    >)
        ensures
            call == old(self).timed_call(now, *held),
            *final(self) == (Minion {
                shortcut_timer: old(self).timer_after(now, *held),
                ..*old(self)
            }),
    {
        let command_down = held.left_control || held.right_control;
        match self.shortcut_timer {
            Some(timer) => {
                let key_down = match timer.shortcut {
                    TimedShortcut::Reboot => held.r,
                    TimedShortcut::Shutdown => held.s,
                    TimedShortcut::Terminate => held.t,
                };
                if key_down && command_down {
                    let held_for = if now >= timer.start_time {
                        now - timer.start_time
                    } else {
                        0
                    };
                    if held_for >= TIMED_SHORTCUT_DURATION {
                        self.shortcut_timer = None;
                        match timer.shortcut {
                            TimedShortcut::Reboot => Some(self.reboot()),
                            TimedShortcut::Shutdown => Some(self.shutdown()),
                            TimedShortcut::Terminate => Some(self.terminate()),
                        }
                    } else {
                        None
                    }
                } else {
                    self.shortcut_timer = None;
                    None
                }
            },
            None => {
                if command_down {
                    if held.r {
                        self.shortcut_timer = Some(
                            ShortcutTimer { shortcut: TimedShortcut::Reboot, start_time: now },
                        );
                    } else if held.s {
                        self.shortcut_timer = Some(
                            ShortcutTimer { shortcut: TimedShortcut::Shutdown, start_time: now },
                        );
                    } else if held.t {
                        self.shortcut_timer = Some(
                            ShortcutTimer { shortcut: TimedShortcut::Terminate, start_time: now },
                        );
                    }
                }
                None
            },
        }
    }

    /// Whether a frame can be drawn from `report`: its lines are well
    /// formed and the color of its cursor is one of the palette.
    pub open spec fn frame_is_drawable(self, report: FrameReport) -> bool {
        frame_is_well_formed(self.width as nat, self.height as nat, report.lines@)
            && self.cursor_update(report.cursor) is Ok
    }

    /// The error that a frame that cannot be drawn is refused with: that of
    /// its lines if they are not well formed, else that of its cursor.
    pub open spec fn frame_error(self, report: FrameReport) -> FrameError {
        if !frame_is_well_formed(self.width as nat, self.height as nat, report.lines@) {
            FrameError::MalformedFrameData
        } else {
            FrameError::InvalidColorDigit
        }
    }

    /// Update the contents of the window's cells, the cursor and the timed
    /// shortcuts from what was read for one frame.  A frame that cannot be
    /// drawn is given up as a whole: nothing is drawn of it, and the timed
    /// shortcuts are not looked at.
    pub fn update(&mut self, report: &FrameReport, now: u64) -> (result: Result<
        FrameUpdate,
        FrameError,
    >)
        ensures
            match result {
                Ok(update) => {
                    &&& old(self).frame_is_drawable(*report)
                    &&& is_decoded_frame(update.rows@, old(self).width as nat, report.lines@)
                    &&& old(self).cursor_update(report.cursor) == Ok::<CursorUpdate, FrameError>(
                        update.cursor,
                    )
                    &&& update.call == old(self).timed_call(now, report.held)
                    &&& *final(self) == (Minion {
                        shortcut_timer: old(self).timer_after(now, report.held),
                        ..*old(self)
                    })
                },
                Err(error) => {
                    &&& !old(self).frame_is_drawable(*report)
                    &&& error == old(self).frame_error(*report)
                    &&& *final(self) == *old(self)
                },
            },
    {
        let rows = match self.update_lines(&report.lines) {
            Ok(rows) => rows,
            Err(error) => {
                return Err(error);
            },
        };
        let cursor = match self.update_cursor(&report.cursor) {
            Ok(cursor) => cursor,
            Err(error) => {
                return Err(error);
            },
        };
        let call = self.update_timed_shortcuts(now, &report.held);
        Ok(FrameUpdate { rows, cursor, call })
    }

    /// What pressing `key` with `modifiers` amounts to as a shortcut.  With
    /// the command modifier, N opens a new advanced computer and B a new
    /// advanced pocket computer, with shift normal ones; A attaches the
    /// modem, or detaches it if it is attached; V pastes.
    pub open spec fn shortcut_outcome(self, key: Key, modifiers: Seq<Modifier>) -> ShortcutOutcome {
        if command_down(modifiers, self.meta_is_command) {
            match key {
                Key::N => ShortcutOutcome {
                    action: Some(
                        Action::NewInstance { advanced: !shift_down(modifiers), pocket: false },
                    ),
                    suppress: true,
                    call: None,
                },
                Key::B => ShortcutOutcome {
                    action: Some(
                        Action::NewInstance { advanced: !shift_down(modifiers), pocket: true },
                    ),
                    suppress: true,
                    call: None,
                },
                Key::A => ShortcutOutcome {
                    action: None,
                    suppress: true,
                    call: Some(
                        if self.modem_attached {
                            BackendCall::DetachModem
                        } else {
                            BackendCall::AttachModem
                        },
                    ),
                },
                Key::V => ShortcutOutcome {
                    action: None,
                    suppress: true,
                    call: Some(BackendCall::Paste),
                },
                _ => ShortcutOutcome { action: None, suppress: false, call: None },
            }
        } else {
            ShortcutOutcome { action: None, suppress: false, call: None }
        }
    }

    /// The controller after `key` was pressed with `modifiers`: the modem
    /// shortcut changes whether the modem is attached, and nothing else
    /// changes anything.
    pub open spec fn after_shortcut(self, key: Key, modifiers: Seq<Modifier>) -> Minion {
        if command_down(modifiers, self.meta_is_command) && key == Key::A {
            Minion { modem_attached: !self.modem_attached, ..self }
        } else {
            self
        }
    }

    /// Handle keyboard shortcuts, returning an action for the emulator to
    /// act on, a call for the machine, and whether to suppress the
    /// following key event.
    pub fn trigger_shortcuts(&mut self, key: Key, modifiers: &Vec<Modifier>) -> (outcome:
        ShortcutOutcome)
        ensures
            outcome == old(self).shortcut_outcome(key, modifiers@),
            *final(self) == old(self).after_shortcut(key, modifiers@),
    {
        let mut command = false;
        let mut shift = false;
        let mut i: usize = 0;
        while i < modifiers.len()
            invariant
                i <= modifiers.len(),
                *self == *old(self),
                command == command_down(modifiers@.take(i as int), self.meta_is_command),
                shift == shift_down(modifiers@.take(i as int)),
            decreases modifiers.len() - i,
        {
            proof {
                let before = modifiers@.take(i as int);
                let after = modifiers@.take(i + 1);
                assert(after =~= before.push(modifiers@[i as int]));
                assert forall|m: Modifier|
                    after.contains(m) <==> (before.contains(m) || m == modifiers@[i as int]) by {
                    if before.contains(m) {
                        let j = choose|j: int| 0 <= j < before.len() && before[j] == m;
                        assert(after[j] == m);
                    }
                    if m == modifiers@[i as int] {
                        assert(after[i as int] == m);
                    }
                }
            }
            match modifiers[i] {
                Modifier::Shift => {
                    shift = true;
                },
                Modifier::Control => {
                    command = true;
                },
                Modifier::Meta => {
                    if self.meta_is_command {
                        command = true;
                    }
                },
                Modifier::Alt => {},
            }
            i += 1;
        }
        assert(modifiers@.take(i as int) =~= modifiers@);
        if command {
            match key {
                Key::N => ShortcutOutcome {
                    action: Some(Action::NewInstance { advanced: !shift, pocket: false }),
                    suppress: true,
                    call: None,
                },
                Key::B => ShortcutOutcome {
                    action: Some(Action::NewInstance { advanced: !shift, pocket: true }),
                    suppress: true,
                    call: None,
                },
                Key::A => {
                    let call = if self.modem_attached {
                        self.detach_modem()
                    } else {
                        self.attach_modem()
                    };
                    ShortcutOutcome { action: None, suppress: true, call: Some(call) }
                },
                Key::V => ShortcutOutcome {
                    action: None,
                    suppress: true,
                    call: Some(self.paste()),
                },
                _ => ShortcutOutcome { action: None, suppress: false, call: None },
            }
        } else {
            ShortcutOutcome { action: None, suppress: false, call: None }
        }
    }

    /// Trigger any user events: works through `events` in order and says
    /// which calls to make on the machine and what to ask of the emulator.
    /// Of several actions the last one is returned.
    pub fn trigger_events(&mut self, events: &Vec<Event>) -> (outcome: EventOutcome)
        ensures
            *final(self) == dispatch_events(dispatch_start(*old(self)), events@).minion,
            outcome.calls@ == dispatch_events(dispatch_start(*old(self)), events@).calls,
            outcome.action == dispatch_events(dispatch_start(*old(self)), events@).action,
    {
        let mut calls: Vec<BackendCall> = Vec::new();
        let mut action: Option<Action> = None;
        let mut suppress = false;
        let mut i: usize = 0;
        while i < events.len()
            invariant
                i <= events.len(),
                dispatch_events(dispatch_start(*old(self)), events@.take(i as int)) == (Dispatch {
                    minion: *self,
                    calls: calls@,
                    action,
                    suppress,
                }),
            decreases events.len() - i,
        {
            proof {
                assert(events@.take(i + 1).drop_last() =~= events@.take(i as int));
                assert(events@.take(i + 1).last() == events@[i as int]);
            }
            match &events[i] {
                Event::KeyDown { key, modifiers } => {
                    let outcome = self.trigger_shortcuts(*key, modifiers);
                    if let Some(call) = outcome.call {
                        calls.push(call);
                    }
                    if outcome.action.is_some() {
                        action = outcome.action;
                    }
                    suppress = outcome.suppress;
                    if !suppress {
                        if let Some(call) = self.trigger_key(*key) {
                            calls.push(call);
                        }
                    }
                },
                Event::Character { character } => {
                    if !suppress {
                        if let Some(call) = self.trigger_char(*character) {
                            calls.push(call);
                        }
                    }
                },
                Event::MouseDown { cell_x, cell_y, button } => {
                    calls.push(self.trigger_mouse_click(*cell_x, *cell_y, *button));
                },
                Event::MouseDrag { cell_x, cell_y, button } => {
                    if let Some(call) = self.trigger_mouse_drag(*cell_x, *cell_y, *button) {
                        calls.push(call);
                    }
                },
                Event::MouseScroll { cell_x, cell_y, negative } => {
                    calls.push(self.trigger_scroll(*cell_x, *cell_y, *negative));
                },
                Event::Other => {},
            }
            i += 1;
        }
        assert(events@.take(i as int) =~= events@);
        EventOutcome { calls, action }
    }

    /// Whether a drag over a cell is passed on: it is unless the cell is the
    /// one of the last drag that was.
    pub open spec fn drag_is_new(self, cell_x: u32, cell_y: u32) -> bool {
        one_based(cell_x) != self.drag.last_cell_x || one_based(cell_y) != self.drag.last_cell_y
    }

    /// The call that a drag over a cell leads to, if any.
    pub open spec fn drag_call(self, cell_x: u32, cell_y: u32, button: MouseButton) -> Option<
        BackendCall,
    > {
        if self.drag_is_new(cell_x, cell_y) {
            Some(
                BackendCall::MouseDragEvent {
                    button: button_code(button),
                    x: one_based(cell_x),
                    y: one_based(cell_y),
                },
            )
        } else {
            None
        }
    }

    /// The controller after a drag over a cell: it remembers the cell if the
    /// drag was passed on, and is unchanged if not.
    pub open spec fn after_drag(self, cell_x: u32, cell_y: u32) -> Minion {
        if self.drag_is_new(cell_x, cell_y) {
            Minion {
                drag: DragState { last_cell_x: one_based(cell_x), last_cell_y: one_based(cell_y) },
                ..self
            }
        } else {
            self
        }
    }

    /// Trigger a mouse drag event on the cell under the pointer.  Moving
    /// within one cell is passed on once only.
    pub fn trigger_mouse_drag(&mut self, cell_x: u32, cell_y: u32, button: MouseButton) -> (call:
        Option<BackendCall>)
        ensures
            call == old(self).drag_call(cell_x, cell_y, button),
            *final(self) == old(self).after_drag(cell_x, cell_y),
    {
        let converted_button = button_to_lwjgl(button);
        let rx = to_one_based(cell_x);
        let ry = to_one_based(cell_y);
        if rx != self.drag.last_cell_x || ry != self.drag.last_cell_y {
            self.drag = DragState { last_cell_x: rx, last_cell_y: ry };
            Some(BackendCall::MouseDragEvent { button: converted_button, x: rx, y: ry })
        } else {
            None
        }
    }

    /// Attach a modem on the minion.
    pub fn attach_modem(&mut self) -> (call: BackendCall)
        ensures
            call == BackendCall::AttachModem,
            *final(self) == (Minion { modem_attached: true, ..*old(self) }),
    {
        self.modem_attached = true;
        BackendCall::AttachModem
    }

    /// Detach the modem from the minion.
    pub fn detach_modem(&mut self) -> (call: BackendCall)
        ensures
            call == BackendCall::DetachModem,
            *final(self) == (Minion { modem_attached: false, ..*old(self) }),
    {
        self.modem_attached = false;
        BackendCall::DetachModem
    }

    /// Paste the current clipboard contents string.
    pub fn paste(&self) -> (call: BackendCall)
        ensures
            call == BackendCall::Paste,
    {
        BackendCall::Paste
    }

    /// Terminate the current program on the computer.
    pub fn terminate(&self) -> (call: BackendCall)
        ensures
            call == BackendCall::Terminate,
    {
        BackendCall::Terminate
    }

    /// Shutdown the computer.
    pub fn shutdown(&self) -> (call: BackendCall)
        ensures
            call == BackendCall::Shutdown,
    {
        BackendCall::Shutdown
    }

    /// Reboot the computer.
    pub fn reboot(&self) -> (call: BackendCall)
        ensures
            call == BackendCall::Reboot,
    {
        BackendCall::Reboot
    }
}

/// Dragging over the cell of the last drag again passes nothing on and
/// changes nothing, whichever button is held.
pub proof fn lemma_repeated_drag_is_dropped(
    minion: Minion,
    cell_x: u32,
    cell_y: u32,
    first: MouseButton,
    second: MouseButton,
)
    ensures
        minion.after_drag(cell_x, cell_y).drag_call(cell_x, cell_y, second) is None,
        minion.after_drag(cell_x, cell_y).after_drag(cell_x, cell_y) == minion.after_drag(
            cell_x,
            cell_y,
        ),
{
}

/// A drag over another cell than that of the last drag is passed on, with
/// the new cell counted from one, and remembered.
pub proof fn lemma_drag_to_other_cell_is_passed_on(
    minion: Minion,
    from_x: u32,
    from_y: u32,
    to_x: u32,
    to_y: u32,
    button: MouseButton,
)
    requires
        from_x != to_x || from_y != to_y,
    ensures
        minion.after_drag(from_x, from_y).drag_call(to_x, to_y, button) == Some(
            BackendCall::MouseDragEvent {
                button: button_code(button),
                x: one_based(to_x),
                y: one_based(to_y),
            },
        ),
        minion.after_drag(from_x, from_y).after_drag(to_x, to_y).drag == (DragState {
            last_cell_x: one_based(to_x),
            last_cell_y: one_based(to_y),
        }),
{
}

/// Less than half a second after the flash last changed an advance leaves it
/// alone; half a second after, an advance changes it, and another half
/// second later a second advance changes it back.
pub proof fn lemma_flash_cycle(minion: Minion, early: u64, first: u64, second: u64)
    requires
        time_between(minion.cursor_flash_swap_time, early) < CURSOR_FLASH_RATE,
        time_between(minion.cursor_flash_swap_time, first) >= CURSOR_FLASH_RATE,
        time_between(first, second) >= CURSOR_FLASH_RATE,
    ensures
        minion.after_advance(early).cursor_flash == minion.cursor_flash,
        minion.after_advance(early).cursor_flash_swap_time == minion.cursor_flash_swap_time,
        minion.after_advance(first).cursor_flash == !minion.cursor_flash,
        minion.after_advance(first).cursor_flash_swap_time == first,
        minion.after_advance(first).after_advance(second).cursor_flash == minion.cursor_flash,
{
}

/// A key that has no code leads to no call, whatever is held with it: the
/// round goes on as if the key had not been pressed, except that characters
/// are passed on again.
pub proof fn lemma_unmapped_key_is_dropped(before: Dispatch, key: Key, modifiers: Vec<Modifier>)
    requires
        key_code(key) is None,
    ensures
        dispatch_event(before, Event::KeyDown { key, modifiers }) == (Dispatch {
            suppress: false,
            ..before
        }),
{
}

/// One look at the timed shortcuts: when it happens, and which keys are
/// down then.
pub struct Look {
    pub now: u64,
    pub held: HeldKeys,
}

/// The controller after `looks`, taken in order.
pub open spec fn after_looks(minion: Minion, looks: Seq<Look>) -> Minion
    decreases looks.len(),
{
    if looks.len() == 0 {
        minion
    } else {
        let before = after_looks(minion, looks.drop_last());
        Minion {
            shortcut_timer: before.timer_after(looks.last().now, looks.last().held),
            ..before
        }
    }
}

/// The calls that the timed shortcuts make over `looks`, in order.
pub open spec fn calls_over_looks(minion: Minion, looks: Seq<Look>) -> Seq<BackendCall>
    decreases looks.len(),
{
    if looks.len() == 0 {
        Seq::empty()
    } else {
        with_call(
            calls_over_looks(minion, looks.drop_last()),
            after_looks(minion, looks.drop_last()).timed_call(
                looks.last().now,
                looks.last().held,
            ),
        )
    }
}

/// Whether the times of `looks` never go back.
pub open spec fn looks_in_order(looks: Seq<Look>) -> bool {
    forall|i: int, j: int| 0 <= i <= j < looks.len() ==> looks[i].now <= looks[j].now
}

/// Whether a control key and the key of `shortcut` are down at every one of
/// `looks`, and the key of no shortcut that goes before it.
pub open spec fn held_throughout(looks: Seq<Look>, shortcut: TimedShortcut) -> bool {
    forall|i: int|
        0 <= i < looks.len() ==> (#[trigger] looks[i]).held.command_down()
            && looks[i].held.pressed() == Some(shortcut)
}

/// A timer that stops without having run its full time calls nothing:
/// letting go of control or of the key cancels the shortcut.
pub proof fn lemma_release_cancels(minion: Minion, now: u64, held: HeldKeys)
    requires
        minion.shortcut_timer is Some,
        !held.command_down() || !held.is_down(minion.shortcut_timer->0.shortcut),
    ensures
        minion.timed_call(now, held) is None,
        minion.timer_after(now, held) is None,
{
}

/// What holds after a shortcut was held from the first of `looks` on, at
/// least one look and less than twice the duration long.
proof fn lemma_hold_state(minion: Minion, looks: Seq<Look>, shortcut: TimedShortcut)
    requires
        minion.shortcut_timer is None,
        looks.len() > 0,
        looks_in_order(looks),
        held_throughout(looks, shortcut),
        looks.last().now - looks[0].now < 2 * TIMED_SHORTCUT_DURATION,
    ensures
        looks.last().now - looks[0].now < TIMED_SHORTCUT_DURATION ==> calls_over_looks(
            minion,
            looks,
        ) == Seq::<BackendCall>::empty() && after_looks(minion, looks).shortcut_timer == Some(
            ShortcutTimer { shortcut, start_time: looks[0].now },
        ),
        looks.last().now - looks[0].now >= TIMED_SHORTCUT_DURATION ==> calls_over_looks(
            minion,
            looks,
        ) == seq![shortcut.call()] && (after_looks(minion, looks).shortcut_timer matches Some(
            timer,
        ) ==> timer.shortcut == shortcut && timer.start_time >= looks[0].now
            + TIMED_SHORTCUT_DURATION),
    decreases looks.len(),
{
    let earlier = looks.drop_last();
    let last = looks.last();
    if earlier.len() == 0 {
        assert(after_looks(minion, earlier) == minion);
        assert(calls_over_looks(minion, earlier) == Seq::<BackendCall>::empty());
        assert(looks[0] == last);
        assert(last.held.command_down() && last.held.pressed() == Some(shortcut));
    } else {
        assert(earlier[0] == looks[0]);
        assert(earlier.last() == looks[looks.len() - 2]);
        assert(looks[looks.len() - 2].now <= looks[looks.len() - 1].now);
        assert(looks_in_order(earlier)) by {
            assert forall|i: int, j: int| 0 <= i <= j < earlier.len() implies earlier[i].now
                <= earlier[j].now by {
                assert(earlier[i] == looks[i] && earlier[j] == looks[j]);
            }
        }
        assert(held_throughout(earlier, shortcut)) by {
            assert forall|i: int| 0 <= i < earlier.len() implies (#[trigger] earlier[i]).held.command_down()
                && earlier[i].held.pressed() == Some(shortcut) by {
                assert(earlier[i] == looks[i]);
            }
        }
        lemma_hold_state(minion, earlier, shortcut);
        assert(last == looks[looks.len() - 1]);
        assert(last.held.command_down() && last.held.pressed() == Some(shortcut));
        assert(last.held.is_down(shortcut));
        let before = after_looks(minion, earlier);
        if earlier.last().now - looks[0].now >= TIMED_SHORTCUT_DURATION {
            assert(calls_over_looks(minion, earlier) == seq![shortcut.call()]);
            assert(before.timed_call(last.now, last.held) is None);
        } else {
            assert(before.shortcut_timer == Some(
                ShortcutTimer { shortcut, start_time: looks[0].now },
            ));
            if last.now - looks[0].now >= TIMED_SHORTCUT_DURATION {
                assert(before.timed_call(last.now, last.held) == Some(shortcut.call()));
                assert(calls_over_looks(minion, looks) =~= seq![shortcut.call()]);
            }
        }
    }
}

/// Holding control and the key of a shortcut, from a moment at which no
/// timer runs, calls nothing for the duration and then makes the shortcut's
/// call, once: over looks that span less than twice the duration it is made
/// exactly once if they span the duration, and not at all if they do not.
pub proof fn lemma_hold_fires_once(minion: Minion, looks: Seq<Look>, shortcut: TimedShortcut)
    requires
        minion.shortcut_timer is None,
        looks.len() > 0,
        looks_in_order(looks),
        held_throughout(looks, shortcut),
        looks.last().now - looks[0].now < 2 * TIMED_SHORTCUT_DURATION,
    ensures
        calls_over_looks(minion, looks) == if looks.last().now - looks[0].now
            >= TIMED_SHORTCUT_DURATION {
            seq![shortcut.call()]
        } else {
            Seq::<BackendCall>::empty()
        },
{
    lemma_hold_state(minion, looks, shortcut);
}

/// What holds after any looks that span less than the duration, whatever
/// keys were down.
proof fn lemma_early_state(minion: Minion, looks: Seq<Look>)
    requires
        minion.shortcut_timer is None,
        looks.len() > 0,
        looks_in_order(looks),
        looks.last().now - looks[0].now < TIMED_SHORTCUT_DURATION,
    ensures
        calls_over_looks(minion, looks) == Seq::<BackendCall>::empty(),
        after_looks(minion, looks).shortcut_timer matches Some(timer) ==> timer.start_time
            >= looks[0].now,
    decreases looks.len(),
{
    let earlier = looks.drop_last();
    let last = looks.last();
    if earlier.len() == 0 {
        assert(after_looks(minion, earlier) == minion);
        assert(calls_over_looks(minion, earlier) == Seq::<BackendCall>::empty());
        assert(looks[0] == last);
    } else {
        assert(earlier[0] == looks[0]);
        assert(earlier.last() == looks[looks.len() - 2]);
        assert(looks[looks.len() - 2].now <= looks[looks.len() - 1].now);
        assert(looks[0].now <= looks[looks.len() - 1].now);
        assert(looks_in_order(earlier)) by {
            assert forall|i: int, j: int| 0 <= i <= j < earlier.len() implies earlier[i].now
                <= earlier[j].now by {
                assert(earlier[i] == looks[i] && earlier[j] == looks[j]);
            }
        }
        lemma_early_state(minion, earlier);
    }
}

/// No timed shortcut fires within the duration of a moment at which no
/// timer ran, whatever is held and let go meanwhile.
pub proof fn lemma_nothing_fires_early(minion: Minion, looks: Seq<Look>)
    requires
        minion.shortcut_timer is None,
        looks.len() > 0,
        looks_in_order(looks),
        looks.last().now - looks[0].now < TIMED_SHORTCUT_DURATION,
    ensures
        calls_over_looks(minion, looks) == Seq::<BackendCall>::empty(),
{
    lemma_early_state(minion, looks);
}

} // verus!
