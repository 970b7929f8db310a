//! The Vim-style keymap: key presses become UI actions, with the two-key `g` and
//! `Ctrl-W` prefixes remembered for a short while.

use vstd::prelude::*;
use crate::state::{InputMode, NavCommand};

verus! {

/// How long a `g` or `Ctrl-W` prefix waits for its second key, in nanoseconds.
pub const PREFIX_TIMEOUT_NANOS: u64 = 900_000_000;

#[derive(Debug, Clone, Copy, PartialEq, Eq, Structural)]
pub enum TuiAction {
    MoveUp,
    MoveDown,
    MoveLeft,
    MoveRight,
    Top,
    Bottom,
    HalfPageUp,
    HalfPageDown,
    Activate,
    Toggle,
    Back,
    Quit,
    Help,
    Search,
    NextMatch,
    PreviousMatch,
    Command,
    Insert,
    Refresh,
    Delete,
    Add,
    Fill,
    Plan,
    Write,
    Export,
    ViewOrVerify,
    Yank,
    YankRaw,
    PageUp,
    PageDown,
    RowStart,
    RowEnd,
    WorkspaceNext,
    WorkspacePrevious,
    WorkspaceDevices,
    WorkspaceBackups,
    WorkspaceProvision,
    WorkspaceInspect,
    InspectJump,
    PanelLeft,
    PanelDown,
    PanelUp,
    PanelRight,
    PanelNext,
    PanelPrevious,
    Text(char),
    Backspace,
    DeleteChar,
    CursorLeft,
    CursorRight,
    CursorHome,
    CursorEnd,
    Submit,
    Confirm,
    Cancel,
}

/// The keys the keymap tells apart.
#[derive(Debug, Clone, Copy, PartialEq, Eq, Structural)]
pub enum KeyCode {
    Char(char),
    Esc,
    Enter,
    Tab,
    BackTab,
    Up,
    Down,
    Left,
    Right,
    Home,
    End,
    PageUp,
    PageDown,
    Backspace,
    Delete,
    Other,
}

/// A key event: the key, whether Control was held, and whether it was a release.
#[derive(Debug, Clone, Copy, PartialEq, Eq, Structural)]
pub struct KeyInput {
    pub code: KeyCode,
    pub ctrl: bool,
    pub release: bool,
}

#[derive(Debug, Clone, Copy, PartialEq, Eq, Structural)]
pub enum PendingPrefix {
    G,
    CtrlW,
}

#[derive(Debug, Clone, Copy)]
pub struct HelpBinding {
    pub keys: &'static str,
    pub label: &'static str,
    pub action: TuiAction,
}

/// Key presses and repeats act; releases do not.
pub fn is_actionable_key(event: &KeyInput) -> (r: bool)
    ensures
        r == !event.release,
{
    !event.release
}

/// The action of the second key after `g`.
pub open spec fn spec_g_action(code: KeyCode) -> Option<TuiAction> {
    match code {
        KeyCode::Char('g') => Some(TuiAction::Top),
        KeyCode::Char('t') => Some(TuiAction::WorkspaceNext),
        KeyCode::Char('T') => Some(TuiAction::WorkspacePrevious),
        KeyCode::Char('d') => Some(TuiAction::WorkspaceDevices),
        KeyCode::Char('b') => Some(TuiAction::WorkspaceBackups),
        KeyCode::Char('p') => Some(TuiAction::WorkspaceProvision),
        KeyCode::Char('i') => Some(TuiAction::WorkspaceInspect),
        KeyCode::Char('l') => Some(TuiAction::InspectJump),
        _ => None,
    }
}

/// The action of the second key after `Ctrl-W`: move between panels.
pub open spec fn spec_ctrl_w_action(code: KeyCode) -> Option<TuiAction> {
    match code {
        KeyCode::Char('h') | KeyCode::Left => Some(TuiAction::PanelLeft),
        KeyCode::Char('j') | KeyCode::Down => Some(TuiAction::PanelDown),
        KeyCode::Char('k') | KeyCode::Up => Some(TuiAction::PanelUp),
        KeyCode::Char('l') | KeyCode::Right => Some(TuiAction::PanelRight),
        KeyCode::Char('w') => Some(TuiAction::PanelNext),
        KeyCode::Char('W') => Some(TuiAction::PanelPrevious),
        _ => None,
    }
}

/// The action of a Control chord in normal mode (`Ctrl-W` only starts a prefix).
pub open spec fn spec_ctrl_action(code: KeyCode) -> Option<TuiAction> {
    match code {
        KeyCode::Char('d') => Some(TuiAction::HalfPageDown),
        KeyCode::Char('u') => Some(TuiAction::HalfPageUp),
        KeyCode::Char('c') => Some(TuiAction::Quit),
        _ => None,
    }
}

/// The action of a plain key in normal mode (`g` only starts a prefix).
pub open spec fn spec_normal_action(code: KeyCode) -> Option<TuiAction> {
    match code {
        KeyCode::Tab => Some(TuiAction::PanelNext),
        KeyCode::BackTab => Some(TuiAction::PanelPrevious),
        KeyCode::Char('j') | KeyCode::Down => Some(TuiAction::MoveDown),
        KeyCode::Char('k') | KeyCode::Up => Some(TuiAction::MoveUp),
        KeyCode::Char('h') | KeyCode::Left => Some(TuiAction::MoveLeft),
        KeyCode::Char('l') | KeyCode::Right => Some(TuiAction::MoveRight),
        KeyCode::Home => Some(TuiAction::Top),
        KeyCode::End | KeyCode::Char('G') => Some(TuiAction::Bottom),
        KeyCode::Enter | KeyCode::Char('o') => Some(TuiAction::Activate),
        KeyCode::Char('/') => Some(TuiAction::Search),
        KeyCode::Char('n') => Some(TuiAction::NextMatch),
        KeyCode::Char('N') => Some(TuiAction::PreviousMatch),
        KeyCode::Char(':') => Some(TuiAction::Command),
        KeyCode::Char('?') => Some(TuiAction::Help),
        KeyCode::Char('i') => Some(TuiAction::Insert),
        KeyCode::Char('r') => Some(TuiAction::Refresh),
        KeyCode::Char('d') => Some(TuiAction::Delete),
        KeyCode::Char('a') => Some(TuiAction::Add),
        KeyCode::Char('f') => Some(TuiAction::Fill),
        KeyCode::Char('p') => Some(TuiAction::Plan),
        KeyCode::Char('w') => Some(TuiAction::Write),
        KeyCode::Char('e') => Some(TuiAction::Export),
        KeyCode::Char('v') => Some(TuiAction::ViewOrVerify),
        KeyCode::Char(' ') => Some(TuiAction::Toggle),
        KeyCode::Char('y') => Some(TuiAction::Yank),
        KeyCode::Char('Y') => Some(TuiAction::YankRaw),
        KeyCode::PageUp => Some(TuiAction::PageUp),
        KeyCode::PageDown => Some(TuiAction::PageDown),
        KeyCode::Char('0') => Some(TuiAction::RowStart),
        KeyCode::Char('$') => Some(TuiAction::RowEnd),
        KeyCode::Esc | KeyCode::Char('q') => Some(TuiAction::Back),
        _ => None,
    }
}

/// The action of a key while editing text (insert, search and command modes).
pub open spec fn spec_text_action(event: KeyInput) -> Option<TuiAction> {
    match event.code {
        KeyCode::Esc => Some(TuiAction::Back),
        KeyCode::Enter => Some(TuiAction::Submit),
        KeyCode::Left => Some(TuiAction::CursorLeft),
        KeyCode::Right => Some(TuiAction::CursorRight),
        KeyCode::Home => Some(TuiAction::CursorHome),
        KeyCode::End => Some(TuiAction::CursorEnd),
        KeyCode::Backspace => Some(TuiAction::Backspace),
        KeyCode::Delete => Some(TuiAction::DeleteChar),
        KeyCode::Char(ch) => if event.ctrl {
            None
        } else {
            Some(TuiAction::Text(ch))
        },
        _ => None,
    }
}

/// The action of a key in a confirmation prompt.
pub open spec fn spec_confirm_action(event: KeyInput) -> Option<TuiAction> {
    match event.code {
        KeyCode::Esc | KeyCode::Char('n') => Some(TuiAction::Cancel),
        KeyCode::Char('y') => Some(TuiAction::Confirm),
        KeyCode::Enter => Some(TuiAction::Submit),
        KeyCode::Backspace => Some(TuiAction::Backspace),
        KeyCode::Char(ch) => if event.ctrl {
            None
        } else {
            Some(TuiAction::Text(ch))
        },
        _ => None,
    }
}

/// The prefix still waiting at `now`: one older than the timeout is forgotten.
pub open spec fn spec_live_prefix(pending: Option<(PendingPrefix, u64)>, now: u64) -> Option<
    (PendingPrefix, u64),
> {
    match pending {
        Some((p, since)) => if now >= since && now - since > PREFIX_TIMEOUT_NANOS {
            None
        } else {
            pending
        },
        None => None,
    }
}

/// The action for a key event in `mode` at time `now`, and the prefix left waiting.
pub open spec fn spec_map_key(
    pending: Option<(PendingPrefix, u64)>,
    mode: InputMode,
    event: KeyInput,
    now: u64,
) -> (Option<TuiAction>, Option<(PendingPrefix, u64)>) {
    if event.release {
        (None, pending)
    } else {
        let live = spec_live_prefix(pending, now);
        match mode {
            InputMode::Insert | InputMode::Search | InputMode::Command => (spec_text_action(event), None),
            InputMode::Confirm => (spec_confirm_action(event), None),
            InputMode::Help => (
                match event.code {
                    KeyCode::Esc | KeyCode::Char('q') => Some(TuiAction::Back),
                    _ => None,
                },
                live,
            ),
            InputMode::Normal => match live {
                Some((PendingPrefix::G, _t)) => (spec_g_action(event.code), None),
                Some((PendingPrefix::CtrlW, _t)) => (spec_ctrl_w_action(event.code), None),
                None => if event.ctrl {
                    if event.code == KeyCode::Char('w') {
                        (None, Some((PendingPrefix::CtrlW, now)))
                    } else {
                        (spec_ctrl_action(event.code), None)
                    }
                } else if event.code == KeyCode::Char('g') {
                    (None, Some((PendingPrefix::G, now)))
                } else {
                    (spec_normal_action(event.code), None)
                },
            },
        }
    }
}

/// Translates key events into actions, remembering a pending prefix key.
#[derive(Debug, Default, Clone, Copy)]
pub struct KeyMapper {
    pending: Option<(PendingPrefix, u64)>,
}

impl KeyMapper {
    /// The pending prefix and when (in nanoseconds) it was pressed.
    pub closed spec fn spec_pending(self) -> Option<(PendingPrefix, u64)> {
        self.pending
    }

    pub fn new() -> (r: Self)
        ensures
            r.spec_pending() is None,
    {
        KeyMapper { pending: None }
    }

    pub fn clear_pending(&mut self)
        ensures
            final(self).spec_pending() is None,
    {
        self.pending = None;
    }

    /// The pending prefix, if any.
    pub fn pending_prefix(&self) -> (r: Option<PendingPrefix>)
        ensures
            r == match self.spec_pending() {
                Some((p, _t)) => Some(p),
                None => None,
            },
    {
        match self.pending {
            Some((p, _)) => Some(p),
            None => None,
        }
    }

    fn map_insert(&mut self, event: KeyInput) -> (r: Option<TuiAction>)
        ensures
            final(self).spec_pending() is None,
            r == spec_text_action(event),
    {
        self.pending = None;
        match event.code {
            KeyCode::Esc => Some(TuiAction::Back),
            KeyCode::Enter => Some(TuiAction::Submit),
            KeyCode::Left => Some(TuiAction::CursorLeft),
            KeyCode::Right => Some(TuiAction::CursorRight),
            KeyCode::Home => Some(TuiAction::CursorHome),
            KeyCode::End => Some(TuiAction::CursorEnd),
            KeyCode::Backspace => Some(TuiAction::Backspace),
            KeyCode::Delete => Some(TuiAction::DeleteChar),
            KeyCode::Char(ch) => if event.ctrl {
                None
            } else {
                Some(TuiAction::Text(ch))
            },
            _ => None,
        }
    }

    fn map_text_entry(&mut self, event: KeyInput) -> (r: Option<TuiAction>)
        ensures
            final(self).spec_pending() is None,
            r == spec_text_action(event),
    {
        self.pending = None;
        match event.code {
            KeyCode::Esc => Some(TuiAction::Back),
            KeyCode::Enter => Some(TuiAction::Submit),
            KeyCode::Backspace => Some(TuiAction::Backspace),
            KeyCode::Delete => Some(TuiAction::DeleteChar),
            KeyCode::Left => Some(TuiAction::CursorLeft),
            KeyCode::Right => Some(TuiAction::CursorRight),
            KeyCode::Home => Some(TuiAction::CursorHome),
            KeyCode::End => Some(TuiAction::CursorEnd),
            KeyCode::Char(ch) => if event.ctrl {
                None
            } else {
                Some(TuiAction::Text(ch))
            },
            _ => None,
        }
    }

    fn map_confirm(&mut self, event: KeyInput) -> (r: Option<TuiAction>)
        ensures
            final(self).spec_pending() is None,
            r == spec_confirm_action(event),
    {
        self.pending = None;
        match event.code {
            KeyCode::Esc | KeyCode::Char('n') => Some(TuiAction::Cancel),
            KeyCode::Char('y') => Some(TuiAction::Confirm),
            KeyCode::Enter => Some(TuiAction::Submit),
            KeyCode::Backspace => Some(TuiAction::Backspace),
            KeyCode::Char(ch) => if event.ctrl {
                None
            } else {
                Some(TuiAction::Text(ch))
            },
            _ => None,
        }
    }

    /// Map a key event at time `now` (nanoseconds on a monotonic clock) in `mode`.
    /// A prefix older than the timeout is forgotten first; in normal mode a pending
    /// prefix combines with this key, and `g` or `Ctrl-W` start a new prefix.
    pub fn map_at(&mut self, mode: InputMode, event: KeyInput, now: u64) -> (r: Option<TuiAction>)
        ensures
            (r, final(self).spec_pending()) == spec_map_key(old(self).spec_pending(), mode, event, now),
    {
        if !is_actionable_key(&event) {
            return None;
        }
        if let Some((_, since)) = self.pending {
            if now >= since && now - since > PREFIX_TIMEOUT_NANOS {
                self.pending = None;
            }
        }
        match mode {
            InputMode::Insert => return self.map_insert(event),
            InputMode::Search | InputMode::Command => return self.map_text_entry(event),
            InputMode::Confirm => return self.map_confirm(event),
            InputMode::Help => {
                return match event.code {
                    KeyCode::Esc | KeyCode::Char('q') => Some(TuiAction::Back),
                    _ => None,
                };
            },
            InputMode::Normal => {},
        }
        if let Some((prefix, _)) = self.pending.take() {
            return match prefix {
                PendingPrefix::G => match event.code {
                    KeyCode::Char('g') => Some(TuiAction::Top),
                    KeyCode::Char('t') => Some(TuiAction::WorkspaceNext),
                    KeyCode::Char('T') => Some(TuiAction::WorkspacePrevious),
                    KeyCode::Char('d') => Some(TuiAction::WorkspaceDevices),
                    KeyCode::Char('b') => Some(TuiAction::WorkspaceBackups),
                    KeyCode::Char('p') => Some(TuiAction::WorkspaceProvision),
                    KeyCode::Char('i') => Some(TuiAction::WorkspaceInspect),
                    KeyCode::Char('l') => Some(TuiAction::InspectJump),
                    _ => None,
                },
                PendingPrefix::CtrlW => match event.code {
                    KeyCode::Char('h') | KeyCode::Left => Some(TuiAction::PanelLeft),
                    KeyCode::Char('j') | KeyCode::Down => Some(TuiAction::PanelDown),
                    KeyCode::Char('k') | KeyCode::Up => Some(TuiAction::PanelUp),
                    KeyCode::Char('l') | KeyCode::Right => Some(TuiAction::PanelRight),
                    KeyCode::Char('w') => Some(TuiAction::PanelNext),
                    KeyCode::Char('W') => Some(TuiAction::PanelPrevious),
                    _ => None,
                },
            };
        }
        if event.ctrl {
            return match event.code {
                KeyCode::Char('w') => {
                    self.pending = Some((PendingPrefix::CtrlW, now));
                    None
                },
                KeyCode::Char('d') => Some(TuiAction::HalfPageDown),
                KeyCode::Char('u') => Some(TuiAction::HalfPageUp),
                KeyCode::Char('c') => Some(TuiAction::Quit),
                _ => None,
            };
        }
        match event.code {
            KeyCode::Char('g') => {
                self.pending = Some((PendingPrefix::G, now));
                None
            },
            KeyCode::Tab => Some(TuiAction::PanelNext),
            KeyCode::BackTab => Some(TuiAction::PanelPrevious),
            KeyCode::Char('j') | KeyCode::Down => Some(TuiAction::MoveDown),
            KeyCode::Char('k') | KeyCode::Up => Some(TuiAction::MoveUp),
            KeyCode::Char('h') | KeyCode::Left => Some(TuiAction::MoveLeft),
            KeyCode::Char('l') | KeyCode::Right => Some(TuiAction::MoveRight),
            KeyCode::Home => Some(TuiAction::Top),
            KeyCode::End | KeyCode::Char('G') => Some(TuiAction::Bottom),
            KeyCode::Enter | KeyCode::Char('o') => Some(TuiAction::Activate),
            KeyCode::Char('/') => Some(TuiAction::Search),
            KeyCode::Char('n') => Some(TuiAction::NextMatch),
            KeyCode::Char('N') => Some(TuiAction::PreviousMatch),
            KeyCode::Char(':') => Some(TuiAction::Command),
            KeyCode::Char('?') => Some(TuiAction::Help),
            KeyCode::Char('i') => Some(TuiAction::Insert),
            KeyCode::Char('r') => Some(TuiAction::Refresh),
            KeyCode::Char('d') => Some(TuiAction::Delete),
            KeyCode::Char('a') => Some(TuiAction::Add),
            KeyCode::Char('f') => Some(TuiAction::Fill),
            KeyCode::Char('p') => Some(TuiAction::Plan),
            KeyCode::Char('w') => Some(TuiAction::Write),
            KeyCode::Char('e') => Some(TuiAction::Export),
            KeyCode::Char('v') => Some(TuiAction::ViewOrVerify),
            KeyCode::Char(' ') => Some(TuiAction::Toggle),
            KeyCode::Char('y') => Some(TuiAction::Yank),
            KeyCode::Char('Y') => Some(TuiAction::YankRaw),
            KeyCode::PageUp => Some(TuiAction::PageUp),
            KeyCode::PageDown => Some(TuiAction::PageDown),
            KeyCode::Char('0') => Some(TuiAction::RowStart),
            KeyCode::Char('$') => Some(TuiAction::RowEnd),
            KeyCode::Esc | KeyCode::Char('q') => Some(TuiAction::Back),
            _ => None,
        }
    }
}

/// In normal mode, `g` followed within the timeout by a second key gives that
/// key's `g` action and leaves nothing pending.
pub proof fn lemma_g_prefix_combines(first: KeyInput, second: KeyInput, t0: u64, t1: u64)
    requires
        first == (KeyInput { code: KeyCode::Char('g'), ctrl: false, release: false }),
        !second.release,
        t0 <= t1 <= t0 + PREFIX_TIMEOUT_NANOS,
    ensures
        spec_map_key(None, InputMode::Normal, first, t0) == (None::<TuiAction>, Some((PendingPrefix::G, t0))),
        spec_map_key(Some((PendingPrefix::G, t0)), InputMode::Normal, second, t1) == (
            spec_g_action(second.code),
            None::<(PendingPrefix, u64)>,
        ),
{
}

/// A prefix left waiting longer than the timeout is forgotten: the next key acts
/// as if no prefix had been pressed.
pub proof fn lemma_prefix_expires(
    prefix: PendingPrefix,
    since: u64,
    mode: InputMode,
    event: KeyInput,
    now: u64,
)
    requires
        now >= since,
        now - since > PREFIX_TIMEOUT_NANOS,
        mode != InputMode::Help,
    ensures
        spec_map_key(Some((prefix, since)), mode, event, now) == spec_map_key(None, mode, event, now)
            || event.release,
{
}

/// The normal-mode key table. With no prefix waiting (none pressed, or one pressed
/// longer ago than the timeout), each plain key and each Control chord below gives its
/// action and leaves nothing pending.
pub proof fn lemma_normal_key_table(pending: Option<(PendingPrefix, u64)>, now: u64)
    requires
        spec_live_prefix(pending, now) is None,
    ensures
        spec_map_key(pending, InputMode::Normal, KeyInput { code: KeyCode::Tab, ctrl: false, release: false }, now) == (Some(TuiAction::PanelNext), None::<(PendingPrefix, u64)>),
        spec_map_key(pending, InputMode::Normal, KeyInput { code: KeyCode::BackTab, ctrl: false, release: false }, now) == (Some(TuiAction::PanelPrevious), None::<(PendingPrefix, u64)>),
        spec_map_key(pending, InputMode::Normal, KeyInput { code: KeyCode::Char('j'), ctrl: false, release: false }, now) == (Some(TuiAction::MoveDown), None::<(PendingPrefix, u64)>),
        spec_map_key(pending, InputMode::Normal, KeyInput { code: KeyCode::Down, ctrl: false, release: false }, now) == (Some(TuiAction::MoveDown), None::<(PendingPrefix, u64)>),
        spec_map_key(pending, InputMode::Normal, KeyInput { code: KeyCode::Char('k'), ctrl: false, release: false }, now) == (Some(TuiAction::MoveUp), None::<(PendingPrefix, u64)>),
        spec_map_key(pending, InputMode::Normal, KeyInput { code: KeyCode::Up, ctrl: false, release: false }, now) == (Some(TuiAction::MoveUp), None::<(PendingPrefix, u64)>),
        spec_map_key(pending, InputMode::Normal, KeyInput { code: KeyCode::Char('h'), ctrl: false, release: false }, now) == (Some(TuiAction::MoveLeft), None::<(PendingPrefix, u64)>),
        spec_map_key(pending, InputMode::Normal, KeyInput { code: KeyCode::Left, ctrl: false, release: false }, now) == (Some(TuiAction::MoveLeft), None::<(PendingPrefix, u64)>),
        spec_map_key(pending, InputMode::Normal, KeyInput { code: KeyCode::Char('l'), ctrl: false, release: false }, now) == (Some(TuiAction::MoveRight), None::<(PendingPrefix, u64)>),
        spec_map_key(pending, InputMode::Normal, KeyInput { code: KeyCode::Right, ctrl: false, release: false }, now) == (Some(TuiAction::MoveRight), None::<(PendingPrefix, u64)>),
        spec_map_key(pending, InputMode::Normal, KeyInput { code: KeyCode::Home, ctrl: false, release: false }, now) == (Some(TuiAction::Top), None::<(PendingPrefix, u64)>),
        spec_map_key(pending, InputMode::Normal, KeyInput { code: KeyCode::End, ctrl: false, release: false }, now) == (Some(TuiAction::Bottom), None::<(PendingPrefix, u64)>),
        spec_map_key(pending, InputMode::Normal, KeyInput { code: KeyCode::Char('G'), ctrl: false, release: false }, now) == (Some(TuiAction::Bottom), None::<(PendingPrefix, u64)>),
        spec_map_key(pending, InputMode::Normal, KeyInput { code: KeyCode::Enter, ctrl: false, release: false }, now) == (Some(TuiAction::Activate), None::<(PendingPrefix, u64)>),
        spec_map_key(pending, InputMode::Normal, KeyInput { code: KeyCode::Char('o'), ctrl: false, release: false }, now) == (Some(TuiAction::Activate), None::<(PendingPrefix, u64)>),
        spec_map_key(pending, InputMode::Normal, KeyInput { code: KeyCode::Char('/'), ctrl: false, release: false }, now) == (Some(TuiAction::Search), None::<(PendingPrefix, u64)>),
        spec_map_key(pending, InputMode::Normal, KeyInput { code: KeyCode::Char('n'), ctrl: false, release: false }, now) == (Some(TuiAction::NextMatch), None::<(PendingPrefix, u64)>),
        spec_map_key(pending, InputMode::Normal, KeyInput { code: KeyCode::Char('N'), ctrl: false, release: false }, now) == (Some(TuiAction::PreviousMatch), None::<(PendingPrefix, u64)>),
        spec_map_key(pending, InputMode::Normal, KeyInput { code: KeyCode::Char(':'), ctrl: false, release: false }, now) == (Some(TuiAction::Command), None::<(PendingPrefix, u64)>),
        spec_map_key(pending, InputMode::Normal, KeyInput { code: KeyCode::Char('?'), ctrl: false, release: false }, now) == (Some(TuiAction::Help), None::<(PendingPrefix, u64)>),
        spec_map_key(pending, InputMode::Normal, KeyInput { code: KeyCode::Char('i'), ctrl: false, release: false }, now) == (Some(TuiAction::Insert), None::<(PendingPrefix, u64)>),
        spec_map_key(pending, InputMode::Normal, KeyInput { code: KeyCode::Char('r'), ctrl: false, release: false }, now) == (Some(TuiAction::Refresh), None::<(PendingPrefix, u64)>),
        spec_map_key(pending, InputMode::Normal, KeyInput { code: KeyCode::Char('d'), ctrl: false, release: false }, now) == (Some(TuiAction::Delete), None::<(PendingPrefix, u64)>),
        spec_map_key(pending, InputMode::Normal, KeyInput { code: KeyCode::Char('a'), ctrl: false, release: false }, now) == (Some(TuiAction::Add), None::<(PendingPrefix, u64)>),
        spec_map_key(pending, InputMode::Normal, KeyInput { code: KeyCode::Char('f'), ctrl: false, release: false }, now) == (Some(TuiAction::Fill), None::<(PendingPrefix, u64)>),
        spec_map_key(pending, InputMode::Normal, KeyInput { code: KeyCode::Char('p'), ctrl: false, release: false }, now) == (Some(TuiAction::Plan), None::<(PendingPrefix, u64)>),
        spec_map_key(pending, InputMode::Normal, KeyInput { code: KeyCode::Char('w'), ctrl: false, release: false }, now) == (Some(TuiAction::Write), None::<(PendingPrefix, u64)>),
        spec_map_key(pending, InputMode::Normal, KeyInput { code: KeyCode::Char('e'), ctrl: false, release: false }, now) == (Some(TuiAction::Export), None::<(PendingPrefix, u64)>),
        spec_map_key(pending, InputMode::Normal, KeyInput { code: KeyCode::Char('v'), ctrl: false, release: false }, now) == (Some(TuiAction::ViewOrVerify), None::<(PendingPrefix, u64)>),
        spec_map_key(pending, InputMode::Normal, KeyInput { code: KeyCode::Char(' '), ctrl: false, release: false }, now) == (Some(TuiAction::Toggle), None::<(PendingPrefix, u64)>),
        spec_map_key(pending, InputMode::Normal, KeyInput { code: KeyCode::Char('y'), ctrl: false, release: false }, now) == (Some(TuiAction::Yank), None::<(PendingPrefix, u64)>),
        spec_map_key(pending, InputMode::Normal, KeyInput { code: KeyCode::Char('Y'), ctrl: false, release: false }, now) == (Some(TuiAction::YankRaw), None::<(PendingPrefix, u64)>),
        spec_map_key(pending, InputMode::Normal, KeyInput { code: KeyCode::PageUp, ctrl: false, release: false }, now) == (Some(TuiAction::PageUp), None::<(PendingPrefix, u64)>),
        spec_map_key(pending, InputMode::Normal, KeyInput { code: KeyCode::PageDown, ctrl: false, release: false }, now) == (Some(TuiAction::PageDown), None::<(PendingPrefix, u64)>),
        spec_map_key(pending, InputMode::Normal, KeyInput { code: KeyCode::Char('0'), ctrl: false, release: false }, now) == (Some(TuiAction::RowStart), None::<(PendingPrefix, u64)>),
        spec_map_key(pending, InputMode::Normal, KeyInput { code: KeyCode::Char('$'), ctrl: false, release: false }, now) == (Some(TuiAction::RowEnd), None::<(PendingPrefix, u64)>),
        spec_map_key(pending, InputMode::Normal, KeyInput { code: KeyCode::Esc, ctrl: false, release: false }, now) == (Some(TuiAction::Back), None::<(PendingPrefix, u64)>),
        spec_map_key(pending, InputMode::Normal, KeyInput { code: KeyCode::Char('q'), ctrl: false, release: false }, now) == (Some(TuiAction::Back), None::<(PendingPrefix, u64)>),
        spec_map_key(pending, InputMode::Normal, KeyInput { code: KeyCode::Char('d'), ctrl: true, release: false }, now) == (Some(TuiAction::HalfPageDown), None::<(PendingPrefix, u64)>),
        spec_map_key(pending, InputMode::Normal, KeyInput { code: KeyCode::Char('u'), ctrl: true, release: false }, now) == (Some(TuiAction::HalfPageUp), None::<(PendingPrefix, u64)>),
        spec_map_key(pending, InputMode::Normal, KeyInput { code: KeyCode::Char('c'), ctrl: true, release: false }, now) == (Some(TuiAction::Quit), None::<(PendingPrefix, u64)>),
{
}

/// The second keys after `g` and after `Ctrl-W`, pressed within the timeout: each
/// gives its action and ends the prefix.
pub proof fn lemma_prefix_key_table(since: u64, now: u64)
    requires
        since <= now <= since + PREFIX_TIMEOUT_NANOS,
    ensures
        spec_map_key(Some((PendingPrefix::G, since)), InputMode::Normal, KeyInput { code: KeyCode::Char('g'), ctrl: false, release: false }, now) == (Some(TuiAction::Top), None::<(PendingPrefix, u64)>),
        spec_map_key(Some((PendingPrefix::G, since)), InputMode::Normal, KeyInput { code: KeyCode::Char('t'), ctrl: false, release: false }, now) == (Some(TuiAction::WorkspaceNext), None::<(PendingPrefix, u64)>),
        spec_map_key(Some((PendingPrefix::G, since)), InputMode::Normal, KeyInput { code: KeyCode::Char('T'), ctrl: false, release: false }, now) == (Some(TuiAction::WorkspacePrevious), None::<(PendingPrefix, u64)>),
        spec_map_key(Some((PendingPrefix::G, since)), InputMode::Normal, KeyInput { code: KeyCode::Char('d'), ctrl: false, release: false }, now) == (Some(TuiAction::WorkspaceDevices), None::<(PendingPrefix, u64)>),
        spec_map_key(Some((PendingPrefix::G, since)), InputMode::Normal, KeyInput { code: KeyCode::Char('b'), ctrl: false, release: false }, now) == (Some(TuiAction::WorkspaceBackups), None::<(PendingPrefix, u64)>),
        spec_map_key(Some((PendingPrefix::G, since)), InputMode::Normal, KeyInput { code: KeyCode::Char('p'), ctrl: false, release: false }, now) == (Some(TuiAction::WorkspaceProvision), None::<(PendingPrefix, u64)>),
        spec_map_key(Some((PendingPrefix::G, since)), InputMode::Normal, KeyInput { code: KeyCode::Char('i'), ctrl: false, release: false }, now) == (Some(TuiAction::WorkspaceInspect), None::<(PendingPrefix, u64)>),
        spec_map_key(Some((PendingPrefix::G, since)), InputMode::Normal, KeyInput { code: KeyCode::Char('l'), ctrl: false, release: false }, now) == (Some(TuiAction::InspectJump), None::<(PendingPrefix, u64)>),
        spec_map_key(Some((PendingPrefix::CtrlW, since)), InputMode::Normal, KeyInput { code: KeyCode::Char('h'), ctrl: false, release: false }, now) == (Some(TuiAction::PanelLeft), None::<(PendingPrefix, u64)>),
        spec_map_key(Some((PendingPrefix::CtrlW, since)), InputMode::Normal, KeyInput { code: KeyCode::Left, ctrl: false, release: false }, now) == (Some(TuiAction::PanelLeft), None::<(PendingPrefix, u64)>),
        spec_map_key(Some((PendingPrefix::CtrlW, since)), InputMode::Normal, KeyInput { code: KeyCode::Char('j'), ctrl: false, release: false }, now) == (Some(TuiAction::PanelDown), None::<(PendingPrefix, u64)>),
        spec_map_key(Some((PendingPrefix::CtrlW, since)), InputMode::Normal, KeyInput { code: KeyCode::Down, ctrl: false, release: false }, now) == (Some(TuiAction::PanelDown), None::<(PendingPrefix, u64)>),
        spec_map_key(Some((PendingPrefix::CtrlW, since)), InputMode::Normal, KeyInput { code: KeyCode::Char('k'), ctrl: false, release: false }, now) == (Some(TuiAction::PanelUp), None::<(PendingPrefix, u64)>),
        spec_map_key(Some((PendingPrefix::CtrlW, since)), InputMode::Normal, KeyInput { code: KeyCode::Up, ctrl: false, release: false }, now) == (Some(TuiAction::PanelUp), None::<(PendingPrefix, u64)>),
        spec_map_key(Some((PendingPrefix::CtrlW, since)), InputMode::Normal, KeyInput { code: KeyCode::Char('l'), ctrl: false, release: false }, now) == (Some(TuiAction::PanelRight), None::<(PendingPrefix, u64)>),
        spec_map_key(Some((PendingPrefix::CtrlW, since)), InputMode::Normal, KeyInput { code: KeyCode::Right, ctrl: false, release: false }, now) == (Some(TuiAction::PanelRight), None::<(PendingPrefix, u64)>),
        spec_map_key(Some((PendingPrefix::CtrlW, since)), InputMode::Normal, KeyInput { code: KeyCode::Char('w'), ctrl: false, release: false }, now) == (Some(TuiAction::PanelNext), None::<(PendingPrefix, u64)>),
        spec_map_key(Some((PendingPrefix::CtrlW, since)), InputMode::Normal, KeyInput { code: KeyCode::Char('W'), ctrl: false, release: false }, now) == (Some(TuiAction::PanelPrevious), None::<(PendingPrefix, u64)>),
{
}

/// The keys of the text-entry modes (insert, search and command), of confirmation
/// prompts and of the help screen. While typing, the editing keys act, a plain character
/// is typed and a Control chord does nothing; a prompt confirms on `y`, cancels on `n`
/// or Esc and types any other character; help closes on Esc or `q` and ignores other
/// characters. The typing modes and prompts leave no prefix waiting.
pub proof fn lemma_entry_key_table(
    pending: Option<(PendingPrefix, u64)>,
    mode: InputMode,
    c: char,
    now: u64,
)
    ensures
        (mode == InputMode::Insert || mode == InputMode::Search || mode == InputMode::Command) ==> spec_map_key(pending, mode, KeyInput { code: KeyCode::Esc, ctrl: false, release: false }, now) == (Some(TuiAction::Back), None::<(PendingPrefix, u64)>),
        (mode == InputMode::Insert || mode == InputMode::Search || mode == InputMode::Command) ==> spec_map_key(pending, mode, KeyInput { code: KeyCode::Enter, ctrl: false, release: false }, now) == (Some(TuiAction::Submit), None::<(PendingPrefix, u64)>),
        (mode == InputMode::Insert || mode == InputMode::Search || mode == InputMode::Command) ==> spec_map_key(pending, mode, KeyInput { code: KeyCode::Left, ctrl: false, release: false }, now) == (Some(TuiAction::CursorLeft), None::<(PendingPrefix, u64)>),
        (mode == InputMode::Insert || mode == InputMode::Search || mode == InputMode::Command) ==> spec_map_key(pending, mode, KeyInput { code: KeyCode::Right, ctrl: false, release: false }, now) == (Some(TuiAction::CursorRight), None::<(PendingPrefix, u64)>),
        (mode == InputMode::Insert || mode == InputMode::Search || mode == InputMode::Command) ==> spec_map_key(pending, mode, KeyInput { code: KeyCode::Home, ctrl: false, release: false }, now) == (Some(TuiAction::CursorHome), None::<(PendingPrefix, u64)>),
        (mode == InputMode::Insert || mode == InputMode::Search || mode == InputMode::Command) ==> spec_map_key(pending, mode, KeyInput { code: KeyCode::End, ctrl: false, release: false }, now) == (Some(TuiAction::CursorEnd), None::<(PendingPrefix, u64)>),
        (mode == InputMode::Insert || mode == InputMode::Search || mode == InputMode::Command) ==> spec_map_key(pending, mode, KeyInput { code: KeyCode::Backspace, ctrl: false, release: false }, now) == (Some(TuiAction::Backspace), None::<(PendingPrefix, u64)>),
        (mode == InputMode::Insert || mode == InputMode::Search || mode == InputMode::Command) ==> spec_map_key(pending, mode, KeyInput { code: KeyCode::Delete, ctrl: false, release: false }, now) == (Some(TuiAction::DeleteChar), None::<(PendingPrefix, u64)>),
        (mode == InputMode::Insert || mode == InputMode::Search || mode == InputMode::Command) ==> spec_map_key(pending, mode, KeyInput { code: KeyCode::Char(c), ctrl: false, release: false }, now) == (Some(TuiAction::Text(c)), None::<(PendingPrefix, u64)>),
        (mode == InputMode::Insert || mode == InputMode::Search || mode == InputMode::Command) ==> spec_map_key(pending, mode, KeyInput { code: KeyCode::Char(c), ctrl: true, release: false }, now) == (None::<TuiAction>, None::<(PendingPrefix, u64)>),
        spec_map_key(pending, InputMode::Confirm, KeyInput { code: KeyCode::Esc, ctrl: false, release: false }, now) == (Some(TuiAction::Cancel), None::<(PendingPrefix, u64)>),
        spec_map_key(pending, InputMode::Confirm, KeyInput { code: KeyCode::Char('n'), ctrl: false, release: false }, now) == (Some(TuiAction::Cancel), None::<(PendingPrefix, u64)>),
        spec_map_key(pending, InputMode::Confirm, KeyInput { code: KeyCode::Char('y'), ctrl: false, release: false }, now) == (Some(TuiAction::Confirm), None::<(PendingPrefix, u64)>),
        spec_map_key(pending, InputMode::Confirm, KeyInput { code: KeyCode::Enter, ctrl: false, release: false }, now) == (Some(TuiAction::Submit), None::<(PendingPrefix, u64)>),
        spec_map_key(pending, InputMode::Confirm, KeyInput { code: KeyCode::Backspace, ctrl: false, release: false }, now) == (Some(TuiAction::Backspace), None::<(PendingPrefix, u64)>),
        c != 'n' && c != 'y' ==> spec_map_key(pending, InputMode::Confirm, KeyInput { code: KeyCode::Char(c), ctrl: false, release: false }, now) == (Some(TuiAction::Text(c)), None::<(PendingPrefix, u64)>),
        spec_map_key(pending, InputMode::Help, KeyInput { code: KeyCode::Esc, ctrl: false, release: false }, now).0 == Some(TuiAction::Back),
        spec_map_key(pending, InputMode::Help, KeyInput { code: KeyCode::Char('q'), ctrl: false, release: false }, now).0 == Some(TuiAction::Back),
        c != 'q' ==> spec_map_key(pending, InputMode::Help, KeyInput { code: KeyCode::Char(c), ctrl: false, release: false }, now).0 is None,
{
}

/// Key releases never act and never disturb a pending prefix.
pub proof fn lemma_release_is_ignored(pending: Option<(PendingPrefix, u64)>, mode: InputMode, event: KeyInput, now: u64)
    requires
        event.release,
    ensures
        spec_map_key(pending, mode, event, now) == (None::<TuiAction>, pending),
{
}

/// Help lines for the normal workspaces.
pub fn normal_help() -> (r: Vec<HelpBinding>)
    ensures
        r@.len() == 5,
        r@[0].keys@ == "j/k"@ && r@[0].label@ == "Move"@ && r@[0].action == TuiAction::MoveDown,
        r@[1].keys@ == "Enter/o"@ && r@[1].label@ == "Open"@ && r@[1].action == TuiAction::Activate,
        r@[2].keys@ == "/"@ && r@[2].label@ == "Search"@ && r@[2].action == TuiAction::Search,
        r@[3].keys@ == "r"@ && r@[3].label@ == "Refresh"@ && r@[3].action == TuiAction::Refresh,
        r@[4].keys@ == "?"@ && r@[4].label@ == "Help"@ && r@[4].action == TuiAction::Help,
{
    vec![
        HelpBinding { keys: "j/k", label: "Move", action: TuiAction::MoveDown },
        HelpBinding { keys: "Enter/o", label: "Open", action: TuiAction::Activate },
        HelpBinding { keys: "/", label: "Search", action: TuiAction::Search },
        HelpBinding { keys: "r", label: "Refresh", action: TuiAction::Refresh },
        HelpBinding { keys: "?", label: "Help", action: TuiAction::Help },
    ]
}

/// Help lines for the Inspect browser.
pub fn inspect_help() -> (r: Vec<HelpBinding>)
    ensures
        r@.len() == 6,
        r@[0].keys@ == "j/k"@ && r@[0].label@ == "Move"@ && r@[0].action == TuiAction::MoveDown,
        r@[1].keys@ == "h/l"@ && r@[1].label@ == "Fold"@ && r@[1].action == TuiAction::MoveLeft,
        r@[2].keys@ == "Enter/o"@ && r@[2].label@ == "Open"@ && r@[2].action == TuiAction::Activate,
        r@[3].keys@ == "/"@ && r@[3].label@ == "Search"@ && r@[3].action == TuiAction::Search,
        r@[4].keys@ == "gl"@ && r@[4].label@ == "Goto"@ && r@[4].action == TuiAction::InspectJump,
        r@[5].keys@ == "?"@ && r@[5].label@ == "Help"@ && r@[5].action == TuiAction::Help,
{
    vec![
        HelpBinding { keys: "j/k", label: "Move", action: TuiAction::MoveDown },
        HelpBinding { keys: "h/l", label: "Fold", action: TuiAction::MoveLeft },
        HelpBinding { keys: "Enter/o", label: "Open", action: TuiAction::Activate },
        HelpBinding { keys: "/", label: "Search", action: TuiAction::Search },
        HelpBinding { keys: "gl", label: "Goto", action: TuiAction::InspectJump },
        HelpBinding { keys: "?", label: "Help", action: TuiAction::Help },
    ]
}

/// The workspace command a keymap action stands for, where it names one; the other
/// actions belong to the forms and panes that read keys themselves.
pub open spec fn spec_nav_command_for(action: TuiAction) -> Option<NavCommand> {
    match action {
        TuiAction::MoveUp => Some(NavCommand::Up),
        TuiAction::MoveDown => Some(NavCommand::Down),
        TuiAction::Top => Some(NavCommand::Top),
        TuiAction::Bottom => Some(NavCommand::Bottom),
        TuiAction::HalfPageUp => Some(NavCommand::HalfPageUp),
        TuiAction::HalfPageDown => Some(NavCommand::HalfPageDown),
        TuiAction::Search => Some(NavCommand::Search),
        TuiAction::NextMatch => Some(NavCommand::NextMatch),
        TuiAction::PreviousMatch => Some(NavCommand::PreviousMatch),
        TuiAction::Command => Some(NavCommand::CommandPalette),
        TuiAction::Back => Some(NavCommand::Escape),
        TuiAction::Quit => Some(NavCommand::Quit),
        TuiAction::Help => Some(NavCommand::Help),
        TuiAction::Refresh => Some(NavCommand::Refresh),
        TuiAction::Toggle => Some(NavCommand::ToggleBackupSelection),
        TuiAction::ViewOrVerify => Some(NavCommand::VerifyBackup),
        TuiAction::WorkspaceNext => Some(NavCommand::NextWorkspace),
        TuiAction::WorkspacePrevious => Some(NavCommand::PreviousWorkspace),
        TuiAction::WorkspaceDevices => Some(NavCommand::WorkspaceDevices),
        TuiAction::WorkspaceBackups => Some(NavCommand::WorkspaceBackups),
        TuiAction::WorkspaceProvision => Some(NavCommand::WorkspaceProvision),
        _ => None,
    }
}

/// The workspace command for a keymap action, if it stands for one.
pub fn nav_command_for(action: TuiAction) -> (r: Option<NavCommand>)
    ensures
        r == spec_nav_command_for(action),
{
    match action {
        TuiAction::MoveUp => Some(NavCommand::Up),
        TuiAction::MoveDown => Some(NavCommand::Down),
        TuiAction::Top => Some(NavCommand::Top),
        TuiAction::Bottom => Some(NavCommand::Bottom),
        TuiAction::HalfPageUp => Some(NavCommand::HalfPageUp),
        TuiAction::HalfPageDown => Some(NavCommand::HalfPageDown),
        TuiAction::Search => Some(NavCommand::Search),
        TuiAction::NextMatch => Some(NavCommand::NextMatch),
        TuiAction::PreviousMatch => Some(NavCommand::PreviousMatch),
        TuiAction::Command => Some(NavCommand::CommandPalette),
        TuiAction::Back => Some(NavCommand::Escape),
        TuiAction::Quit => Some(NavCommand::Quit),
        TuiAction::Help => Some(NavCommand::Help),
        TuiAction::Refresh => Some(NavCommand::Refresh),
        TuiAction::Toggle => Some(NavCommand::ToggleBackupSelection),
        TuiAction::ViewOrVerify => Some(NavCommand::VerifyBackup),
        TuiAction::WorkspaceNext => Some(NavCommand::NextWorkspace),
        TuiAction::WorkspacePrevious => Some(NavCommand::PreviousWorkspace),
        TuiAction::WorkspaceDevices => Some(NavCommand::WorkspaceDevices),
        TuiAction::WorkspaceBackups => Some(NavCommand::WorkspaceBackups),
        TuiAction::WorkspaceProvision => Some(NavCommand::WorkspaceProvision),
        _ => None,
    }
}

} // verus!
