//! The interactive window selection engine.
//!
//! Each poll tick the surrounding application re-resolves the candidate
//! window, samples the input devices, and hands both to this module as plain
//! values. The engine decodes the snapshot into a modifier set and a key
//! value, maps that pair to an adjustment action, applies it to the working
//! padding, and decides whether the session goes on, is confirmed, is
//! cancelled, or has timed out. Everything here is pure logic; drawing the
//! border and grabbing keys are mirrored by the application from the
//! `border` field of [`Display`].

use crate::geometry::{Geometry, Padding};
use crate::input::{InputState, Key};
use crate::settings::RecordSettings;
use crate::window::Window;
use vstd::prelude::*;

verus! {

/// One side of the padding insets.
#[derive(Clone, Copy, Debug, PartialEq, Eq, Structural)]
pub enum Side {
    Top,
    Right,
    Bottom,
    Left,
}

impl Side {
    /// The facing side: growing one while shrinking the other moves the
    /// capture area without resizing it.
    pub open spec fn spec_opposite(self) -> Side {
        match self {
            Side::Top => Side::Bottom,
            Side::Right => Side::Left,
            Side::Bottom => Side::Top,
            Side::Left => Side::Right,
        }
    }

    pub fn opposite(self) -> (r: Side)
        ensures
            r == self.spec_opposite(),
    {
        match self {
            Side::Top => Side::Bottom,
            Side::Right => Side::Left,
            Side::Bottom => Side::Top,
            Side::Left => Side::Right,
        }
    }
}

/// The modifier set decoded from one input snapshot.
#[derive(Clone, Copy, Debug, PartialEq, Eq, Structural)]
pub enum Modifiers {
    Plain,
    Alt,
    CtrlAlt,
    ShiftAlt,
}

/// What one input snapshot asks the selection engine to do.
#[derive(Clone, Copy, Debug, PartialEq, Eq, Structural)]
pub enum SelectAction {
    /// Nothing recognised; the padding stays as it is.
    Idle,
    /// A plain digit under Alt sets the step used by later adjustments.
    SetStep(u32),
    /// Alt+R restores the padding to its configured initial value.
    Reset,
    /// Alt+direction grows the named inset by the step.
    Increase(Side),
    /// Ctrl+Alt+direction shrinks the named inset by the step.
    Decrease(Side),
    /// Shift+Alt+direction grows the named inset and shrinks the facing
    /// one: the capture area moves without resizing.
    Shift(Side),
}

/// The padding side a direction key names. The arrow keys and their vi-style
/// aliases H, J, K, L point at the side the cursor would move towards.
pub open spec fn spec_side_of_key(k: Key) -> Option<Side> {
    match k {
        Key::Up => Some(Side::Top),
        Key::K => Some(Side::Top),
        Key::Right => Some(Side::Right),
        Key::L => Some(Side::Right),
        Key::Down => Some(Side::Bottom),
        Key::J => Some(Side::Bottom),
        Key::Left => Some(Side::Left),
        Key::H => Some(Side::Left),
        _ => None,
    }
}

pub fn side_of_key(k: Key) -> (r: Option<Side>)
    ensures
        r == spec_side_of_key(k),
{
    match k {
        Key::Up | Key::K => Some(Side::Top),
        Key::Right | Key::L => Some(Side::Right),
        Key::Down | Key::J => Some(Side::Bottom),
        Key::Left | Key::H => Some(Side::Left),
        _ => None,
    }
}

/// The modifier set held in a snapshot: Control wins over Shift when both
/// are down together with Alt, and without Alt nothing is modified.
pub open spec fn spec_modifiers(keys: Seq<Key>) -> Modifiers {
    if keys.contains(Key::LAlt) {
        if keys.contains(Key::LControl) {
            Modifiers::CtrlAlt
        } else if keys.contains(Key::LShift) {
            Modifiers::ShiftAlt
        } else {
            Modifiers::Alt
        }
    } else {
        Modifiers::Plain
    }
}

/// The first pressed key that is not a modifier; the key value of the
/// snapshot.
pub open spec fn spec_first_value_key(keys: Seq<Key>) -> Option<Key>
    decreases keys.len(),
{
    if keys.len() == 0 {
        None
    } else if !keys[0].spec_is_modifier() {
        Some(keys[0])
    } else {
        spec_first_value_key(keys.drop_first())
    }
}

/// The action one snapshot decodes to: the lookup table from modifier set
/// and key value to adjustment.
pub open spec fn spec_decode(keys: Seq<Key>) -> SelectAction {
    match spec_first_value_key(keys) {
        None => SelectAction::Idle,
        Some(k) => match spec_modifiers(keys) {
            Modifiers::Plain => SelectAction::Idle,
            Modifiers::Alt => if k is R {
                SelectAction::Reset
            } else if k.spec_digit() is Some {
                SelectAction::SetStep(k.spec_digit()->0)
            } else if spec_side_of_key(k) is Some {
                SelectAction::Increase(spec_side_of_key(k)->0)
            } else {
                SelectAction::Idle
            },
            Modifiers::CtrlAlt => if spec_side_of_key(k) is Some {
                SelectAction::Decrease(spec_side_of_key(k)->0)
            } else {
                SelectAction::Idle
            },
            Modifiers::ShiftAlt => if spec_side_of_key(k) is Some {
                SelectAction::Shift(spec_side_of_key(k)->0)
            } else {
                SelectAction::Idle
            },
        },
    }
}

/// Decode one input snapshot into the action it asks for.
pub fn decode(input: &InputState) -> (r: SelectAction)
    ensures
        r == spec_decode(input.keys@),
{
    let value = first_value_key(input);
    let alt = input.contains(Key::LAlt);
    let ctrl = input.contains(Key::LControl);
    let shift = input.contains(Key::LShift);
    match value {
        None => SelectAction::Idle,
        Some(k) => {
            if !alt {
                SelectAction::Idle
            } else if ctrl {
                match side_of_key(k) {
                    Some(s) => SelectAction::Decrease(s),
                    None => SelectAction::Idle,
                }
            } else if shift {
                match side_of_key(k) {
                    Some(s) => SelectAction::Shift(s),
                    None => SelectAction::Idle,
                }
            } else {
                if let Key::R = k {
                    SelectAction::Reset
                } else {
                    match k.digit() {
                        Some(d) => SelectAction::SetStep(d),
                        None => match side_of_key(k) {
                            Some(s) => SelectAction::Increase(s),
                            None => SelectAction::Idle,
                        },
                    }
                }
            }
        },
    }
}

fn first_value_key(input: &InputState) -> (r: Option<Key>)
    ensures
        r == spec_first_value_key(input.keys@),
{
    let mut i: usize = 0;
    assert(input.keys@.skip(0) =~= input.keys@);
    while i < input.keys.len()
        invariant
            i <= input.keys@.len(),
            spec_first_value_key(input.keys@) == spec_first_value_key(input.keys@.skip(i as int)),
        decreases input.keys@.len() - i,
    {
        let k = input.keys[i];
        assert(input.keys@.skip(i as int)[0] == k);
        assert(input.keys@.skip(i as int).drop_first() =~= input.keys@.skip(i as int + 1));
        if !k.is_modifier() {
            return Some(k);
        }
        i += 1;
    }
    assert(input.keys@.skip(i as int).len() == 0);
    None
}

/// The inset on one side.
pub open spec fn side_value(p: Padding, s: Side) -> u32 {
    match s {
        Side::Top => p.top,
        Side::Right => p.right,
        Side::Bottom => p.bottom,
        Side::Left => p.left,
    }
}

/// The padding with one side replaced.
pub open spec fn spec_with_side(p: Padding, s: Side, v: u32) -> Padding {
    match s {
        Side::Top => Padding { top: v, ..p },
        Side::Right => Padding { right: v, ..p },
        Side::Bottom => Padding { bottom: v, ..p },
        Side::Left => Padding { left: v, ..p },
    }
}

fn with_side(p: Padding, s: Side, v: u32) -> (r: Padding)
    ensures
        r == spec_with_side(p, s, v),
{
    match s {
        Side::Top => Padding { top: v, ..p },
        Side::Right => Padding { right: v, ..p },
        Side::Bottom => Padding { bottom: v, ..p },
        Side::Left => Padding { left: v, ..p },
    }
}

/// What one action does to the working padding and step, guarded by the
/// current capture area. Growing an inset shrinks the area, so it is guarded:
/// a plain increase needs an area above 5 by 5, a shift (which grows one
/// side) above 10 by 10. Shrinking an inset only enlarges the area and is
/// unguarded. All arithmetic saturates.
pub open spec fn spec_apply(
    p: Padding,
    step: u32,
    initial: Padding,
    action: SelectAction,
    area: Geometry,
) -> (Padding, u32) {
    match action {
        SelectAction::Idle => (p, step),
        SelectAction::SetStep(d) => (p, d),
        SelectAction::Reset => (initial, step),
        SelectAction::Increase(s) => if area.width > 5 && area.height > 5 {
            (
                spec_with_side(
                    p,
                    s,
                    crate::geometry::sat_add_u32(side_value(p, s) as int, step as int),
                ),
                step,
            )
        } else {
            (p, step)
        },
        SelectAction::Decrease(s) => (
            spec_with_side(
                p,
                s,
                crate::geometry::sat_sub_u32(side_value(p, s) as int, step as int),
            ),
            step,
        ),
        SelectAction::Shift(s) => if area.width > 10 && area.height > 10 {
            (
                spec_with_side(
                    spec_with_side(
                        p,
                        s,
                        crate::geometry::sat_add_u32(side_value(p, s) as int, step as int),
                    ),
                    s.spec_opposite(),
                    crate::geometry::sat_sub_u32(
                        side_value(p, s.spec_opposite()) as int,
                        step as int,
                    ),
                ),
                step,
            )
        } else {
            (p, step)
        },
    }
}

/// The selection engine's state: the session settings, the working padding
/// and adjustment step, the last known root and focused windows, and the
/// selection border currently drawn on the display (`None` when cleared).
#[derive(Debug)]
pub struct Display {
    pub settings: RecordSettings,
    pub initial_padding: Padding,
    pub padding: Padding,
    pub step: u32,
    pub root: Window,
    pub focused: Option<Window>,
    pub border: Option<Geometry>,
}

/// One poll tick of the selection loop as the application observes it: the
/// re-resolved candidate window and the input snapshot of that instant.
#[derive(Debug)]
pub struct SelectPoll {
    pub window: Window,
    pub input: InputState,
}

/// How an interactive selection ends. Cancellation and timeout are expected,
/// non-error outcomes: they carry no window and are never escalated as
/// failures.
#[derive(Clone, Copy, Debug, PartialEq, Eq, Structural)]
pub enum SelectOutcome {
    /// The user confirmed: the window and the capture geometry the working
    /// padding carves out of it.
    Selected(Window, Geometry),
    Cancelled,
    TimedOut,
}

impl SelectOutcome {
    /// The resolved window and geometry, or `None` for the two user-
    /// triggered outcomes.
    pub fn resolved(self) -> (r: Option<(Window, Geometry)>)
        ensures
            r == (match self {
                SelectOutcome::Selected(w, g) => Some((w, g)),
                _ => None::<(Window, Geometry)>,
            }),
    {
        match self {
            SelectOutcome::Selected(w, g) => Some((w, g)),
            _ => None,
        }
    }
}

/// The display with the selection border drawn along `w`'s geometry.
pub open spec fn spec_drawn(d: Display, w: Window) -> Display {
    Display { border: Some(w.geometry), ..d }
}

/// The display with the selection border cleared.
pub open spec fn spec_cleared(d: Display) -> Display {
    Display { border: None, ..d }
}

/// One body of the selection loop: redraw the border along the candidate
/// window, then decode the input snapshot and apply the action it asks for.
pub open spec fn spec_tick(d: Display, w: Window, keys: Seq<Key>) -> Display {
    let area = w.geometry.spec_padded(d.padding);
    let adjusted = spec_apply(d.padding, d.step, d.initial_padding, spec_decode(keys), area);
    Display { padding: adjusted.0, step: adjusted.1, ..spec_drawn(d, w) }
}

/// The whole selection loop over a run of polls, from tick `i` on. Each tick
/// runs the loop body and then checks the exit conditions in priority order:
/// cancel keys first, then the timeout (the elapsed time, `i` ticks of the
/// poll interval, having reached `timeout` seconds), then the confirmation
/// binding. A run that ends without a decision counts as timed out. The
/// border is cleared on the way out, whatever the outcome.
pub open spec fn spec_select(d: Display, polls: Seq<SelectPoll>, i: nat) -> (
    SelectOutcome,
    nat,
    Display,
)
    decreases polls.len() - i,
{
    if i >= polls.len() {
        (SelectOutcome::TimedOut, i, spec_cleared(d))
    } else {
        let p = polls[i as int];
        let d1 = spec_tick(d, p.window, p.input.keys@);
        if p.input.spec_cancel() {
            (SelectOutcome::Cancelled, (i + 1) as nat, spec_cleared(d1))
        } else if i * d.settings.interval >= d.settings.timeout * 1000 {
            (SelectOutcome::TimedOut, (i + 1) as nat, spec_cleared(d1))
        } else if p.input.spec_confirm() {
            (
                SelectOutcome::Selected(p.window, p.window.geometry.spec_padded(d1.padding)),
                (i + 1) as nat,
                spec_cleared(d1),
            )
        } else {
            spec_select(d1, polls, (i + 1) as nat)
        }
    }
}

impl Display {
    /// A fresh selection engine. The working padding starts as the uniform
    /// inset the settings configure, the adjustment step at 3 pixels, and no
    /// border is drawn. The surrounding application opens the real display
    /// connection and passes the resolved root and focused windows in.
    pub fn open(settings: Option<RecordSettings>, root: Window, focused: Option<Window>) -> (r:
        Display)
        ensures
            r.settings == (match settings {
                Some(s) => s,
                None => RecordSettings::spec_default(),
            }),
            r.initial_padding == (Padding {
                top: r.settings.padding,
                right: r.settings.padding,
                bottom: r.settings.padding,
                left: r.settings.padding,
            }),
            r.padding == r.initial_padding,
            r.step == 3u32,
            r.root == root,
            r.focused == focused,
            r.border is None,
    {
        let s = match settings {
            Some(s) => s,
            None => Default::default(),
        };
        let pad = Padding::uniform(s.padding);
        Display {
            settings: s,
            initial_padding: pad,
            padding: pad,
            step: 3,
            root,
            focused,
            border: None,
        }
    }

    /// The window this session records: the root window when the settings
    /// say so, otherwise the focused one (which may be absent).
    pub fn get_window(&self) -> (r: Option<Window>)
        ensures
            r == (if self.settings.record_root {
                Some(self.root)
            } else {
                self.focused
            }),
    {
        if self.settings.record_root {
            Some(self.root)
        } else {
            self.focused
        }
    }

    /// Rework the padding so that the capture area gets the requested size:
    /// the top and left insets are dropped and the right and bottom insets
    /// absorb whatever the window's geometry has beyond the requested width
    /// and height, clamped at zero. A zero `size` asks for no particular
    /// size and leaves the padding alone.
    pub fn update_padding(&mut self, size: Geometry, window_geometry: Geometry)
        ensures
            *final(self) == (Display {
                padding: spec_update_padding(old(self).padding, size, window_geometry),
                ..*old(self)
            }),
    {
        if !size.is_zero() {
            self.padding = Padding {
                top: 0,
                right: window_geometry.width.saturating_sub(size.width),
                bottom: window_geometry.height.saturating_sub(size.height),
                left: 0,
            };
        }
    }

    /// Draw the selection border along `w`: the engine records the drawn
    /// rectangle, and the application mirrors it onto the live display.
    pub fn draw_border(&mut self, w: &Window)
        ensures
            *final(self) == spec_drawn(*old(self), *w),
    {
        self.border = Some(w.geometry);
    }

    /// Clear the selection border from the display.
    pub fn clear_border(&mut self)
        ensures
            *final(self) == spec_cleared(*old(self)),
    {
        self.border = None;
    }

    /// Apply one decoded action to the working padding and step, guarded by
    /// the current capture area.
    pub fn apply_action(&mut self, action: SelectAction, area: Geometry)
        ensures
            ({
                let adjusted = spec_apply(
                    old(self).padding,
                    old(self).step,
                    old(self).initial_padding,
                    action,
                    area,
                );
                *final(self) == (Display { padding: adjusted.0, step: adjusted.1, ..*old(self) })
            }),
    {
        match action {
            SelectAction::Idle => {},
            SelectAction::SetStep(d) => {
                self.step = d;
            },
            SelectAction::Reset => {
                self.padding = self.initial_padding;
            },
            SelectAction::Increase(s) => {
                if area.width > 5 && area.height > 5 {
                    let v = side_value_exec(self.padding, s).saturating_add(self.step);
                    self.padding = with_side(self.padding, s, v);
                }
            },
            SelectAction::Decrease(s) => {
                let v = side_value_exec(self.padding, s).saturating_sub(self.step);
                self.padding = with_side(self.padding, s, v);
            },
            SelectAction::Shift(s) => {
                if area.width > 10 && area.height > 10 {
                    let grown = side_value_exec(self.padding, s).saturating_add(self.step);
                    let stretched = with_side(self.padding, s, grown);
                    let o = s.opposite();
                    let shrunk = side_value_exec(stretched, o).saturating_sub(self.step);
                    self.padding = with_side(stretched, o, shrunk);
                }
            },
        }
    }

    /// Run the whole interactive selection over a run of polls. Returns the
    /// outcome and how many loop bodies ran. The result and the engine's
    /// final state follow [`spec_select`] exactly.
    pub fn select_window(&mut self, polls: &Vec<SelectPoll>) -> (r: (SelectOutcome, usize))
        ensures
            r.0 == spec_select(*old(self), polls@, 0).0,
            r.1 == spec_select(*old(self), polls@, 0).1,
            *final(self) == spec_select(*old(self), polls@, 0).2,
    {
        let ghost d0 = *self;
        let mut i: usize = 0;
        while i < polls.len()
            invariant
                i <= polls@.len(),
                d0 == *old(self),
                self.settings == d0.settings,
                spec_select(d0, polls@, 0) == spec_select(*self, polls@, i as nat),
            decreases polls@.len() - i,
        {
            let ghost dpre = *self;
            let p = &polls[i];
            let w = p.window;
            self.draw_border(&w);
            let area = w.area(self.padding);
            let act = decode(&p.input);
            self.apply_action(act, area);
            assert(*self == spec_tick(dpre, w, p.input.keys@));
            let ghost d1 = *self;
            if p.input.check_keys() {
                self.clear_border();
                proof {
                    assert(spec_select(dpre, polls@, i as nat) == (
                        SelectOutcome::Cancelled,
                        (i + 1) as nat,
                        spec_cleared(d1),
                    ));
                }
                return (SelectOutcome::Cancelled, i + 1);
            }
            proof {
                let x = i as int;
                let y = self.settings.interval as int;
                assert(x * y <= u64::MAX as int * u64::MAX as int) by (nonlinear_arith)
                    requires
                        0 <= x <= u64::MAX as int,
                        0 <= y <= u64::MAX as int,
                ;
            }
            let elapsed_ms: u128 = (i as u128) * (self.settings.interval as u128);
            if elapsed_ms >= (self.settings.timeout as u128) * 1000 {
                self.clear_border();
                proof {
                    assert(spec_select(dpre, polls@, i as nat) == (
                        SelectOutcome::TimedOut,
                        (i + 1) as nat,
                        spec_cleared(d1),
                    ));
                }
                return (SelectOutcome::TimedOut, i + 1);
            }
            if p.input.check_action_keys() {
                let g = w.area(self.padding);
                self.clear_border();
                proof {
                    assert(spec_select(dpre, polls@, i as nat) == (
                        SelectOutcome::Selected(w, w.geometry.spec_padded(d1.padding)),
                        (i + 1) as nat,
                        spec_cleared(d1),
                    ));
                }
                return (SelectOutcome::Selected(w, g), i + 1);
            }
            proof {
                assert(spec_select(dpre, polls@, i as nat) == spec_select(
                    d1,
                    polls@,
                    (i + 1) as nat,
                ));
            }
            i += 1;
        }
        self.clear_border();
        (SelectOutcome::TimedOut, i)
    }
}

/// The padding `update_padding` leaves behind.
pub open spec fn spec_update_padding(p: Padding, size: Geometry, wg: Geometry) -> Padding {
    if size.x == 0 && size.y == 0 && size.width == 0 && size.height == 0 {
        p
    } else {
        Padding {
            top: 0u32,
            right: crate::geometry::sat_sub_u32(wg.width as int, size.width as int),
            bottom: crate::geometry::sat_sub_u32(wg.height as int, size.height as int),
            left: 0u32,
        }
    }
}

fn side_value_exec(p: Padding, s: Side) -> (r: u32)
    ensures
        r == side_value(p, s),
{
    match s {
        Side::Top => p.top,
        Side::Right => p.right,
        Side::Bottom => p.bottom,
        Side::Left => p.left,
    }
}

/// Drawing a border and then clearing it returns the engine to its previous
/// state: the stored geometry — the settings, the working padding, the step
/// and the window snapshots — is untouched; only the border mark is gone.
pub proof fn lemma_border_round_trip(d: Display, w: Window)
    requires
        w.geometry.is_valid(),
    ensures
        spec_cleared(spec_drawn(d, w)) == (Display { border: None, ..d }),
        spec_cleared(spec_drawn(d, w)).settings == d.settings,
        spec_cleared(spec_drawn(d, w)).padding == d.padding,
        spec_cleared(spec_drawn(d, w)).step == d.step,
        spec_cleared(spec_drawn(d, w)).root == d.root,
        spec_cleared(spec_drawn(d, w)).focused == d.focused,
{
}

/// A selection whose timeout is zero decides at its first poll: the main
/// loop body runs at most once, and the outcome is never a selected window
/// — the session aborts as timed out (or cancelled, which takes priority).
pub proof fn lemma_timeout_zero_selects_nothing(d: Display, polls: Seq<SelectPoll>)
    requires
        d.settings.timeout == 0,
    ensures
        !(spec_select(d, polls, 0).0 is Selected),
        spec_select(d, polls, 0).1 <= 1,
{
    if polls.len() == 0 {
    } else {
        assert(0 * d.settings.interval >= d.settings.timeout * 1000);
    }
}

} // verus!
