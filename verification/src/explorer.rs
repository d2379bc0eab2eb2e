//! Navigation state of the fingerprint strip explorer.
//!
//! The explorer shows a strip of `strip_width` frames, scrolled horizontally by
//! `scroll_x`, beside panels scrolled vertically by `scroll_y`; one of four panels
//! is active. Keys move the view, switch panels or quit.

use vstd::prelude::*;
use crate::keys::{Key, KeyKind};
use crate::text::{concat, decimal, push_decimal};

verus! {

broadcast use vstd::string::group_string_axioms;

/// Navigation state of the explorer.
pub struct ExplorerApp {
    strip_width: usize,
    strip_height: usize,
    scroll_x: usize,
    scroll_y: usize,
    active_panel: usize,
    should_quit: bool,
    status: String,
}

/// Abstract view of the explorer state.
pub struct ExplorerView {
    pub strip_width: usize,
    pub strip_height: usize,
    pub scroll_x: usize,
    pub scroll_y: usize,
    pub active_panel: usize,
    pub should_quit: bool,
    pub status: Seq<char>,
}

impl View for ExplorerApp {
    type V = ExplorerView;

    closed spec fn view(&self) -> ExplorerView {
        ExplorerView {
            strip_width: self.strip_width,
            strip_height: self.strip_height,
            scroll_x: self.scroll_x,
            scroll_y: self.scroll_y,
            active_panel: self.active_panel,
            should_quit: self.should_quit,
            status: self.status@,
        }
    }
}

/// The last frame index of the strip (0 for an empty strip).
pub open spec fn max_x(w: usize) -> usize {
    if w == 0 {
        0
    } else {
        (w - 1) as usize
    }
}

/// The horizontal scroll stays on the strip and the active panel is one of the four.
pub open spec fn explorer_wf(e: ExplorerView) -> bool {
    &&& e.scroll_x <= max_x(e.strip_width)
    &&& e.active_panel < 4
}

/// Name of a panel.
pub open spec fn panel_name_of(p: usize) -> Seq<char> {
    if p == 0 {
        "Fingerprint Strip"@
    } else if p == 1 {
        "Scene Boundaries"@
    } else if p == 2 {
        "Color Mood"@
    } else if p == 3 {
        "Color DNA"@
    } else {
        "Unknown"@
    }
}

/// The status line shown after loading a strip.
pub open spec fn loaded_status(w: usize, h: usize) -> Seq<char> {
    "Loaded "@ + decimal(w as nat) + "x"@ + decimal(h as nat) + " strip ("@ + decimal(w as nat)
        + " frames)"@
}

/// Scroll left by `amount` frames, stopping at the first frame.
pub open spec fn scroll_left_to(x: usize, amount: usize) -> usize {
    if x < amount {
        0
    } else {
        (x - amount) as usize
    }
}

/// Scroll right by `amount` frames, stopping at the last frame.
pub open spec fn scroll_right_to(x: usize, amount: usize, w: usize) -> usize {
    if x < max_x(w) {
        if x + amount < max_x(w) {
            (x + amount) as usize
        } else {
            max_x(w)
        }
    } else {
        x
    }
}

/// Switch to panel `p` and report it in the status line.
pub open spec fn with_panel(e: ExplorerView, p: usize) -> ExplorerView {
    ExplorerView { active_panel: p, status: "Panel: "@ + panel_name_of(p), ..e }
}

/// The state after a key press, and whether the explorer keeps running.
pub open spec fn explorer_key_step(e: ExplorerView, key: Key) -> (ExplorerView, bool) {
    match key {
        Key::Char('q') | Key::Esc => (ExplorerView { should_quit: true, ..e }, false),
        Key::Left | Key::Char('h') => (
            ExplorerView { scroll_x: scroll_left_to(e.scroll_x, 1), ..e },
            true,
        ),
        Key::Right | Key::Char('l') => (
            ExplorerView { scroll_x: scroll_right_to(e.scroll_x, 1, e.strip_width), ..e },
            true,
        ),
        Key::Up | Key::Char('k') => (
            ExplorerView {
                scroll_y: if e.scroll_y == 0 {
                    0
                } else {
                    (e.scroll_y - 1) as usize
                },
                ..e
            },
            true,
        ),
        Key::Down | Key::Char('j') => (
            ExplorerView {
                scroll_y: if e.scroll_y == usize::MAX {
                    usize::MAX
                } else {
                    (e.scroll_y + 1) as usize
                },
                ..e
            },
            true,
        ),
        Key::PageUp => (ExplorerView { scroll_x: scroll_left_to(e.scroll_x, 20), ..e }, true),
        Key::PageDown => (
            ExplorerView { scroll_x: scroll_right_to(e.scroll_x, 20, e.strip_width), ..e },
            true,
        ),
        Key::Home => (ExplorerView { scroll_x: 0, ..e }, true),
        Key::End => (ExplorerView { scroll_x: max_x(e.strip_width), ..e }, true),
        Key::Tab => (with_panel(e, ((e.active_panel + 1) % 4) as usize), true),
        Key::BackTab => (with_panel(e, ((e.active_panel + 3) % 4) as usize), true),
        _ => (e, true),
    }
}

impl ExplorerApp {
    /// An explorer over a strip of `width` frames and `height` rows, at the first
    /// frame with the strip panel active.
    pub fn new(width: u32, height: u32) -> (r: ExplorerApp)
        ensures
            r@ == (ExplorerView {
                strip_width: width as usize,
                strip_height: height as usize,
                scroll_x: 0,
                scroll_y: 0,
                active_panel: 0,
                should_quit: false,
                status: loaded_status(width as usize, height as usize),
            }),
            explorer_wf(r@),
    {
        let w = width as usize;
        let h = height as usize;
        let mut status = String::from_str("Loaded ");
        push_decimal(&mut status, w as u64);
        status.append("x");
        push_decimal(&mut status, h as u64);
        status.append(" strip (");
        push_decimal(&mut status, w as u64);
        status.append(" frames)");
        let r = ExplorerApp {
            strip_width: w,
            strip_height: h,
            scroll_x: 0,
            scroll_y: 0,
            active_panel: 0,
            should_quit: false,
            status,
        };
        assert(r@.status =~= loaded_status(w, h));
        r
    }

    /// Frame index at the left edge of the strip view.
    pub fn scroll_x(&self) -> (r: usize)
        ensures
            r == self@.scroll_x,
    {
        self.scroll_x
    }

    /// Vertical scroll offset of the info panels.
    pub fn scroll_y(&self) -> (r: usize)
        ensures
            r == self@.scroll_y,
    {
        self.scroll_y
    }

    /// Index of the active panel.
    pub fn active_panel(&self) -> (r: usize)
        ensures
            r == self@.active_panel,
    {
        self.active_panel
    }

    /// Whether the explorer should close.
    pub fn should_quit(&self) -> (r: bool)
        ensures
            r == self@.should_quit,
    {
        self.should_quit
    }

    /// The status line.
    pub fn status(&self) -> (r: &str)
        ensures
            r@ == self@.status,
    {
        self.status.as_str()
    }

    /// Number of frames in the strip.
    pub fn strip_width(&self) -> (r: usize)
        ensures
            r == self@.strip_width,
    {
        self.strip_width
    }

    /// Number of rows in the strip.
    pub fn strip_height(&self) -> (r: usize)
        ensures
            r == self@.strip_height,
    {
        self.strip_height
    }

    /// Whether a frame lies in the strip view when it shows `view_width` frames from
    /// its left edge.
    pub fn shows_frame(&self, frame_idx: usize, view_width: usize) -> (r: bool)
        ensures
            r == (self@.scroll_x <= frame_idx && frame_idx < self@.scroll_x + view_width),
    {
        frame_idx >= self.scroll_x && frame_idx - self.scroll_x < view_width
    }

    /// Name of the active panel.
    pub fn panel_name(&self) -> (r: &'static str)
        ensures
            r@ == panel_name_of(self@.active_panel),
    {
        if self.active_panel == 0 {
            "Fingerprint Strip"
        } else if self.active_panel == 1 {
            "Scene Boundaries"
        } else if self.active_panel == 2 {
            "Color Mood"
        } else if self.active_panel == 3 {
            "Color DNA"
        } else {
            "Unknown"
        }
    }

    fn scroll_left(&mut self, amount: usize)
        ensures
            final(self)@ == (ExplorerView {
                scroll_x: scroll_left_to(old(self)@.scroll_x, amount),
                ..old(self)@
            }),
    {
        self.scroll_x = self.scroll_x.saturating_sub(amount);
    }

    fn scroll_right(&mut self, amount: usize)
        ensures
            final(self)@ == (ExplorerView {
                scroll_x: scroll_right_to(old(self)@.scroll_x, amount, old(self)@.strip_width),
                ..old(self)@
            }),
    {
        let max_x = self.strip_width.saturating_sub(1);
        if self.scroll_x < max_x {
            self.scroll_x = if amount < max_x - self.scroll_x {
                self.scroll_x + amount
            } else {
                max_x
            };
        }
    }

    fn set_panel(&mut self, p: usize)
        ensures
            final(self)@ == with_panel(old(self)@, p),
    {
        self.active_panel = p;
        self.status = concat("Panel: ", self.panel_name());
    }

    /// Handle a key event; returns whether the explorer keeps running.
    pub fn handle_key(&mut self, kind: KeyKind, key: Key) -> (r: bool)
        requires
            explorer_wf(old(self)@),
        ensures
            kind != KeyKind::Press ==> final(self)@ == old(self)@ && r,
            kind == KeyKind::Press ==> (final(self)@, r) == explorer_key_step(old(self)@, key),
            explorer_wf(final(self)@),
    {
        if kind != KeyKind::Press {
            return true;
        }
        match key {
            Key::Char('q') | Key::Esc => {
                self.should_quit = true;
                false
            },
            Key::Left | Key::Char('h') => {
                self.scroll_left(1);
                true
            },
            Key::Right | Key::Char('l') => {
                self.scroll_right(1);
                true
            },
            Key::Up | Key::Char('k') => {
                self.scroll_y = self.scroll_y.saturating_sub(1);
                true
            },
            Key::Down | Key::Char('j') => {
                self.scroll_y = self.scroll_y.saturating_add(1);
                true
            },
            Key::PageUp => {
                self.scroll_left(20);
                true
            },
            Key::PageDown => {
                self.scroll_right(20);
                true
            },
            Key::Home => {
                self.scroll_x = 0;
                true
            },
            Key::End => {
                self.scroll_x = self.strip_width.saturating_sub(1);
                true
            },
            Key::Tab => {
                self.set_panel((self.active_panel + 1) % 4);
                true
            },
            Key::BackTab => {
                self.set_panel((self.active_panel + 3) % 4);
                true
            },
            _ => true,
        }
    }
}

/// Tab then BackTab returns to the same panel, and BackTab then Tab too.
pub proof fn lemma_tab_backtab_inverse(e: ExplorerView)
    requires
        explorer_wf(e),
    ensures
        explorer_key_step(explorer_key_step(e, Key::Tab).0, Key::BackTab).0.active_panel
            == e.active_panel,
        explorer_key_step(explorer_key_step(e, Key::BackTab).0, Key::Tab).0.active_panel
            == e.active_panel,
{
}

/// Four Tabs visit every panel and come back to the first.
pub proof fn lemma_four_tabs_cycle(e: ExplorerView)
    requires
        explorer_wf(e),
    ensures
        ({
            let e1 = explorer_key_step(e, Key::Tab).0;
            let e2 = explorer_key_step(e1, Key::Tab).0;
            let e3 = explorer_key_step(e2, Key::Tab).0;
            let e4 = explorer_key_step(e3, Key::Tab).0;
            &&& e4.active_panel == e.active_panel
            &&& e1.active_panel != e.active_panel && e2.active_panel != e.active_panel
                && e3.active_panel != e.active_panel
        }),
{
}

/// Every key keeps the horizontal scroll on the strip and the panel index valid.
pub proof fn lemma_keys_keep_explorer_wf(e: ExplorerView, key: Key)
    requires
        explorer_wf(e),
    ensures
        explorer_wf(explorer_key_step(e, key).0),
{
}

/// Home shows the first frame and End the last, whatever the position before.
pub proof fn lemma_home_end(e: ExplorerView)
    ensures
        explorer_key_step(e, Key::Home).0.scroll_x == 0,
        explorer_key_step(e, Key::End).0.scroll_x == max_x(e.strip_width),
        explorer_key_step(explorer_key_step(e, Key::End).0, Key::Right).0.scroll_x == max_x(
            e.strip_width,
        ),
{
}

/// Only quitting keys stop the explorer.
pub proof fn lemma_only_quit_stops(e: ExplorerView, key: Key)
    ensures
        !explorer_key_step(e, key).1 <==> (key == Key::Esc || key == Key::Char('q')),
        !explorer_key_step(e, key).1 ==> explorer_key_step(e, key).0.should_quit,
{
}

} // verus!
