//! State of the live progress screen: which host is selected, how far the
//! output pane is scrolled, and what each decoded input does. The drawing and
//! the event decoding live outside; every decision is here, with its
//! contract.

use vstd::prelude::*;
use vstd::string::StrSliceExecFns;

use crate::aggregator::ProgressTable;
use crate::host::token_hostname;
use crate::text::find_char;
use crate::text::lemma_find_char_from_properties;

verus! {

/// A screen rectangle, for hit-testing mouse input.
#[derive(Debug, Clone, Copy, PartialEq, Eq, Structural)]
pub struct ScreenRect {
    pub x: u16,
    pub y: u16,
    pub width: u16,
    pub height: u16,
}

impl ScreenRect {
    /// The empty rectangle at the origin.
    pub fn zero() -> (r: ScreenRect)
        ensures
            r == (ScreenRect { x: 0, y: 0, width: 0, height: 0 }),
    {
        ScreenRect { x: 0, y: 0, width: 0, height: 0 }
    }
}

/// Whether the cell at `column`, `row` lies inside `r`.
pub open spec fn rect_contains(r: ScreenRect, column: u16, row: u16) -> bool {
    &&& r.x <= column < r.x + r.width
    &&& r.y <= row < r.y + r.height
}

fn rect_hit(r: &ScreenRect, column: u16, row: u16) -> (hit: bool)
    ensures
        hit == rect_contains(*r, column, row),
{
    let c = column as u32;
    let w = row as u32;
    c >= r.x as u32 && c < r.x as u32 + r.width as u32 && w >= r.y as u32 && w < r.y as u32
        + r.height as u32
}

/// One decoded operator input, as the progress screen understands it.
pub enum InputSignal {
    /// Select the previous host.
    Up,
    /// Select the next host.
    Down,
    /// Scroll the output pane up.
    PageUp,
    /// Scroll the output pane down.
    PageDown,
    /// The interrupt chord: quits at once when every host is done, and on the
    /// second consecutive press otherwise.
    CtrlC,
    /// The quit key: quits only when every host is done.
    QuitKey,
    /// A primary click at a cell: selects the host row it hits.
    LeftClick { column: u16, row: u16 },
    /// Wheel up over a cell: scrolls the output pane when it hits it.
    WheelUp { column: u16, row: u16 },
    /// Wheel down over a cell.
    WheelDown { column: u16, row: u16 },
    /// Any other key: only resets the interrupt count.
    OtherKey,
}

/// Model of a [`ProgressTui`].
pub struct TuiView {
    pub server_list: Seq<Seq<char>>,
    pub selected_index: int,
    pub scroll_offset: int,
    pub all_complete: bool,
    pub ctrl_c_count: int,
    pub auto_scroll: bool,
    pub max_scroll: int,
    pub server_list_area: ScreenRect,
    pub output_area: ScreenRect,
}

/// State of the progress screen.
pub struct ProgressTui {
    pub server_list: Vec<String>,
    selected_index: usize,
    scroll_offset: usize,
    all_complete: bool,
    ctrl_c_count: u8,
    auto_scroll: bool,
    max_scroll: usize,
    server_list_area: ScreenRect,
    output_area: ScreenRect,
}

impl View for ProgressTui {
    type V = TuiView;

    closed spec fn view(&self) -> TuiView {
        TuiView {
            server_list: self.server_list@.map_values(|s: String| s@),
            selected_index: self.selected_index as int,
            scroll_offset: self.scroll_offset as int,
            all_complete: self.all_complete,
            ctrl_c_count: self.ctrl_c_count as int,
            auto_scroll: self.auto_scroll,
            max_scroll: self.max_scroll as int,
            server_list_area: self.server_list_area,
            output_area: self.output_area,
        }
    }
}

/// Selecting the next host, wrapping; an empty list changes nothing.
pub open spec fn next_model(m: TuiView) -> TuiView {
    if m.server_list.len() > 0 {
        TuiView {
            selected_index: (m.selected_index + 1) % (m.server_list.len() as int),
            scroll_offset: 0,
            auto_scroll: true,
            ..m
        }
    } else {
        m
    }
}

/// Selecting the previous host, wrapping; an empty list changes nothing.
pub open spec fn previous_model(m: TuiView) -> TuiView {
    if m.server_list.len() > 0 {
        TuiView {
            selected_index: if m.selected_index == 0 {
                m.server_list.len() - 1
            } else {
                m.selected_index - 1
            },
            scroll_offset: 0,
            auto_scroll: true,
            ..m
        }
    } else {
        m
    }
}

/// Scrolling up a step leaves the automatic follow mode.
pub open spec fn scroll_up_model(m: TuiView) -> TuiView {
    if m.scroll_offset > 0 {
        TuiView {
            scroll_offset: if m.scroll_offset >= 5 {
                m.scroll_offset - 5
            } else {
                0
            },
            auto_scroll: false,
            ..m
        }
    } else {
        m
    }
}

/// Scrolling down a step; reaching the bottom resumes the automatic follow
/// mode.
pub open spec fn scroll_down_model(m: TuiView) -> TuiView {
    if m.scroll_offset < m.max_scroll {
        let target = if m.max_scroll - m.scroll_offset > 5 {
            m.scroll_offset + 5
        } else {
            m.max_scroll
        };
        TuiView {
            scroll_offset: target,
            auto_scroll: if target >= m.max_scroll {
                true
            } else {
                m.auto_scroll
            },
            ..m
        }
    } else {
        m
    }
}

/// The row of the host list a click at `row` lands on, accounting for the
/// border.
pub open spec fn clicked_row(m: TuiView, row: u16) -> int {
    if row >= m.server_list_area.y + 1 {
        row - (m.server_list_area.y + 1)
    } else {
        0
    }
}

/// What one decoded input does: the next state, and whether to quit.
pub open spec fn tui_step(m: TuiView, sig: InputSignal) -> (TuiView, bool) {
    match sig {
        InputSignal::Up => (TuiView { ctrl_c_count: 0, ..previous_model(m) }, false),
        InputSignal::Down => (TuiView { ctrl_c_count: 0, ..next_model(m) }, false),
        InputSignal::PageUp => (TuiView { ctrl_c_count: 0, ..scroll_up_model(m) }, false),
        InputSignal::PageDown => (TuiView { ctrl_c_count: 0, ..scroll_down_model(m) }, false),
        InputSignal::CtrlC => {
            let count = if m.ctrl_c_count < 255 {
                m.ctrl_c_count + 1
            } else {
                m.ctrl_c_count
            };
            (TuiView { ctrl_c_count: count, ..m }, m.all_complete || count >= 2)
        },
        InputSignal::QuitKey => if m.all_complete {
            (m, true)
        } else {
            (TuiView { ctrl_c_count: 0, ..m }, false)
        },
        InputSignal::LeftClick { column, row } => {
            let m1 = TuiView { ctrl_c_count: 0, ..m };
            if rect_contains(m.server_list_area, column, row) && clicked_row(m, row)
                < m.server_list.len() {
                (
                    TuiView {
                        selected_index: clicked_row(m, row),
                        scroll_offset: 0,
                        auto_scroll: true,
                        ..m1
                    },
                    false,
                )
            } else {
                (m1, false)
            }
        },
        InputSignal::WheelUp { column, row } => {
            let m1 = TuiView { ctrl_c_count: 0, ..m };
            if rect_contains(m.output_area, column, row) {
                (TuiView { ctrl_c_count: 0, ..scroll_up_model(m) }, false)
            } else {
                (m1, false)
            }
        },
        InputSignal::WheelDown { column, row } => {
            let m1 = TuiView { ctrl_c_count: 0, ..m };
            if rect_contains(m.output_area, column, row) {
                (TuiView { ctrl_c_count: 0, ..scroll_down_model(m) }, false)
            } else {
                (m1, false)
            }
        },
        InputSignal::OtherKey => (TuiView { ctrl_c_count: 0, ..m }, false),
    }
}

/// Whether every listed host's table entry shows a terminal phase; a host
/// missing from the table counts as not done.
pub open spec fn host_done(table: &ProgressTable, token: Seq<char>) -> bool {
    exists|i: int|
        0 <= i < table.hosts_view().len() && table.hosts_view()[i] == token_hostname(token)
            && table.entries_view()[i].phase.is_terminal()
}

impl ProgressTui {
    /// The selected host stays on the list.
    pub open spec fn wf(&self) -> bool {
        self@.server_list.len() > 0 ==> self@.selected_index < self@.server_list.len()
    }

    /// A fresh screen over the selected host tokens.
    pub fn new(servers: Vec<String>) -> (r: ProgressTui)
        ensures
            r.wf(),
            r@.server_list == servers@.map_values(|s: String| s@),
            r@.selected_index == 0,
            r@.scroll_offset == 0,
            !r@.all_complete,
            r@.ctrl_c_count == 0,
            r@.auto_scroll,
            r@.max_scroll == 0,
    {
        ProgressTui {
            server_list: servers,
            selected_index: 0,
            scroll_offset: 0,
            all_complete: false,
            ctrl_c_count: 0,
            auto_scroll: true,
            max_scroll: 0,
            server_list_area: ScreenRect::zero(),
            output_area: ScreenRect::zero(),
        }
    }

    /// The selected host's index, for rendering.
    pub fn selected_index(&self) -> (r: usize)
        ensures
            r == self@.selected_index,
    {
        self.selected_index
    }

    /// The output pane's scroll offset, for rendering.
    pub fn scroll_offset(&self) -> (r: usize)
        ensures
            r == self@.scroll_offset,
    {
        self.scroll_offset
    }

    /// Whether the output pane follows new output.
    pub fn auto_scroll(&self) -> (r: bool)
        ensures
            r == self@.auto_scroll,
    {
        self.auto_scroll
    }

    /// Remembers where the renderer drew the two panes, for hit-testing.
    pub fn set_areas(&mut self, server_list_area: ScreenRect, output_area: ScreenRect)
        ensures
            final(self)@ == (TuiView { server_list_area, output_area, ..old(self)@ }),
    {
        self.server_list_area = server_list_area;
        self.output_area = output_area;
    }

    /// Fits the scroll state to the rendered output: the furthest offset is
    /// what does not fit, and the follow mode keeps the pane at the bottom.
    pub fn update_scroll(&mut self, line_count: usize, visible_lines: usize)
        ensures
            ({
                let max = if line_count >= visible_lines {
                    line_count - visible_lines
                } else {
                    0
                };
                final(self)@ == (TuiView {
                    max_scroll: max,
                    scroll_offset: if old(self)@.auto_scroll {
                        max
                    } else {
                        old(self)@.scroll_offset
                    },
                    ..old(self)@
                })
            }),
    {
        self.max_scroll = if line_count >= visible_lines {
            line_count - visible_lines
        } else {
            0
        };
        if self.auto_scroll {
            self.scroll_offset = self.max_scroll;
        }
    }

    /// Applies one decoded input; returns whether the operator quit.
    pub fn handle_signal(&mut self, sig: InputSignal) -> (quit: bool)
        requires
            old(self).wf(),
        ensures
            final(self).wf(),
            final(self)@ == tui_step(old(self)@, sig).0,
            quit == tui_step(old(self)@, sig).1,
    {
        match sig {
            InputSignal::Up => {
                self.previous();
                self.ctrl_c_count = 0;
                false
            },
            InputSignal::Down => {
                self.next();
                self.ctrl_c_count = 0;
                false
            },
            InputSignal::PageUp => {
                self.scroll_up();
                self.ctrl_c_count = 0;
                false
            },
            InputSignal::PageDown => {
                self.scroll_down();
                self.ctrl_c_count = 0;
                false
            },
            InputSignal::CtrlC => {
                if self.ctrl_c_count < 255 {
                    self.ctrl_c_count = self.ctrl_c_count + 1;
                }
                self.all_complete || self.ctrl_c_count >= 2
            },
            InputSignal::QuitKey => {
                if self.all_complete {
                    true
                } else {
                    self.ctrl_c_count = 0;
                    false
                }
            },
            InputSignal::LeftClick { column, row } => {
                self.ctrl_c_count = 0;
                if rect_hit(&self.server_list_area, column, row) {
                    let base = self.server_list_area.y as usize + 1;
                    let rel: usize = if row as usize >= base {
                        row as usize - base
                    } else {
                        0
                    };
                    if rel < self.server_list.len() {
                        self.selected_index = rel;
                        self.scroll_offset = 0;
                        self.auto_scroll = true;
                    }
                }
                false
            },
            InputSignal::WheelUp { column, row } => {
                self.ctrl_c_count = 0;
                if rect_hit(&self.output_area, column, row) {
                    self.scroll_up();
                }
                false
            },
            InputSignal::WheelDown { column, row } => {
                self.ctrl_c_count = 0;
                if rect_hit(&self.output_area, column, row) {
                    self.scroll_down();
                }
                false
            },
            InputSignal::OtherKey => {
                self.ctrl_c_count = 0;
                false
            },
        }
    }

    /// Selects the next host and rejoins the output's tail.
    pub fn next(&mut self)
        requires
            old(self).wf(),
        ensures
            final(self).wf(),
            final(self)@ == next_model(old(self)@),
    {
        let n = self.server_list.len();
        if n > 0 {
            self.selected_index = (self.selected_index + 1) % n;
            self.scroll_offset = 0;
            self.auto_scroll = true;
        }
    }

    /// Selects the previous host and rejoins the output's tail.
    pub fn previous(&mut self)
        requires
            old(self).wf(),
        ensures
            final(self).wf(),
            final(self)@ == previous_model(old(self)@),
    {
        let n = self.server_list.len();
        if n > 0 {
            self.selected_index = if self.selected_index == 0 {
                n - 1
            } else {
                self.selected_index - 1
            };
            self.scroll_offset = 0;
            self.auto_scroll = true;
        }
    }

    /// Scrolls the output pane up a step.
    pub fn scroll_up(&mut self)
        ensures
            final(self)@ == scroll_up_model(old(self)@),
    {
        if self.scroll_offset > 0 {
            self.scroll_offset = if self.scroll_offset >= 5 {
                self.scroll_offset - 5
            } else {
                0
            };
            self.auto_scroll = false;
        }
    }

    /// Scrolls the output pane down a step.
    pub fn scroll_down(&mut self)
        ensures
            final(self)@ == scroll_down_model(old(self)@),
    {
        if self.scroll_offset < self.max_scroll {
            self.scroll_offset = if self.max_scroll - self.scroll_offset > 5 {
                self.scroll_offset + 5
            } else {
                self.max_scroll
            };
            if self.scroll_offset >= self.max_scroll {
                self.auto_scroll = true;
            }
        }
    }

    /// Whether every listed host has reached a terminal phase; remembers the
    /// answer for the quit keys.
    pub fn check_all_complete(&mut self, table: &ProgressTable) -> (r: bool)
        requires
            old(self).wf(),
            table.wf(),
        ensures
            final(self).wf(),
            r == (forall|k: int|
                0 <= k < old(self)@.server_list.len() ==> host_done(
                    table,
                    #[trigger] old(self)@.server_list[k],
                )),
            final(self)@ == (TuiView { all_complete: r, ..old(self)@ }),
    {
        let n = self.server_list.len();
        let mut k: usize = 0;
        let mut done = true;
        while k < n && done
            invariant
                0 <= k <= n,
                n == self.server_list@.len(),
                table.wf(),
                self == old(self),
                done ==> forall|j: int|
                    0 <= j < k ==> host_done(table, #[trigger] self@.server_list[j]),
                !done ==> k > 0 && !host_done(table, self@.server_list[k - 1]),
            decreases n - k,
        {
            let token = &self.server_list[k];
            proof {
                lemma_find_char_from_properties(token@, ':', 0);
            }
            let p = find_char(token.as_str(), ':', 0);
            let hostname = token.as_str().substring_char(0, p);
            proof {
                assert(hostname@ == token_hostname(self@.server_list[k as int]));
            }
            match table.find(hostname) {
                Some(entry) => {
                    if !entry.phase.is_terminal() {
                        proof {
                            let h = hostname@;
                            let i = choose|i: int|
                                0 <= i < table.hosts_view().len() && table.hosts_view()[i] == h
                                    && entry@ == table.entries_view()[i];
                            assert forall|i2: int|
                                0 <= i2 < table.hosts_view().len() && table.hosts_view()[i2] == h
                                    implies !table.entries_view()[i2].phase.is_terminal() by {
                                assert(i2 == i);
                            }
                        }
                        done = false;
                    }
                },
                None => {
                    done = false;
                },
            }
            k = k + 1;
        }
        self.all_complete = done;
        proof {
            if done {
                assert(k == n);
            }
        }
        done
    }
}

} // verus!
