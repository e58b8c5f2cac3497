//! The decisions of the log viewer: which lines the pointer selects, what a
//! copy puts on the clipboard, and which long lines are cut short.
use std::collections::HashSet;

use vstd::prelude::*;

use crate::sizes::{short_size, spec_short_size};

verus! {

/// Lines longer than this many bytes show only their beginning, with a
/// "Show more" button.
pub const TRUNCATE_THRESHOLD: usize = 3000;

/// A pointer event on the log lines.
#[derive(Debug, Clone, Copy, PartialEq, Eq, Structural)]
pub enum LogPointerEvent {
    /// A button went down on line `line`, with Ctrl or Shift held or not.
    Press { line: usize, ctrl: bool, shift: bool },
    /// The pointer moved over line `line`; `inside` when it is within it.
    Move { line: usize, inside: bool },
    /// A button went up.
    Release,
}

/// What the log viewer remembers between frames.
pub struct LogViewState {
    /// The selected lines, `start..end`.
    pub range: Option<(usize, usize)>,
    /// The line a drag started on.
    pub drag_start: Option<usize>,
    /// Whether a drag is in progress.
    pub dragging: bool,
    /// The long lines the user asked to see whole.
    pub expanded: HashSet<usize>,
}

/// The selection, where a drag started, and whether one is in progress.
pub type SelectionV = (Option<(usize, usize)>, Option<usize>, bool);

/// The smallest range that holds `start..end` and line `line`.
pub open spec fn covering(start: usize, end: usize, line: usize) -> (usize, usize) {
    (
        if line < start {
            line
        } else {
            start
        },
        if line + 1 > end {
            (line + 1) as usize
        } else {
            end
        },
    )
}

/// A pointer event's effect on the selection. Ctrl toggles: a click on a
/// selected line clears the selection, any other click extends it to cover
/// the line. Shift extends the selection to cover the line. A plain click
/// selects the line alone and starts a drag there. While dragging, moving
/// over a line selects everything between the drag's start and that line.
/// A release ends the drag.
pub open spec fn spec_pointer_step(sel: SelectionV, ev: LogPointerEvent) -> SelectionV {
    let (range, drag_start, dragging) = sel;
    match ev {
        LogPointerEvent::Press { line, ctrl, shift } => if ctrl {
            match range {
                Some((s, e)) => if s <= line < e {
                    (None, drag_start, dragging)
                } else {
                    (Some(covering(s, e, line)), drag_start, dragging)
                },
                None => (Some((line, (line + 1) as usize)), drag_start, dragging),
            }
        } else if shift {
            match range {
                Some((s, e)) => (Some(covering(s, e, line)), drag_start, dragging),
                None => (Some((line, (line + 1) as usize)), drag_start, dragging),
            }
        } else {
            (Some((line, (line + 1) as usize)), Some(line), true)
        },
        LogPointerEvent::Move { line, inside } => if inside && dragging && drag_start is Some {
            let d = drag_start.unwrap();
            (
                Some(
                    (
                        if d < line {
                            d
                        } else {
                            line
                        },
                        (if d < line {
                            line
                        } else {
                            d
                        } + 1) as usize,
                    ),
                ),
                drag_start,
                dragging,
            )
        } else {
            sel
        },
        LogPointerEvent::Release => (range, None, false),
    }
}

/// The line an event names is not the last possible index, so that the
/// range after it can end past it.
pub open spec fn pointer_event_ok(ev: LogPointerEvent) -> bool {
    match ev {
        LogPointerEvent::Press { line, .. } => line < usize::MAX,
        LogPointerEvent::Move { line, .. } => line < usize::MAX,
        LogPointerEvent::Release => true,
    }
}

/// The views of a list of lines.
pub open spec fn line_views(lines: Seq<String>) -> Seq<Seq<char>> {
    lines.map_values(|l: String| l@)
}

/// Lines joined with a line break between each two.
pub open spec fn joined_lines(lines: Seq<Seq<char>>) -> Seq<char>
    decreases lines.len(),
{
    if lines.len() == 0 {
        Seq::empty()
    } else if lines.len() == 1 {
        lines[0]
    } else {
        joined_lines(lines.drop_last()) + seq!['\n'] + lines.last()
    }
}

impl LogViewState {
    /// The selection and the drag.
    pub open spec fn selection(&self) -> SelectionV {
        (self.range, self.drag_start, self.dragging)
    }

    /// A selection is never empty, and a drag in progress knows where it
    /// started.
    pub open spec fn wf(&self) -> bool {
        &&& self.range matches Some((s, e)) ==> s < e
        &&& self.dragging ==> self.drag_start is Some
        &&& self.drag_start matches Some(d) ==> d < usize::MAX
    }

    /// Nothing selected, no drag, no line expanded.
    pub fn new() -> (r: LogViewState)
        ensures
            r.wf(),
            r.selection() == (None::<(usize, usize)>, None::<usize>, false),
            r.expanded@ == Set::<usize>::empty(),
    {
        LogViewState { range: None, drag_start: None, dragging: false, expanded: HashSet::new() }
    }

    /// Whether line `i` is selected.
    pub fn is_selected(&self, i: usize) -> (r: bool)
        ensures
            r == (self.range matches Some((s, e)) && s <= i < e),
    {
        match self.range {
            Some((s, e)) => s <= i && i < e,
            None => false,
        }
    }

    /// Applies a pointer event, as [`spec_pointer_step`] says; the expanded
    /// lines stay as they are.
    pub fn on_pointer(&mut self, ev: LogPointerEvent)
        requires
            old(self).wf(),
            pointer_event_ok(ev),
        ensures
            final(self).selection() == spec_pointer_step(old(self).selection(), ev),
            final(self).expanded@ == old(self).expanded@,
            final(self).wf(),
    {
        match ev {
            LogPointerEvent::Press { line, ctrl, shift } => {
                if ctrl {
                    match self.range {
                        Some((s, e)) => {
                            if s <= line && line < e {
                                self.range = None;
                            } else {
                                self.range = Some(cover(s, e, line));
                            }
                        },
                        None => {
                            self.range = Some((line, line + 1));
                        },
                    }
                } else if shift {
                    match self.range {
                        Some((s, e)) => {
                            self.range = Some(cover(s, e, line));
                        },
                        None => {
                            self.range = Some((line, line + 1));
                        },
                    }
                } else {
                    self.range = Some((line, line + 1));
                    self.drag_start = Some(line);
                    self.dragging = true;
                }
            },
            LogPointerEvent::Move { line, inside } => {
                if inside && self.dragging {
                    match self.drag_start {
                        Some(d) => {
                            if d < line {
                                self.range = Some((d, line + 1));
                            } else {
                                self.range = Some((line, d + 1));
                            }
                        },
                        None => {},
                    }
                }
            },
            LogPointerEvent::Release => {
                self.dragging = false;
                self.drag_start = None;
            },
        }
    }

    /// A key went down: Ctrl with C or X takes the selection and gives the
    /// selected lines joined by line breaks, for the clipboard; any other
    /// key, or no selection, gives nothing and changes nothing.
    pub fn on_copy_key(&mut self, ctrl: bool, copy_key: bool, lines: &Vec<String>) -> (r: Option<String>)
        requires
            old(self).wf(),
            old(self).range matches Some((s, e)) ==> e <= lines@.len(),
        ensures
            match (ctrl && copy_key, old(self).range) {
                (true, Some((s, e))) => {
                    &&& r matches Some(text) && text@ == joined_lines(
                        line_views(lines@).subrange(s as int, e as int),
                    )
                    &&& final(self).range is None
                },
                _ => r is None && final(self).range == old(self).range,
            },
            final(self).drag_start == old(self).drag_start,
            final(self).dragging == old(self).dragging,
            final(self).expanded@ == old(self).expanded@,
            final(self).wf(),
    {
        if ctrl && copy_key {
            match self.range {
                Some((s, e)) => {
                    self.range = None;
                    Some(join_lines(lines, s, e))
                },
                None => None,
            }
        } else {
            None
        }
    }

    /// The user asked to see line `i` whole.
    pub fn show_more(&mut self, i: usize)
        ensures
            final(self).expanded@ == old(self).expanded@.insert(i),
            final(self).selection() == old(self).selection(),
    {
        self.expanded.insert(i);
    }

    /// Whether line `i`, `byte_len` bytes long, shows only its beginning:
    /// when it is longer than [`TRUNCATE_THRESHOLD`] and was not expanded.
    pub fn is_truncated(&self, i: usize, byte_len: usize) -> (r: bool)
        ensures
            r == (byte_len > TRUNCATE_THRESHOLD && !self.expanded@.contains(i)),
    {
        byte_len > TRUNCATE_THRESHOLD && !self.expanded.contains(&i)
    }
}

/// The smallest range that holds `start..end` and line `line`.
fn cover(start: usize, end: usize, line: usize) -> (r: (usize, usize))
    requires
        line < usize::MAX,
    ensures
        r == covering(start, end, line),
{
    (
        if line < start {
            line
        } else {
            start
        },
        if line + 1 > end {
            line + 1
        } else {
            end
        },
    )
}

/// Lines `start..end` of `lines`, joined with line breaks.
fn join_lines(lines: &Vec<String>, start: usize, end: usize) -> (r: String)
    requires
        start <= end <= lines@.len(),
    ensures
        r@ == joined_lines(line_views(lines@).subrange(start as int, end as int)),
{
    let ghost v = line_views(lines@);
    let mut out = String::new();
    let mut i = start;
    assert(v.subrange(start as int, start as int) =~= Seq::<Seq<char>>::empty());
    while i < end
        invariant
            start <= i <= end <= lines@.len(),
            v == line_views(lines@),
            out@ == joined_lines(v.subrange(start as int, i as int)),
        decreases end - i,
    {
        let ghost before = out@;
        let ghost next = v.subrange(start as int, i + 1);
        assert(next.drop_last() =~= v.subrange(start as int, i as int));
        assert(next.last() == lines@[i as int]@);
        if i > start {
            out.append("\n");
            out.append(lines[i].as_str());
            proof {
                reveal_strlit("\n");
            }
            assert(out@ =~= before + seq!['\n'] + lines@[i as int]@);
            assert(next.len() >= 2);
            assert(joined_lines(next) == joined_lines(next.drop_last()) + seq!['\n'] + next.last());
            assert(out@ =~= joined_lines(next));
        } else {
            out.append(lines[i].as_str());
            assert(next.len() == 1);
            assert(joined_lines(next) == next[0]);
            assert(out@ =~= joined_lines(next));
        }
        i = i + 1;
    }
    out
}

/// The label of the button that shows a long line whole: its size, as
/// [`short_size`] writes it, in "Show more (...)".
pub fn show_more_label(byte_len: usize) -> (r: String)
    ensures
        r@ == "Show more ("@ + spec_short_size(byte_len as nat) + ")"@,
{
    let mut out = String::from_str("Show more (");
    let size = short_size(byte_len);
    out.append(size.as_str());
    out.append(")");
    out
}

} // verus!
