//! The scrolling boot screen: a fixed heading, one line per partition, and
//! a fixed footer, of which a window of a few lines is visible.

use crate::menu::{label_as_str, label_text, MenuLabel};
use crate::task::VISIBLE_LINES;
use vstd::prelude::*;

verus! {

/// The texts of all lines of the screen, top to bottom.
pub open spec fn screen_lines(
    prefix: Seq<&str>,
    partitions: Seq<MenuLabel>,
    suffix: Seq<&str>,
) -> Seq<Seq<char>> {
    prefix.map_values(|line: &str| line@) + partitions.map_values(
        |line: MenuLabel| label_text(line),
    ) + suffix.map_values(|line: &str| line@)
}

/// The texts of the lines in the window that starts at line `start`, on a
/// screen that is taken to have `total_lines` lines: at most
/// `VISIBLE_LINES` lines, and none past the end of `all`.
pub open spec fn visible_lines(all: Seq<Seq<char>>, start: usize, total_lines: usize) -> Seq<
    Seq<char>,
> {
    if total_lines == 0 || start >= total_lines {
        Seq::empty()
    } else {
        let end = if start + VISIBLE_LINES <= total_lines {
            start + VISIBLE_LINES
        } else {
            total_lines as int
        };
        let stop = if end <= all.len() {
            end
        } else {
            all.len() as int
        };
        if start < stop {
            all.subrange(start as int, stop)
        } else {
            Seq::empty()
        }
    }
}

/// The texts of the lines.
pub open spec fn texts_of(lines: Seq<&str>) -> Seq<Seq<char>> {
    lines.map_values(|line: &str| line@)
}

/// The line at `index` of the screen: heading first, then the partitions,
/// then the footer; `None` past the last line.
pub fn line_at<'a>(
    index: usize,
    prefix: &'a [&'a str],
    partitions: &'a [MenuLabel],
    suffix: &'a [&'a str],
) -> (line: Option<&'a str>)
    ensures
        index < screen_lines(prefix@, partitions@, suffix@).len() ==> line is Some && line->0@
            == screen_lines(prefix@, partitions@, suffix@)[index as int],
        index >= screen_lines(prefix@, partitions@, suffix@).len() ==> line is None,
{
    if index < prefix.len() {
        Some(prefix[index])
    } else if index - prefix.len() < partitions.len() {
        Some(label_as_str(&partitions[index - prefix.len()]))
    } else {
        let suffix_index = index - prefix.len() - partitions.len();
        if suffix_index < suffix.len() {
            Some(suffix[suffix_index])
        } else {
            None
        }
    }
}

/// Refills `buffer` with the lines of the window that starts at line
/// `start`, on a screen that is taken to have `total_lines` lines.
pub fn fill_visible_lines<'a>(
    buffer: &mut Vec<&'a str>,
    prefix: &'a [&'a str],
    partitions: &'a [MenuLabel],
    suffix: &'a [&'a str],
    start: usize,
    total_lines: usize,
)
    ensures
        texts_of(final(buffer)@) == visible_lines(
            screen_lines(prefix@, partitions@, suffix@),
            start,
            total_lines,
        ),
{
    buffer.clear();
    if total_lines == 0 || start >= total_lines {
        return ;
    }
    let ghost all = screen_lines(prefix@, partitions@, suffix@);
    let end = if total_lines - start >= VISIBLE_LINES {
        start + VISIBLE_LINES
    } else {
        total_lines
    };
    let mut index = start;
    while index < end
        invariant
            start <= index <= end,
            all == screen_lines(prefix@, partitions@, suffix@),
            index <= all.len() ==> texts_of(buffer@) =~= all.subrange(start as int, index as int),
            index > all.len() && start < all.len() ==> texts_of(buffer@) =~= all.subrange(
                start as int,
                all.len() as int,
            ),
            start >= all.len() ==> buffer@.len() == 0,
        decreases end - index,
    {
        match line_at(index, prefix, partitions, suffix) {
            Some(line) => {
                buffer.push(line);
            },
            None => {},
        }
        index += 1;
    }
    proof {
        assert(texts_of(buffer@) =~= visible_lines(all, start, total_lines));
    }
}

/// Scroll position of the boot screen, with the state of the two scroll
/// buttons at the last poll.
#[derive(Clone, Copy, Debug, PartialEq, Eq, Structural)]
pub struct Scroller {
    /// Index of the first visible line.
    pub offset: usize,
    pub up_pressed: bool,
    pub down_pressed: bool,
}

impl Scroller {
    /// The position after the up button was read.
    pub open spec fn after_up(self, up: bool) -> int {
        if up && !self.up_pressed && self.offset > 0 {
            self.offset - 1
        } else {
            self.offset as int
        }
    }

    /// The scroller after both buttons were read, up before down, on a
    /// screen of `total_lines` lines: a newly pressed button moves the
    /// window one line, as long as it stays on the screen.
    pub open spec fn after_step(self, up: bool, down: bool, total_lines: usize) -> Scroller {
        Scroller {
            offset: if down && !self.down_pressed && self.after_up(up) + VISIBLE_LINES
                < total_lines {
                (self.after_up(up) + 1) as usize
            } else {
                self.after_up(up) as usize
            },
            up_pressed: up,
            down_pressed: down,
        }
    }

    /// Reading the buttons moves the window.
    pub open spec fn moves(self, up: bool, down: bool, total_lines: usize) -> bool {
        ||| up && !self.up_pressed && self.offset > 0
        ||| down && !self.down_pressed && self.after_up(up) + VISIBLE_LINES < total_lines
    }

    /// A scroller at the top of the screen, with no button held.
    pub fn new() -> (scroller: Self)
        ensures
            scroller == (Scroller { offset: 0, up_pressed: false, down_pressed: false }),
    {
        Scroller { offset: 0, up_pressed: false, down_pressed: false }
    }

    /// Reads the two scroll buttons, `true` for a button held down, and says
    /// whether the window moved, so that the display is out of date.
    pub fn step(&mut self, up: bool, down: bool, total_lines: usize) -> (updated: bool)
        ensures
            *final(self) == old(self).after_step(up, down, total_lines),
            updated == old(self).moves(up, down, total_lines),
    {
        let mut updated = false;
        if up {
            if !self.up_pressed {
                if self.offset > 0 {
                    self.offset -= 1;
                    updated = true;
                }
                self.up_pressed = true;
            }
        } else {
            self.up_pressed = false;
        }
        if down {
            if !self.down_pressed {
                if total_lines >= VISIBLE_LINES && self.offset < total_lines - VISIBLE_LINES {
                    self.offset += 1;
                    updated = true;
                }
                self.down_pressed = true;
            }
        } else {
            self.down_pressed = false;
        }
        updated
    }
}

} // verus!
