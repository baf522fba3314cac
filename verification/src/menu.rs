//! Menu labels and the menu table.
//!
//! A label is a `heapless::String` of at most [`LABEL_CAPACITY`] bytes, the
//! menu is a `heapless::Vec` of at most [`MAX_MENU_ITEMS`] items, and a frame
//! is a `heapless::Vec` of at most [`VISIBLE_LINES`] labels. [`label_text`],
//! [`menu_entries`] and [`frame_lines`] are what each of them holds, and
//! each function here says what one operation does to that content.
//! [`write_label`] writes a label from parts, as formatted output does.

use vstd::prelude::*;
use vstd::utf8::encode_utf8;

verus! {

/// Bytes that a label can hold.
pub const LABEL_CAPACITY: usize = 32;

/// Items that a menu can hold.
pub const MAX_MENU_ITEMS: usize = 16;

/// Number of lines that the display shows at once.
pub const VISIBLE_LINES: usize = 5;

/// `heapless::String`, a string with a fixed capacity of `N` bytes.
#[verifier::external_type_specification]
#[verifier::external_body]
pub struct ExBoundedString<const N: usize>(heapless::String<N>);

/// One line of text on the display.
pub type MenuLabel = heapless::String<LABEL_CAPACITY>;

/// What selecting a menu item stands for.
#[derive(Clone, Copy, Debug, PartialEq, Eq, Structural)]
pub enum MenuFeature {
    About,
    AppInfo,
    Version,
    Partition(usize),
    Diagnostics,
    ToggleLed,
    RunMl,
    Instructions,
}

/// One menu item: the text shown and the feature behind it.
pub struct MenuItem {
    pub label: MenuLabel,
    pub feature: MenuFeature,
}

/// The menu table.
pub type MenuItems = heapless::Vec<MenuItem, MAX_MENU_ITEMS>;

/// The lines of one frame, top to bottom.
pub type FrameLines = heapless::Vec<MenuLabel, VISIBLE_LINES>;

/// The text that the label holds.
pub uninterp spec fn label_text(label: heapless::String<LABEL_CAPACITY>) -> Seq<char>;

/// The items that the menu holds, in order.
pub uninterp spec fn menu_entries(menu: heapless::Vec<MenuItem, MAX_MENU_ITEMS>) -> Seq<MenuItem>;

/// The lines that the frame holds, top to bottom.
pub uninterp spec fn frame_lines(lines: heapless::Vec<MenuLabel, VISIBLE_LINES>) -> Seq<MenuLabel>;

/// Number of bytes that `text` takes in a label.
pub open spec fn byte_len(text: Seq<char>) -> nat {
    encode_utf8(text).len()
}

/// `text` after the parts were written to it one after the other, as
/// formatted output does: a part that does not fit whole in the remaining
/// capacity ends the writing, and no later part is written.
pub open spec fn after_parts(text: Seq<char>, parts: Seq<Seq<char>>) -> Seq<char>
    decreases parts.len(),
{
    if parts.len() == 0 {
        text
    } else if byte_len(text) + byte_len(parts[0]) <= LABEL_CAPACITY {
        after_parts(text + parts[0], parts.drop_first())
    } else {
        text
    }
}

/// The text of a label that the parts were written to, starting empty.
pub open spec fn label_of(parts: Seq<Seq<char>>) -> Seq<char> {
    after_parts(Seq::<char>::empty(), parts)
}

impl MenuItem {
    /// The text and the feature of the item.
    pub open spec fn view(&self) -> (Seq<char>, MenuFeature) {
        (label_text(self.label), self.feature)
    }
}

/// `heapless::String::new`: an empty label.
#[verifier::external_body]
pub(crate) fn label_new() -> (label: MenuLabel)
    ensures
        label_text(label) == Seq::<char>::empty(),
{
    heapless::String::new()
}

/// `heapless::String::push_str`: appends `text` if its bytes fit in what is
/// left of the capacity, and says whether it did; a text that does not fit
/// leaves the label as it is.
#[verifier::external_body]
pub(crate) fn label_push_str(label: &mut MenuLabel, text: &str) -> (pushed: bool)
    ensures
        pushed == (byte_len(label_text(*old(label))) + byte_len(text@) <= LABEL_CAPACITY),
        pushed ==> label_text(*final(label)) == label_text(*old(label)) + text@,
        !pushed ==> label_text(*final(label)) == label_text(*old(label)),
{
    label.push_str(text).is_ok()
}

/// `heapless::String::as_str`: the text of the label.
#[verifier::external_body]
pub(crate) fn label_as_str(label: &MenuLabel) -> (text: &str)
    ensures
        text@ == label_text(*label),
{
    label.as_str()
}

/// `heapless::Vec::new`: an empty menu.
#[verifier::external_body]
pub(crate) fn menu_new() -> (menu: MenuItems)
    ensures
        menu_entries(menu) == Seq::<MenuItem>::empty(),
{
    heapless::Vec::new()
}

/// `heapless::Vec::push`: appends `item` if the menu holds fewer than
/// `MAX_MENU_ITEMS` items, and says whether it did; a full menu stays as it
/// is and the item is dropped.
#[verifier::external_body]
pub(crate) fn menu_push(menu: &mut MenuItems, item: MenuItem) -> (pushed: bool)
    ensures
        pushed == (menu_entries(*old(menu)).len() < MAX_MENU_ITEMS),
        pushed ==> menu_entries(*final(menu)) == menu_entries(*old(menu)).push(item),
        !pushed ==> menu_entries(*final(menu)) == menu_entries(*old(menu)),
{
    menu.push(item).is_ok()
}

/// Length of the slice that `heapless::Vec` dereferences to: the number of
/// items in the menu, never more than its capacity.
#[verifier::external_body]
pub(crate) fn menu_len(menu: &MenuItems) -> (count: usize)
    ensures
        count == menu_entries(*menu).len(),
        count <= MAX_MENU_ITEMS,
{
    menu.len()
}

/// `get` on the slice that `heapless::Vec` dereferences to: the item at
/// `index`, or `None` past the end.
#[verifier::external_body]
pub(crate) fn menu_get(menu: &MenuItems, index: usize) -> (item: Option<&MenuItem>)
    ensures
        index < menu_entries(*menu).len() ==> item == Some(&menu_entries(*menu)[index as int]),
        index >= menu_entries(*menu).len() ==> item is None,
{
    menu.get(index)
}

/// `heapless::Vec::new`: a frame without lines.
#[verifier::external_body]
pub(crate) fn lines_new() -> (lines: FrameLines)
    ensures
        frame_lines(lines) == Seq::<MenuLabel>::empty(),
{
    heapless::Vec::new()
}

/// `heapless::Vec::push`: appends `line` if the frame holds fewer than
/// `VISIBLE_LINES` lines, and says whether it did; a full frame stays as it
/// is and the line is dropped.
#[verifier::external_body]
pub(crate) fn lines_push(lines: &mut FrameLines, line: MenuLabel) -> (pushed: bool)
    ensures
        pushed == (frame_lines(*old(lines)).len() < VISIBLE_LINES),
        pushed ==> frame_lines(*final(lines)) == frame_lines(*old(lines)).push(line),
        !pushed ==> frame_lines(*final(lines)) == frame_lines(*old(lines)),
{
    lines.push(line).is_ok()
}

/// The views of the parts.
pub open spec fn part_texts(parts: Seq<&str>) -> Seq<Seq<char>> {
    parts.map_values(|part: &str| part@)
}

/// Writes the parts to a new label one after the other, as formatted output
/// does: the first part that does not fit whole ends the writing.
pub fn write_label(parts: &[&str]) -> (label: MenuLabel)
    ensures
        label_text(label) == label_of(part_texts(parts@)),
{
    let mut label = label_new();
    let mut index: usize = 0;
    let ghost texts = part_texts(parts@);
    proof {
        assert(texts.subrange(0, texts.len() as int) =~= texts);
    }
    while index < parts.len()
        invariant
            index <= parts.len(),
            texts == part_texts(parts@),
            texts.len() == parts@.len(),
            after_parts(label_text(label), texts.subrange(index as int, texts.len() as int))
                == label_of(texts),
        decreases parts.len() - index,
    {
        let ghost rest = texts.subrange(index as int, texts.len() as int);
        proof {
            assert(rest[0] == parts@[index as int]@);
            assert(rest.drop_first() =~= texts.subrange(index + 1, texts.len() as int));
        }
        if !label_push_str(&mut label, parts[index]) {
            return label;
        }
        index += 1;
    }
    proof {
        assert(texts.subrange(index as int, texts.len() as int).len() == 0);
    }
    label
}

} // verus!
