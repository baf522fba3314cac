//! Task implementations that the kernel ships with.

use crate::bootloader_info::PartitionInfo;
use crate::menu::{
    frame_lines, label_as_str, label_of, label_text, lines_new, lines_push, menu_entries,
    menu_get, menu_len, menu_new, menu_push, part_texts, write_label, FrameLines, MenuFeature,
    MenuItem, MenuItems, MenuLabel, MAX_MENU_ITEMS,
};
use crate::ml;
use crate::scheduler::{Task, TaskCommand, TaskContext, TaskPriority};
use crate::stack::DEFAULT_STACK_SIZE;
use vstd::prelude::*;

verus! {

pub use crate::menu::VISIBLE_LINES;

/// Milliseconds between two polls of the buttons.
pub const UI_PERIOD_MS: u32 = 50;

/// Milliseconds between two LED toggles.
pub const LED_PERIOD_MS: u32 = 500;

/// Milliseconds between two inference passes.
pub const ML_PERIOD_MS: u32 = 100;

/// LED heartbeat. Each poll flips the level that the LED is to be driven to
/// and asks to sleep for half a second; the pin itself is driven by whoever
/// owns the hardware, from [`LedTask::level`].
pub struct LedTask {
    state: bool,
}

impl LedTask {
    /// The level the LED is to be driven to: `true` for high.
    pub closed spec fn view(&self) -> bool {
        self.state
    }

    /// A heartbeat whose LED is low.
    pub fn new() -> (task: Self)
        ensures
            !task@,
    {
        LedTask { state: false }
    }

    /// The level the LED is to be driven to: `true` for high.
    pub fn level(&self) -> (level: bool)
        ensures
            level == self@,
    {
        self.state
    }
}

impl Task for LedTask {
    fn name(&self) -> (name: &'static str)
        ensures
            name@ == "led"@,
    {
        "led"
    }

    open spec fn spec_name(&self) -> Option<Seq<char>> {
        Some("led"@)
    }

    fn priority(&self) -> (priority: TaskPriority)
        ensures
            priority == TaskPriority::Normal,
    {
        TaskPriority::default()
    }

    fn stack_size(&self) -> (size: usize)
        ensures
            size == DEFAULT_STACK_SIZE,
    {
        DEFAULT_STACK_SIZE
    }

    fn poll(&mut self, ctx: &mut TaskContext) -> (command: TaskCommand)
        ensures
            final(self)@ == !old(self)@,
            command == TaskCommand::SleepMs(LED_PERIOD_MS),
            *final(ctx).stack == *old(ctx).stack,
    {
        self.state = !self.state;
        TaskCommand::SleepMs(LED_PERIOD_MS)
    }
}

/// Periodic inference task.
pub struct MlTask;

impl MlTask {
    /// The inference task.
    pub fn new() -> (task: Self) {
        MlTask
    }
}

impl Task for MlTask {
    fn name(&self) -> (name: &'static str)
        ensures
            name@ == "ml"@,
    {
        "ml"
    }

    open spec fn spec_name(&self) -> Option<Seq<char>> {
        Some("ml"@)
    }

    fn priority(&self) -> (priority: TaskPriority)
        ensures
            priority == TaskPriority::Normal,
    {
        TaskPriority::default()
    }

    fn stack_size(&self) -> (size: usize)
        ensures
            size == DEFAULT_STACK_SIZE,
    {
        DEFAULT_STACK_SIZE
    }

    fn poll(&mut self, ctx: &mut TaskContext) -> (command: TaskCommand)
        ensures
            command == TaskCommand::SleepMs(ML_PERIOD_MS),
            *final(ctx).stack == *old(ctx).stack,
    {
        ml::run_inference();
        TaskCommand::SleepMs(ML_PERIOD_MS)
    }
}

/// The screens that a menu item can open.
#[derive(Clone, Copy, Debug, PartialEq, Eq, Structural)]
pub enum DetailView {
    About,
}

/// What the display shows: the menu, or a screen opened from it.
#[derive(Clone, Copy, Debug, PartialEq, Eq, Structural)]
pub enum UiMode {
    Menu,
    Detail(DetailView),
}

/// The three buttons as read at one poll: `true` for a button held down.
#[derive(Clone, Copy, Debug, PartialEq, Eq, Structural)]
pub struct Buttons {
    pub up: bool,
    pub down: bool,
    pub select: bool,
}

/// What is to be drawn and logged after a rendering.
pub struct Frame {
    /// The lines to show, top to bottom; `None` when there is nothing to draw.
    pub lines: Option<FrameLines>,
    /// Index and feature of the selected item, when the selection is new
    /// since the last rendering of the menu.
    pub selected: Option<(usize, MenuFeature)>,
}

/// What one poll of the user interface asks of its surroundings.
pub struct UiOutput {
    /// The frame to draw, when the display is out of date.
    pub frame: Option<Frame>,
    /// The feature that was selected just now and has nothing behind it yet.
    pub unimplemented: Option<MenuFeature>,
    /// When the task wants to run next.
    pub command: TaskCommand,
}

/// The state of the user interface, as the contracts see it.
pub struct UiView {
    /// Text and feature of each menu item.
    pub items: Seq<(Seq<char>, MenuFeature)>,
    pub selected_index: usize,
    /// Index of the item on the first visible line.
    pub view_offset: usize,
    pub mode: UiMode,
    pub app_name: Seq<char>,
    pub app_version: Seq<char>,
    /// The selection that was last logged.
    pub last_logged_index: Option<usize>,
    pub up_pressed: bool,
    pub down_pressed: bool,
    pub select_pressed: bool,
    /// The display is out of date.
    pub dirty: bool,
}

/// The menu for an application and its four partitions: text parts and
/// feature of each item, top to bottom.
pub open spec fn menu_parts(
    app_name: Seq<char>,
    app_version: Seq<char>,
    partitions: Seq<(Seq<char>, Seq<char>)>,
) -> Seq<(Seq<Seq<char>>, MenuFeature)> {
    seq![
        (seq!["About TrustG33k OS"@], MenuFeature::About),
        (seq!["App: "@, app_name], MenuFeature::AppInfo),
        (seq!["Version: "@, app_version], MenuFeature::Version),
        (seq![partitions[0].0, ": "@, partitions[0].1], MenuFeature::Partition(0)),
        (seq![partitions[1].0, ": "@, partitions[1].1], MenuFeature::Partition(1)),
        (seq![partitions[2].0, ": "@, partitions[2].1], MenuFeature::Partition(2)),
        (seq![partitions[3].0, ": "@, partitions[3].1], MenuFeature::Partition(3)),
        (seq!["Run ML Inference"@], MenuFeature::RunMl),
        (seq!["Toggle LED"@], MenuFeature::ToggleLed),
        (seq!["Diagnostics"@], MenuFeature::Diagnostics),
        (seq!["Use UP/DOWN/OK"@], MenuFeature::Instructions),
    ]
}

/// The lines of the About screen.
pub open spec fn about_lines(app_name: Seq<char>, app_version: Seq<char>) -> Seq<Seq<char>> {
    seq![
        label_of(seq!["TrustG33k OS"@]),
        label_of(seq!["App: "@, app_name]),
        label_of(seq!["Version: "@, app_version]),
        Seq::<char>::empty(),
        label_of(seq!["> <OK>"@]),
    ]
}

impl UiView {
    /// The selection is an item of the menu, and it is visible.
    pub open spec fn wf(self) -> bool {
        &&& self.items.len() <= MAX_MENU_ITEMS
        &&& self.items.len() > 0 ==> self.selected_index < self.items.len()
        &&& self.view_offset <= self.selected_index < self.view_offset + VISIBLE_LINES
    }

    /// The selection after the up button was read.
    pub open spec fn after_up(self, buttons: Buttons) -> int {
        if buttons.up && !self.up_pressed && self.selected_index > 0 {
            self.selected_index - 1
        } else {
            self.selected_index as int
        }
    }

    /// The selection after both scroll buttons were read, up before down.
    pub open spec fn scrolled(self, buttons: Buttons) -> int {
        if buttons.down && !self.down_pressed && self.after_up(buttons) + 1 < self.items.len() {
            self.after_up(buttons) + 1
        } else {
            self.after_up(buttons)
        }
    }

    /// A scroll button was newly pressed and moved the selection one step.
    pub open spec fn scroll_moves(self, buttons: Buttons) -> bool {
        self.after_up(buttons) != self.selected_index || self.scrolled(buttons) != self.after_up(
            buttons,
        )
    }

    /// The select button was newly pressed.
    pub open spec fn activates(self, buttons: Buttons) -> bool {
        buttons.select && !self.select_pressed
    }

    /// The state after the buttons were read while the menu shows. A newly
    /// pressed scroll button moves the selection one step, within the menu;
    /// the window follows the selection; a newly pressed select button opens
    /// the About screen if that is the selected item.
    pub open spec fn after_menu_input(self, buttons: Buttons) -> UiView {
        if self.items.len() == 0 {
            self
        } else {
            let selected = self.scrolled(buttons);
            let dirty = self.dirty || self.scroll_moves(buttons);
            let offset = if !dirty {
                self.view_offset as int
            } else if selected < self.view_offset {
                selected
            } else if selected >= self.view_offset + VISIBLE_LINES {
                selected + 1 - VISIBLE_LINES
            } else {
                self.view_offset as int
            };
            let opens = self.activates(buttons) && self.items[selected].1 == MenuFeature::About;
            UiView {
                selected_index: selected as usize,
                view_offset: offset as usize,
                up_pressed: buttons.up,
                down_pressed: buttons.down,
                select_pressed: buttons.select,
                dirty: dirty || opens,
                mode: if opens {
                    UiMode::Detail(DetailView::About)
                } else {
                    self.mode
                },
                ..self
            }
        }
    }

    /// The state after the buttons were read while a screen shows: a newly
    /// pressed select button goes back to the menu.
    pub open spec fn after_detail_input(self, buttons: Buttons) -> UiView {
        if self.activates(buttons) {
            UiView {
                select_pressed: true,
                mode: UiMode::Menu,
                last_logged_index: None,
                dirty: true,
                ..self
            }
        } else {
            UiView { select_pressed: buttons.select, ..self }
        }
    }

    /// The state after the buttons were read.
    pub open spec fn after_input(self, buttons: Buttons) -> UiView {
        match self.mode {
            UiMode::Menu => self.after_menu_input(buttons),
            UiMode::Detail(_) => self.after_detail_input(buttons),
        }
    }

    /// The feature that reading the buttons selected and that has nothing
    /// behind it: any feature but About, selected from the menu.
    pub open spec fn unimplemented_feature(self, buttons: Buttons) -> Option<MenuFeature> {
        if self.mode == UiMode::Menu && self.items.len() > 0 && self.activates(buttons)
            && self.items[self.scrolled(buttons)].1 != MenuFeature::About {
            Some(self.items[self.scrolled(buttons)].1)
        } else {
            None
        }
    }

    /// Number of menu lines in the window.
    pub open spec fn window_len(self) -> int {
        if self.view_offset + VISIBLE_LINES <= self.items.len() {
            VISIBLE_LINES as int
        } else {
            self.items.len() - self.view_offset
        }
    }

    /// The menu line for the item at `index`: the item's text behind a
    /// marker, which points at the selected item.
    pub open spec fn menu_line(self, index: int) -> Seq<char> {
        if index == self.selected_index {
            label_of(seq!["> "@, self.items[index].0])
        } else {
            label_of(seq!["  "@, self.items[index].0])
        }
    }

    /// The lines that a rendering shows; `None` for an empty menu, which
    /// draws nothing.
    pub open spec fn lines(self) -> Option<Seq<Seq<char>>> {
        match self.mode {
            UiMode::Menu => if self.items.len() == 0 {
                None
            } else {
                Some(Seq::new(self.window_len() as nat, |k: int| self.menu_line(self.view_offset + k)))
            },
            UiMode::Detail(DetailView::About) => Some(about_lines(self.app_name, self.app_version)),
        }
    }

    /// The selection that a rendering logs: the selected item, when the menu
    /// shows and the selection was not logged yet.
    pub open spec fn newly_selected(self) -> Option<(usize, MenuFeature)> {
        if self.mode == UiMode::Menu && self.items.len() > 0 && self.last_logged_index != Some(
            self.selected_index,
        ) {
            Some((self.selected_index, self.items[self.selected_index as int].1))
        } else {
            None
        }
    }

    /// The state after a rendering: a rendering of the menu remembers the
    /// selection it logged.
    pub open spec fn after_render(self) -> UiView {
        if self.mode == UiMode::Menu && self.items.len() > 0 {
            UiView { last_logged_index: Some(self.selected_index), ..self }
        } else {
            self
        }
    }

    /// The state after one poll: the buttons are read, and a display that is
    /// out of date is rendered.
    pub open spec fn after_step(self, buttons: Buttons) -> UiView {
        let read = self.after_input(buttons);
        if read.dirty {
            UiView { dirty: false, ..read.after_render() }
        } else {
            read
        }
    }
}

/// The texts of the lines.
pub open spec fn line_texts(lines: Seq<MenuLabel>) -> Seq<Seq<char>> {
    lines.map_values(|line: MenuLabel| label_text(line))
}

/// Name and size of each partition.
pub open spec fn partition_texts(partitions: Seq<PartitionInfo>) -> Seq<(Seq<char>, Seq<char>)> {
    partitions.map_values(|partition: PartitionInfo| (partition.name@, partition.size@))
}

/// The items of a menu built from text parts: each item's text is what a
/// label holds after its parts were written to it.
pub open spec fn menu_texts(parts: Seq<(Seq<Seq<char>>, MenuFeature)>) -> Seq<
    (Seq<char>, MenuFeature),
> {
    parts.map_values(|entry: (Seq<Seq<char>>, MenuFeature)| (label_of(entry.0), entry.1))
}

/// Appends to the menu an item whose label the parts are written to.
fn push_item(menu: &mut MenuItems, parts: &[&str], feature: MenuFeature)
    requires
        menu_entries(*old(menu)).len() < MAX_MENU_ITEMS,
    ensures
        menu_entries(*final(menu)).len() == menu_entries(*old(menu)).len() + 1,
        menu_entries(*final(menu)).drop_last() == menu_entries(*old(menu)),
        menu_entries(*final(menu)).last()@ == (
            label_of(part_texts(parts@)),
            feature,
        ),
{
    let label = write_label(parts);
    let _ = menu_push(menu, MenuItem { label, feature });
    proof {
        assert(menu_entries(*menu).drop_last() =~= menu_entries(*old(menu)));
    }
}

/// User interface task: a scrolling menu with a selection, driven by three
/// buttons. It reads no pin and draws nothing itself: each poll is handed
/// the buttons as read and says what to draw and log.
pub struct UiTask {
    menu_items: MenuItems,
    selected_index: usize,
    view_offset: usize,
    mode: UiMode,
    app_name: &'static str,
    app_version: &'static str,
    last_logged_index: Option<usize>,
    up_pressed: bool,
    down_pressed: bool,
    select_pressed: bool,
    dirty: bool,
}

impl UiTask {
    /// The state of the user interface.
    pub closed spec fn view(&self) -> UiView {
        UiView {
            items: menu_entries(self.menu_items).map_values(|item: MenuItem| item@),
            selected_index: self.selected_index,
            view_offset: self.view_offset,
            mode: self.mode,
            app_name: self.app_name@,
            app_version: self.app_version@,
            last_logged_index: self.last_logged_index,
            up_pressed: self.up_pressed,
            down_pressed: self.down_pressed,
            select_pressed: self.select_pressed,
            dirty: self.dirty,
        }
    }

    /// The selection is always an item of the menu, and it is visible.
    #[verifier::type_invariant]
    pub closed spec fn wf(self) -> bool {
        self@.wf()
    }

    /// The user interface of an application with four partitions: the menu
    /// shows, its first item is selected, and the display is out of date.
    pub fn new(
        app_name: &'static str,
        app_version: &'static str,
        partitions: [PartitionInfo; 4],
    ) -> (task: Self)
        ensures
            task@ == (UiView {
                items: menu_texts(menu_parts(app_name@, app_version@, partition_texts(partitions@))),
                selected_index: 0,
                view_offset: 0,
                mode: UiMode::Menu,
                app_name: app_name@,
                app_version: app_version@,
                last_logged_index: None,
                up_pressed: false,
                down_pressed: false,
                select_pressed: false,
                dirty: true,
            }),
            task@.wf(),
    {
        let ghost wanted = menu_parts(app_name@, app_version@, partition_texts(partitions@));
        let mut menu = menu_new();
        let about = ["About TrustG33k OS"];
        push_item(&mut menu, &about, MenuFeature::About);
        let app = ["App: ", app_name];
        push_item(&mut menu, &app, MenuFeature::AppInfo);
        let version = ["Version: ", app_version];
        push_item(&mut menu, &version, MenuFeature::Version);
        proof {
            assert(part_texts(about@) =~= wanted[0].0);
            assert(part_texts(app@) =~= wanted[1].0);
            assert(part_texts(version@) =~= wanted[2].0);
        }
        let mut index: usize = 0;
        while index < 4
            invariant
                index <= 4,
                wanted == menu_parts(app_name@, app_version@, partition_texts(partitions@)),
                menu_entries(menu).len() == 3 + index,
                forall|k: int|
                    0 <= k < 3 + index ==> (#[trigger] menu_entries(menu)[k])@ == (
                        label_of(wanted[k].0),
                        wanted[k].1,
                    ),
            decreases 4 - index,
        {
            let ghost before = menu_entries(menu);
            let parts = [partitions[index].name, ": ", partitions[index].size];
            push_item(&mut menu, &parts, MenuFeature::Partition(index));
            proof {
                assert(part_texts(parts@) =~= wanted[3 + index].0);
                assert(menu_entries(menu).drop_last() == before);
                assert forall|k: int| 0 <= k < 3 + index + 1 implies (#[trigger] menu_entries(
                    menu,
                )[k])@ == (label_of(wanted[k].0), wanted[k].1) by {
                    if k < 3 + index {
                        assert(menu_entries(menu)[k] == before[k]);
                    }
                }
            }
            index += 1;
        }
        let ghost before = menu_entries(menu);
        let run_ml = ["Run ML Inference"];
        push_item(&mut menu, &run_ml, MenuFeature::RunMl);
        let ghost with_ml = menu_entries(menu);
        let toggle = ["Toggle LED"];
        push_item(&mut menu, &toggle, MenuFeature::ToggleLed);
        let ghost with_toggle = menu_entries(menu);
        let diagnostics = ["Diagnostics"];
        push_item(&mut menu, &diagnostics, MenuFeature::Diagnostics);
        let ghost with_diagnostics = menu_entries(menu);
        let instructions = ["Use UP/DOWN/OK"];
        push_item(&mut menu, &instructions, MenuFeature::Instructions);
        proof {
            assert(part_texts(run_ml@) =~= wanted[7].0);
            assert(part_texts(toggle@) =~= wanted[8].0);
            assert(part_texts(diagnostics@) =~= wanted[9].0);
            assert(part_texts(instructions@) =~= wanted[10].0);
            let entries = menu_entries(menu);
            assert(entries.drop_last() == with_diagnostics);
            assert(with_diagnostics.drop_last() == with_toggle);
            assert(with_toggle.drop_last() == with_ml);
            assert(with_ml.drop_last() == before);
            assert forall|k: int| 0 <= k < 11 implies (#[trigger] entries[k])@ == (
                label_of(wanted[k].0),
                wanted[k].1,
            ) by {
                if k < 10 {
                    assert(entries[k] == with_diagnostics[k]);
                }
                if k < 9 {
                    assert(with_diagnostics[k] == with_toggle[k]);
                }
                if k < 8 {
                    assert(with_toggle[k] == with_ml[k]);
                }
                if k < 7 {
                    assert(with_ml[k] == before[k]);
                }
            }
            assert(entries.map_values(|item: MenuItem| item@) =~= menu_texts(wanted));
        }
        UiTask {
            menu_items: menu,
            selected_index: 0,
            view_offset: 0,
            mode: UiMode::Menu,
            app_name,
            app_version,
            last_logged_index: None,
            up_pressed: false,
            down_pressed: false,
            select_pressed: false,
            dirty: true,
        }
    }

    /// Number of items in the menu.
    pub fn total_items(&self) -> (total: usize)
        ensures
            total == self@.items.len(),
            total <= MAX_MENU_ITEMS,
    {
        menu_len(&self.menu_items)
    }

    /// Text of the menu item at `index`; `None` past the end of the menu.
    pub fn item_label(&self, index: usize) -> (label: Option<&str>)
        ensures
            index < self@.items.len() ==> label is Some && label->0@ == self@.items[index as int].0,
            index >= self@.items.len() ==> label is None,
    {
        match menu_get(&self.menu_items, index) {
            Some(item) => Some(label_as_str(&item.label)),
            None => None,
        }
    }

    /// Name of the task, for diagnostics.
    pub fn name(&self) -> (name: &'static str)
        ensures
            name@ == "ui"@,
    {
        "ui"
    }

    /// Priority of the task: the user interface runs before everything else.
    pub fn priority(&self) -> (priority: TaskPriority)
        ensures
            priority == TaskPriority::High,
    {
        TaskPriority::High
    }

    /// Opens what the selected item stands for, if there is anything behind
    /// it: the About screen. Any other feature is handed back, to be logged
    /// as not implemented.
    fn activate_selection(&mut self) -> (unimplemented: Option<MenuFeature>)
        requires
            old(self)@.items.len() > 0,
        ensures
            old(self)@.items[old(self)@.selected_index as int].1 == MenuFeature::About ==> final(self)@ == (UiView { mode: UiMode::Detail(DetailView::About), dirty: true, ..old(self)@ })
                && unimplemented is None,
            old(self)@.items[old(self)@.selected_index as int].1 != MenuFeature::About ==> final(self)@ == old(self)@ && unimplemented == Some(
                old(self)@.items[old(self)@.selected_index as int].1,
            ),
    {
        proof {
            use_type_invariant(&*self);
        }
        match menu_get(&self.menu_items, self.selected_index) {
            Some(item) => {
                match item.feature {
                    MenuFeature::About => {
                        self.mode = UiMode::Detail(DetailView::About);
                        self.dirty = true;
                        None
                    },
                    feature => Some(feature),
                }
            },
            None => None,
        }
    }

    /// Reads the buttons while the menu shows.
    fn handle_menu_input(&mut self, buttons: Buttons) -> (unimplemented: Option<MenuFeature>)
        requires
            old(self)@.mode == UiMode::Menu,
        ensures
            final(self)@ == old(self)@.after_menu_input(buttons),
            unimplemented == old(self)@.unimplemented_feature(buttons),
    {
        proof {
            use_type_invariant(&*self);
        }
        let total = self.total_items();
        if total == 0 {
            return None;
        }
        let mut selected = self.selected_index;
        let mut dirty = self.dirty;
        if buttons.up && !self.up_pressed && selected > 0 {
            selected -= 1;
            dirty = true;
        }
        if buttons.down && !self.down_pressed && selected + 1 < total {
            selected += 1;
            dirty = true;
        }
        let mut offset = self.view_offset;
        if dirty {
            if selected < offset {
                offset = selected;
            } else if selected >= offset + VISIBLE_LINES {
                offset = selected + 1 - VISIBLE_LINES;
            }
        }
        let activates = buttons.select && !self.select_pressed;
        self.view_offset = offset;
        self.selected_index = selected;
        self.up_pressed = buttons.up;
        self.down_pressed = buttons.down;
        self.select_pressed = buttons.select;
        self.dirty = dirty;
        if activates {
            self.activate_selection()
        } else {
            None
        }
    }

    /// Reads the buttons while a screen shows.
    fn handle_detail_input(&mut self, buttons: Buttons)
        ensures
            final(self)@ == old(self)@.after_detail_input(buttons),
    {
        proof {
            use_type_invariant(&*self);
        }
        if buttons.select {
            if !self.select_pressed {
                self.select_pressed = true;
                self.mode = UiMode::Menu;
                self.last_logged_index = None;
                self.dirty = true;
            }
        } else {
            self.select_pressed = false;
        }
    }

    /// Reads the buttons: scrolls and selects in the menu, or leaves a
    /// screen. Returns the feature that was selected just now and has
    /// nothing behind it yet, if any.
    pub fn handle_input(&mut self, buttons: Buttons) -> (unimplemented: Option<MenuFeature>)
        ensures
            final(self)@ == old(self)@.after_input(buttons),
            unimplemented == old(self)@.unimplemented_feature(buttons),
            final(self)@.wf(),
    {
        let unimplemented = match self.mode {
            UiMode::Menu => self.handle_menu_input(buttons),
            UiMode::Detail(_) => {
                self.handle_detail_input(buttons);
                None
            },
        };
        proof {
            use_type_invariant(&*self);
        }
        unimplemented
    }

    /// Lays out the visible part of the menu and notes a new selection.
    fn render_menu(&mut self) -> (frame: Frame)
        requires
            old(self)@.mode == UiMode::Menu,
        ensures
            final(self)@ == old(self)@.after_render(),
            frame.selected == old(self)@.newly_selected(),
            frame.lines is Some == old(self)@.lines() is Some,
            frame.lines matches Some(lines) ==> Some(line_texts(frame_lines(lines))) == old(self)@.lines(),
    {
        proof {
            use_type_invariant(&*self);
        }
        let total = self.total_items();
        if total == 0 {
            return Frame { lines: None, selected: None };
        }
        let start = self.view_offset;
        let end = if start + VISIBLE_LINES <= total {
            start + VISIBLE_LINES
        } else {
            total
        };
        let mut lines = lines_new();
        let mut index = start;
        while index < end
            invariant
                start <= index <= end,
                end <= total,
                total == self@.items.len(),
                start == self@.view_offset,
                end - start <= VISIBLE_LINES,
                frame_lines(lines).len() == index - start,
                forall|k: int|
                    0 <= k < index - start ==> label_text(#[trigger] frame_lines(lines)[k])
                        == self@.menu_line(
                        start + k,
                    ),
            decreases end - index,
        {
            let line = match menu_get(&self.menu_items, index) {
                Some(item) => {
                    let parts = [
                        if index == self.selected_index {
                            "> "
                        } else {
                            "  "
                        },
                        label_as_str(&item.label),
                    ];
                    let line = write_label(&parts);
                    proof {
                        if index == self.selected_index {
                            assert(part_texts(parts@) =~= seq![
                                "> "@,
                                self@.items[index as int].0,
                            ]);
                        } else {
                            assert(part_texts(parts@) =~= seq![
                                "  "@,
                                self@.items[index as int].0,
                            ]);
                        }
                    }
                    line
                },
                None => write_label(&[]),
            };
            let _ = lines_push(&mut lines, line);
            index += 1;
        }
        proof {
            assert(line_texts(frame_lines(lines)) =~= old(self)@.lines()->0);
        }
        let selected = if self.last_logged_index != Some(self.selected_index) {
            match menu_get(&self.menu_items, self.selected_index) {
                Some(item) => Some((self.selected_index, item.feature)),
                None => None,
            }
        } else {
            None
        };
        self.last_logged_index = Some(self.selected_index);
        Frame { lines: Some(lines), selected }
    }

    /// Lays out a screen.
    fn render_detail(&self, view: DetailView) -> (frame: Frame)
        ensures
            frame.selected is None,
            frame.lines matches Some(lines) && line_texts(frame_lines(lines)) == about_lines(
                self@.app_name,
                self@.app_version,
            ),
    {
        let mut lines = lines_new();
        match view {
            DetailView::About => {
                let title = ["TrustG33k OS"];
                let _ = lines_push(&mut lines, write_label(&title));
                let app = ["App: ", self.app_name];
                let _ = lines_push(&mut lines, write_label(&app));
                let version = ["Version: ", self.app_version];
                let _ = lines_push(&mut lines, write_label(&version));
                let blank: [&str; 0] = [];
                let _ = lines_push(&mut lines, write_label(&blank));
                let back = ["> <OK>"];
                let _ = lines_push(&mut lines, write_label(&back));
                proof {
                    assert(part_texts(title@) =~= seq!["TrustG33k OS"@]);
                    assert(part_texts(app@) =~= seq!["App: "@, self@.app_name]);
                    assert(part_texts(version@) =~= seq![
                        "Version: "@,
                        self@.app_version,
                    ]);
                    assert(part_texts(blank@) =~= Seq::<Seq<char>>::empty());
                    assert(part_texts(back@) =~= seq!["> <OK>"@]);
                    assert(line_texts(frame_lines(lines)) =~= about_lines(
                        self@.app_name,
                        self@.app_version,
                    ));
                }
            },
        }
        Frame { lines: Some(lines), selected: None }
    }

    /// Lays out what the display is to show now: the visible part of the
    /// menu, with a marker at the selected item, or the screen that is open.
    /// A rendering of the menu also reports a selection that is new.
    pub fn render(&mut self) -> (frame: Frame)
        ensures
            final(self)@ == old(self)@.after_render(),
            frame.selected == old(self)@.newly_selected(),
            frame.lines is Some == old(self)@.lines() is Some,
            frame.lines matches Some(lines) ==> Some(line_texts(frame_lines(lines))) == old(self)@.lines(),
    {
        match self.mode {
            UiMode::Menu => self.render_menu(),
            UiMode::Detail(view) => self.render_detail(view),
        }
    }

    /// One poll of the user interface with the buttons as read: handles the
    /// input, renders if the display is out of date, and asks to be polled
    /// again in 50 ms.
    pub fn step(&mut self, buttons: Buttons) -> (output: UiOutput)
        ensures
            final(self)@ == old(self)@.after_step(buttons),
            output.command == TaskCommand::SleepMs(UI_PERIOD_MS),
            output.unimplemented == old(self)@.unimplemented_feature(buttons),
            output.frame is Some == old(self)@.after_input(buttons).dirty,
            output.frame matches Some(frame) ==> {
                &&& frame.selected == old(self)@.after_input(buttons).newly_selected()
                &&& frame.lines is Some == old(self)@.after_input(buttons).lines() is Some
                &&& frame.lines matches Some(lines) ==> Some(line_texts(frame_lines(lines))) == old(self)@.after_input(buttons).lines()
            },
    {
        let unimplemented = self.handle_input(buttons);
        let frame = if self.dirty {
            let frame = self.render();
            self.dirty = false;
            Some(frame)
        } else {
            None
        };
        UiOutput { frame, unimplemented, command: TaskCommand::SleepMs(UI_PERIOD_MS) }
    }
}

} // verus!
