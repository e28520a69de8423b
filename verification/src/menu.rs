//! The menu engine: a cursor over an ordered list of choices, the meaning of
//! each key, the text of each frame, and the protocol that pairs every entry
//! into raw terminal mode with its release.

use crate::text::{decimal, push_decimal, views};
use vstd::arithmetic::div_mod::{lemma_mod_add_multiples_vanish, lemma_mod_self_0, lemma_small_mod};
use vstd::prelude::*;
use vstd::string::*;

verus! {

/// The keys that the menu tells apart.
#[derive(Clone, Copy, Debug, PartialEq, Eq)]
pub enum Key {
    Up,
    Down,
    Enter,
    Esc,
    Char(char),
    /// Any other key.
    Other,
}

/// One event read from the terminal.
#[derive(Clone, Copy, Debug, PartialEq, Eq)]
pub enum TermEvent {
    /// A key event: the key, whether Control was held, and whether the event
    /// is a press (as opposed to a repeat or a release).
    Key { code: Key, control: bool, press: bool },
    /// Anything that is not a key event (mouse, resize, focus, paste).
    Other,
}

/// What a terminal event asks of the menu.
#[derive(Clone, Copy, Debug, PartialEq, Eq)]
pub enum Command {
    /// Control-C: cancel.
    Interrupt,
    /// Move the cursor up by one, wrapping.
    Up,
    /// Move the cursor down by one, wrapping.
    Down,
    /// Accept the current item.
    Accept,
    /// `q`, `Q` or Esc: cancel.
    Cancel,
    /// A digit `1` to `9`: select and accept the item with this index,
    /// which is the digit less one, if there is such an item.
    Jump(usize),
    /// Nothing.
    Ignore,
}

/// The index that a digit key stands for.
pub open spec fn digit_index(c: char) -> nat
    recommends
        '1' <= c <= '9',
{
    (c as u32 - '1' as u32) as nat
}

/// The command that a key press gives, Control held or not.
pub open spec fn key_command(code: Key, control: bool) -> Command {
    match code {
        Key::Char(c) => if c == 'c' && control {
            Command::Interrupt
        } else if c == 'k' {
            Command::Up
        } else if c == 'j' {
            Command::Down
        } else if c == 'q' || c == 'Q' {
            Command::Cancel
        } else if '1' <= c <= '9' {
            Command::Jump(digit_index(c) as usize)
        } else {
            Command::Ignore
        },
        Key::Up => Command::Up,
        Key::Down => Command::Down,
        Key::Enter => Command::Accept,
        Key::Esc => Command::Cancel,
        Key::Other => Command::Ignore,
    }
}

/// The command that a terminal event gives: only key presses count.
pub open spec fn command_of(event: TermEvent) -> Command {
    match event {
        TermEvent::Key { code, control, press } => if press {
            key_command(code, control)
        } else {
            Command::Ignore
        },
        TermEvent::Other => Command::Ignore,
    }
}

/// The command that a terminal event gives.
pub fn classify(event: TermEvent) -> (command: Command)
    ensures
        command == command_of(event),
{
    match event {
        TermEvent::Key { code, control, press } => {
            if !press {
                return Command::Ignore;
            }
            match code {
                Key::Char(c) => {
                    if c == 'c' && control {
                        Command::Interrupt
                    } else if c == 'k' {
                        Command::Up
                    } else if c == 'j' {
                        Command::Down
                    } else if c == 'q' || c == 'Q' {
                        Command::Cancel
                    } else if '1' <= c && c <= '9' {
                        let n: u32 = c as u32 - '1' as u32;
                        Command::Jump(n as usize)
                    } else {
                        Command::Ignore
                    }
                },
                Key::Up => Command::Up,
                Key::Down => Command::Down,
                Key::Enter => Command::Accept,
                Key::Esc => Command::Cancel,
                Key::Other => Command::Ignore,
            }
        },
        TermEvent::Other => Command::Ignore,
    }
}

/// The cursor of one menu: which of `total` items is selected.
///
/// The selected index is always below `total`, and `total` is never zero.
#[derive(Clone, Copy, Debug)]
pub struct MenuCursor {
    total: usize,
    selected: usize,
}

/// The index one step above `selected` among `total` items, wrapping.
pub open spec fn index_above(selected: nat, total: nat) -> nat {
    ((selected + total - 1) % (total as int)) as nat
}

/// The index one step below `selected` among `total` items, wrapping.
pub open spec fn index_below(selected: nat, total: nat) -> nat {
    ((selected + 1) as int % (total as int)) as nat
}

/// Moving up wraps from the first item to the last and otherwise goes back
/// by one; moving down wraps from the last item to the first and otherwise
/// goes on by one. Either way the index stays below `total`.
pub proof fn lemma_cursor_wraps(selected: nat, total: nat)
    requires
        selected < total,
    ensures
        index_above(selected, total) < total,
        index_below(selected, total) < total,
        selected == 0 ==> index_above(selected, total) == total - 1,
        selected > 0 ==> index_above(selected, total) == selected - 1,
        selected == total - 1 ==> index_below(selected, total) == 0,
        selected < total - 1 ==> index_below(selected, total) == selected + 1,
{
    if selected == 0 {
        lemma_small_mod((total - 1) as nat, total);
    } else {
        lemma_mod_add_multiples_vanish(selected - 1, total as int);
        lemma_small_mod((selected - 1) as nat, total);
    }
    if selected == total - 1 {
        lemma_mod_self_0(total as int);
    } else {
        lemma_small_mod(selected + 1, total);
    }
}

impl MenuCursor {
    #[verifier::type_invariant]
    spec fn in_range(&self) -> bool {
        self.selected < self.total
    }

    /// The number of items.
    pub closed spec fn total_items(&self) -> nat {
        self.total as nat
    }

    /// The index of the selected item.
    pub closed spec fn position(&self) -> nat {
        self.selected as nat
    }

    /// A cursor on the first of `total` items; none where there is no item.
    pub fn new(total: usize) -> (cursor: Option<MenuCursor>)
        ensures
            cursor is None <==> total == 0,
            cursor matches Some(c) ==> c.total_items() == total && c.position() == 0,
    {
        if total == 0 {
            None
        } else {
            Some(MenuCursor { total, selected: 0 })
        }
    }

    /// The number of items.
    pub fn total(&self) -> (n: usize)
        ensures
            n == self.total_items(),
            n > 0,
    {
        proof {
            use_type_invariant(self);
        }
        self.total
    }

    /// The index of the selected item.
    pub fn selected(&self) -> (i: usize)
        ensures
            i == self.position(),
            i < self.total_items(),
    {
        proof {
            use_type_invariant(self);
        }
        self.selected
    }

    /// Moves up by one item; from the first item to the last.
    pub fn up(&mut self)
        ensures
            final(self).total_items() == old(self).total_items(),
            final(self).position() == index_above(old(self).position(), old(self).total_items()),
            final(self).position() < final(self).total_items(),
            old(self).position() == 0 ==> final(self).position() == old(self).total_items() - 1,
            old(self).position() > 0 ==> final(self).position() == old(self).position() - 1,
    {
        proof {
            use_type_invariant(&*self);
            lemma_cursor_wraps(self.selected as nat, self.total as nat);
        }
        if self.selected == 0 {
            self.selected = self.total - 1;
        } else {
            self.selected = self.selected - 1;
        }
    }

    /// Moves down by one item; from the last item to the first.
    pub fn down(&mut self)
        ensures
            final(self).total_items() == old(self).total_items(),
            final(self).position() == index_below(old(self).position(), old(self).total_items()),
            final(self).position() < final(self).total_items(),
            old(self).position() == old(self).total_items() - 1 ==> final(self).position() == 0,
            old(self).position() < old(self).total_items() - 1 ==> final(self).position() == old(
                self,
            ).position() + 1,
    {
        proof {
            use_type_invariant(&*self);
            lemma_cursor_wraps(self.selected as nat, self.total as nat);
        }
        if self.selected == self.total - 1 {
            self.selected = 0;
        } else {
            self.selected = self.selected + 1;
        }
    }

    /// Selects the item with index `index` if there is one, and says whether
    /// there was; otherwise the cursor stays where it is.
    pub fn jump(&mut self, index: usize) -> (moved: bool)
        ensures
            moved <==> index < old(self).total_items(),
            final(self).total_items() == old(self).total_items(),
            moved ==> final(self).position() == index,
            !moved ==> final(self).position() == old(self).position(),
    {
        if index < self.total {
            self.selected = index;
            true
        } else {
            false
        }
    }
}

/// Where the cursor stands after `command`, having stood on `selected` of
/// `total` items. Only the navigation keys and a digit that names an item
/// move it.
pub open spec fn moved(selected: nat, total: nat, command: Command) -> nat {
    match command {
        Command::Up => index_above(selected, total),
        Command::Down => index_below(selected, total),
        Command::Jump(index) => if index < total {
            index as nat
        } else {
            selected
        },
        _ => selected,
    }
}

/// Whether `command` ends the menu with the item that the cursor then stands on.
pub open spec fn accepts(total: nat, command: Command) -> bool {
    match command {
        Command::Accept => true,
        Command::Jump(index) => index < total,
        _ => false,
    }
}

/// Whether `command` ends the menu without a choice.
pub open spec fn cancels(command: Command) -> bool {
    command is Interrupt || command is Cancel
}

/// Where the cursor stands after a whole sequence of commands.
pub open spec fn moved_all(selected: nat, total: nat, commands: Seq<Command>) -> nat
    decreases commands.len(),
{
    if commands.len() == 0 {
        selected
    } else {
        moved(moved_all(selected, total, commands.drop_last()), total, commands.last())
    }
}

/// Whatever the commands, a cursor that starts below `total` stays below it.
pub proof fn lemma_cursor_stays_in_range(selected: nat, total: nat, commands: Seq<Command>)
    requires
        selected < total,
    ensures
        moved_all(selected, total, commands) < total,
    decreases commands.len(),
{
    if commands.len() > 0 {
        lemma_cursor_stays_in_range(selected, total, commands.drop_last());
        lemma_cursor_wraps(moved_all(selected, total, commands.drop_last()), total);
    }
}

/// A digit key `1` to `9` selects and accepts the item whose index is the
/// digit less one exactly when there is such an item; otherwise the cursor
/// stays and nothing is accepted.
pub proof fn lemma_digit_shortcut(selected: nat, total: nat, c: char, control: bool)
    requires
        '1' <= c <= '9',
    ensures
        key_command(Key::Char(c), control) == Command::Jump(digit_index(c) as usize),
        digit_index(c) == c as u32 - '1' as u32,
        digit_index(c) < 9,
        accepts(total, key_command(Key::Char(c), control)) <==> digit_index(c) < total,
        digit_index(c) < total ==> moved(selected, total, key_command(Key::Char(c), control))
            == digit_index(c),
        digit_index(c) >= total ==> moved(selected, total, key_command(Key::Char(c), control))
            == selected,
{
}

/// What one menu shows: a title, the labels of its items in order, and a hint.
#[derive(Clone, Debug, PartialEq, Eq)]
pub struct MenuSpec {
    pub title: String,
    pub items: Vec<String>,
    pub hint: String,
}

/// A `MenuSpec` as plain text.
pub struct MenuSpecView {
    pub title: Seq<char>,
    pub items: Seq<Seq<char>>,
    pub hint: Seq<char>,
}

impl View for MenuSpec {
    type V = MenuSpecView;

    open spec fn view(&self) -> MenuSpecView {
        MenuSpecView { title: self.title@, items: views(self.items@), hint: self.hint@ }
    }
}

/// The title line, in bold, between two line breaks.
pub open spec fn title_text(title: Seq<char>) -> Seq<char> {
    "\r\n\x1b[1m"@ + title + "\x1b[0m\r\n"@
}

/// One item's line: cleared, then the item behind a green marker if it is
/// the chosen one and dimmed if not.
pub open spec fn item_line(item: Seq<char>, chosen: bool) -> Seq<char> {
    "\x1b[2K"@ + (if chosen {
        "  \x1b[0;32m\u{25b6} "@
    } else {
        "  \x1b[2m  "@
    }) + item + "\x1b[0m\r\n"@
}

/// The lines of all items, in order, the one at `selected` marked.
pub open spec fn item_lines(items: Seq<Seq<char>>, selected: int) -> Seq<char>
    decreases items.len(),
{
    if items.len() == 0 {
        Seq::empty()
    } else {
        item_lines(items.drop_last(), selected) + item_line(
            items.last(),
            items.len() - 1 == selected,
        )
    }
}

/// The hint line: cleared, dimmed, left without a line break.
pub open spec fn hint_text(hint: Seq<char>) -> Seq<char> {
    "\x1b[2K\x1b[2m  "@ + hint + "\x1b[0m"@
}

/// Moves the terminal cursor to the first column and up by `lines` lines.
pub open spec fn rewind_text(lines: nat) -> Seq<char> {
    "\r\x1b["@ + decimal(lines) + "A"@
}

/// The first frame: the title, the items with the first one marked, the hint.
pub open spec fn opening_text(menu: MenuSpecView) -> Seq<char> {
    title_text(menu.title) + item_lines(menu.items, 0) + hint_text(menu.hint)
}

/// A later frame, drawn over the one before it.
pub open spec fn redraw_text(menu: MenuSpecView, selected: nat) -> Seq<char> {
    rewind_text(menu.items.len()) + item_lines(menu.items, selected as int) + hint_text(menu.hint)
}

/// The last frame, which leaves the choice on the screen: the items once
/// more, then the hint line cleared and a line break.
pub open spec fn closing_text(menu: MenuSpecView, selected: nat) -> Seq<char> {
    rewind_text(menu.items.len()) + item_lines(menu.items, selected as int) + "\x1b[2K\r\n"@
}

/// Appends the lines of all items to `out`.
fn push_item_lines(out: &mut String, items: &Vec<String>, selected: usize)
    ensures
        final(out)@ == old(out)@ + item_lines(views(items@), selected as int),
{
    let mut i: usize = 0;
    while i < items.len()
        invariant
            i <= items.len(),
            out@ == old(out)@ + item_lines(views(items@).take(i as int), selected as int),
        decreases items.len() - i,
    {
        proof {
            let upto = views(items@).take(i + 1);
            assert(upto.drop_last() == views(items@).take(i as int));
        }
        out.append("\x1b[2K");
        if i == selected {
            out.append("  \x1b[0;32m\u{25b6} ");
        } else {
            out.append("  \x1b[2m  ");
        }
        out.append(items[i].as_str());
        out.append("\x1b[0m\r\n");
        i += 1;
    }
    assert(views(items@).take(items.len() as int) == views(items@));
}

impl MenuSpec {
    /// The first frame of the menu.
    pub fn opening(&self) -> (text: String)
        ensures
            text@ == opening_text(self@),
    {
        let mut out = String::new();
        out.append("\r\n\x1b[1m");
        out.append(self.title.as_str());
        out.append("\x1b[0m\r\n");
        push_item_lines(&mut out, &self.items, 0);
        out.append("\x1b[2K\x1b[2m  ");
        out.append(self.hint.as_str());
        out.append("\x1b[0m");
        out
    }

    /// A later frame of the menu, with the item at `selected` marked.
    pub fn redraw(&self, selected: usize) -> (text: String)
        ensures
            text@ == redraw_text(self@, selected as nat),
    {
        let mut out = String::new();
        out.append("\r\x1b[");
        push_decimal(&mut out, self.items.len());
        out.append("A");
        push_item_lines(&mut out, &self.items, selected);
        out.append("\x1b[2K\x1b[2m  ");
        out.append(self.hint.as_str());
        out.append("\x1b[0m");
        out
    }

    /// The last frame of the menu, with the item at `selected` marked.
    pub fn closing(&self, selected: usize) -> (text: String)
        ensures
            text@ == closing_text(self@, selected as nat),
    {
        let mut out = String::new();
        out.append("\r\x1b[");
        push_decimal(&mut out, self.items.len());
        out.append("A");
        push_item_lines(&mut out, &self.items, selected);
        out.append("\x1b[2K\r\n");
        out
    }
}

/// How an attempt to take over the terminal ended.
#[derive(Clone, Copy, Debug, PartialEq, Eq)]
pub enum RawMode {
    /// Raw mode was not entered; the terminal is as it was.
    Refused,
    /// Raw mode was entered, but the cursor could not be hidden.
    Partial,
    /// Raw mode was entered and the cursor is hidden.
    Held,
}

/// What the terminal reports back to the menu.
#[derive(Clone, Copy, Debug, PartialEq, Eq)]
pub enum MenuEvent {
    /// The answer to `MenuAction::EnterRawMode`.
    RawMode(RawMode),
    /// An event was read.
    Input(TermEvent),
    /// Reading an event failed.
    ReadFailed,
}

/// What the menu asks of the terminal next.
#[derive(Clone, Debug, PartialEq, Eq)]
pub enum MenuAction {
    /// Enter raw mode and hide the cursor, then report how that went.
    EnterRawMode,
    /// Write the text, flush, then read one event and report it.
    Draw(String),
    /// Write the text, flush, show the cursor and leave raw mode; the menu
    /// has ended with `result`.
    Restore { text: String, result: Option<usize> },
    /// The menu has ended without a choice and holds nothing of the terminal.
    Return,
}

/// A `MenuAction` as plain text.
pub enum MenuActionView {
    EnterRawMode,
    Draw(Seq<char>),
    Restore { text: Seq<char>, result: Option<usize> },
    Return,
}

impl View for MenuAction {
    type V = MenuActionView;

    open spec fn view(&self) -> MenuActionView {
        match self {
            MenuAction::EnterRawMode => MenuActionView::EnterRawMode,
            MenuAction::Draw(text) => MenuActionView::Draw(text@),
            MenuAction::Restore { text, result } => MenuActionView::Restore {
                text: text@,
                result: *result,
            },
            MenuAction::Return => MenuActionView::Return,
        }
    }
}

/// Where a menu stands.
pub enum PhaseView {
    /// Raw mode was asked for.
    Acquiring,
    /// Raw mode is held, a frame is on the screen, and the cursor stands on
    /// the item with this index.
    Active(nat),
    /// The menu has ended.
    Closed,
}

/// A menu as plain values: what it shows and where it stands.
pub struct MenuView {
    pub spec: MenuSpecView,
    pub phase: PhaseView,
}

/// The state and the first action of a menu that shows `spec`. A menu
/// without items ends at once and never asks for the terminal.
pub open spec fn open_spec(spec: MenuSpecView) -> (MenuView, MenuActionView) {
    if spec.items.len() == 0 {
        (MenuView { spec, phase: PhaseView::Closed }, MenuActionView::Return)
    } else {
        (MenuView { spec, phase: PhaseView::Acquiring }, MenuActionView::EnterRawMode)
    }
}

/// The menu `menu`, ended.
pub open spec fn closed(menu: MenuView) -> MenuView {
    MenuView { spec: menu.spec, phase: PhaseView::Closed }
}

/// The end of a menu that gives the terminal back without a choice, after
/// writing `text`.
pub open spec fn give_up(menu: MenuView, text: Seq<char>) -> (MenuView, MenuActionView) {
    (closed(menu), MenuActionView::Restore { text, result: None })
}

/// What a menu that holds the terminal, its cursor on `selected`, does
/// with a command.
pub open spec fn obey(menu: MenuView, selected: nat, command: Command) -> (
    MenuView,
    MenuActionView,
) {
    let total = menu.spec.items.len();
    let target = moved(selected, total, command);
    if cancels(command) {
        give_up(menu, "\r\n"@)
    } else if accepts(total, command) {
        (
            closed(menu),
            MenuActionView::Restore {
                text: closing_text(menu.spec, target),
                result: Some(target as usize),
            },
        )
    } else {
        (
            MenuView { spec: menu.spec, phase: PhaseView::Active(target) },
            MenuActionView::Draw(redraw_text(menu.spec, target)),
        )
    }
}

/// The next state and action of `menu` on `event`.
///
/// Raw mode that was refused leaves nothing to give back; raw mode that
/// was entered without the cursor hidden is given back at once. An event
/// that the phase does not expect ends the menu, and the terminal is given
/// back if it may be held.
pub open spec fn step_spec(menu: MenuView, event: MenuEvent) -> (MenuView, MenuActionView) {
    match menu.phase {
        PhaseView::Acquiring => match event {
            MenuEvent::RawMode(RawMode::Refused) => (closed(menu), MenuActionView::Return),
            MenuEvent::RawMode(RawMode::Held) => (
                MenuView { spec: menu.spec, phase: PhaseView::Active(0) },
                MenuActionView::Draw(opening_text(menu.spec)),
            ),
            _ => give_up(menu, Seq::empty()),
        },
        PhaseView::Active(selected) => match event {
            MenuEvent::Input(input) => obey(menu, selected, command_of(input)),
            _ => give_up(menu, Seq::empty()),
        },
        PhaseView::Closed => (menu, MenuActionView::Return),
    }
}

/// In a menu that holds the terminal, a press of a digit `1` to `9` ends
/// the menu with the item whose index is the digit less one exactly when
/// there is such an item; otherwise the menu stays as it is and only draws
/// its frame again.
pub proof fn lemma_digit_key_in_menu(menu: MenuView, selected: nat, c: char, control: bool)
    requires
        menu.phase == PhaseView::Active(selected),
        '1' <= c <= '9',
    ensures
        ({
            let key = MenuEvent::Input(TermEvent::Key { code: Key::Char(c), control, press: true });
            let index = digit_index(c);
            if index < menu.spec.items.len() {
                step_spec(menu, key) == (
                    closed(menu),
                    MenuActionView::Restore {
                        text: closing_text(menu.spec, index),
                        result: Some(index as usize),
                    },
                )
            } else {
                step_spec(menu, key) == (
                    menu,
                    MenuActionView::Draw(redraw_text(menu.spec, selected)),
                )
            }
        }),
{
    lemma_digit_shortcut(selected, menu.spec.items.len(), c, control);
}

/// Whether `event` is an answer to `action`.
pub open spec fn answers(action: MenuActionView, event: MenuEvent) -> bool {
    match action {
        MenuActionView::EnterRawMode => event is RawMode,
        MenuActionView::Draw(_) => event is Input || event is ReadFailed,
        _ => false,
    }
}

/// Where a run of the menu stands: the menu, its latest action, and whether
/// the terminal is in raw mode on the menu's account.
pub struct RunView {
    pub menu: MenuView,
    pub last: MenuActionView,
    pub raw: bool,
}

/// The run of a menu that shows `spec` and is told `events`, one by one.
///
/// The terminal enters raw mode when the menu is told so, and leaves it
/// when the menu's action is `Restore`.
pub open spec fn run(spec: MenuSpecView, events: Seq<MenuEvent>) -> RunView
    decreases events.len(),
{
    if events.len() == 0 {
        RunView { menu: open_spec(spec).0, last: open_spec(spec).1, raw: false }
    } else {
        let before = run(spec, events.drop_last());
        let event = events.last();
        let next = step_spec(before.menu, event);
        let entered = before.raw || (event matches MenuEvent::RawMode(mode) && !(mode is Refused));
        RunView { menu: next.0, last: next.1, raw: entered && !(next.1 is Restore) }
    }
}

/// Whether each of `events` answers the action that the menu took before it.
pub open spec fn orderly(spec: MenuSpecView, events: Seq<MenuEvent>) -> bool
    decreases events.len(),
{
    events.len() == 0 || (orderly(spec, events.drop_last()) && answers(
        run(spec, events.drop_last()).last,
        events.last(),
    ))
}

/// Entering and leaving raw mode are paired. In a run whose events each
/// answer the action before them, the terminal is in raw mode exactly while
/// the menu is active, so a menu that has ended, however it ended, has given
/// the terminal back; and the menu has ended exactly when its latest action
/// is `Restore` or `Return`.
pub proof fn lemma_raw_mode_is_paired(spec: MenuSpecView, events: Seq<MenuEvent>)
    requires
        orderly(spec, events),
    ensures
        run(spec, events).raw <==> run(spec, events).menu.phase is Active,
        run(spec, events).menu.phase is Closed <==> (run(spec, events).last is Restore || run(
            spec,
            events,
        ).last is Return),
        run(spec, events).menu.phase is Acquiring <==> run(spec, events).last is EnterRawMode,
        run(spec, events).menu.phase is Closed ==> !run(spec, events).raw,
        run(spec, events).menu.phase matches PhaseView::Active(selected) ==> selected
            < spec.items.len(),
        run(spec, events).menu.spec == spec,
    decreases events.len(),
{
    if events.len() > 0 {
        lemma_raw_mode_is_paired(spec, events.drop_last());
        let before = run(spec, events.drop_last());
        if let PhaseView::Active(selected) = before.menu.phase {
            if let MenuEvent::Input(input) = events.last() {
                lemma_cursor_stays_in_range(selected, spec.items.len(), seq![command_of(input)]);
            }
        }
    }
}

/// A menu without items returns no choice and never touches the terminal:
/// whatever it is told, its action is `Return`.
pub proof fn lemma_empty_menu_leaves_terminal_alone(spec: MenuSpecView, events: Seq<MenuEvent>)
    requires
        spec.items.len() == 0,
    ensures
        run(spec, events).last is Return,
        run(spec, events).menu.phase is Closed,
    decreases events.len(),
{
    if events.len() > 0 {
        lemma_empty_menu_leaves_terminal_alone(spec, events.drop_last());
    }
}

#[derive(Clone, Copy, Debug)]
enum Phase {
    Acquiring,
    Active(MenuCursor),
    Closed,
}

/// One run of the menu engine, from its first action to its result.
///
/// The engine reads no key and writes no byte itself: it says what to do
/// with the terminal, and is told what came of it.
#[derive(Debug)]
pub struct Menu {
    spec: MenuSpec,
    phase: Phase,
}

impl View for Menu {
    type V = MenuView;

    closed spec fn view(&self) -> MenuView {
        MenuView {
            spec: self.spec@,
            phase: match self.phase {
                Phase::Acquiring => PhaseView::Acquiring,
                Phase::Active(cursor) => PhaseView::Active(cursor.position()),
                Phase::Closed => PhaseView::Closed,
            },
        }
    }
}

/// Starts the menu engine on a title, the labels of the items and a hint.
///
/// What comes back is the engine and its first action: to enter raw mode,
/// or, where there is no item, to return without a choice and without
/// touching the terminal. From then on the engine is told what came of
/// each action with `Menu::step`, until its action is `Restore` or
/// `Return`.
pub fn select_menu(title: &str, items: &Vec<String>, hint: &str) -> (start: (Menu, MenuAction))
    ensures
        (start.0@, start.1@) == open_spec(
            MenuSpecView { title: title@, items: views(items@), hint: hint@ },
        ),
        items.len() == 0 ==> start.1@ is Return && start.0@.phase is Closed,
{
    let mut labels: Vec<String> = Vec::new();
    let mut i: usize = 0;
    while i < items.len()
        invariant
            i <= items.len(),
            labels.len() == i,
            forall|j: int| 0 <= j < i ==> labels@[j]@ == items@[j]@,
        decreases items.len() - i,
    {
        labels.push(items[i].clone());
        i += 1;
    }
    assert(views(labels@) =~= views(items@));
    Menu::open(
        MenuSpec { title: String::from_str(title), items: labels, hint: String::from_str(hint) },
    )
}

impl Menu {
    #[verifier::type_invariant]
    spec fn cursor_fits(&self) -> bool {
        match self.phase {
            Phase::Acquiring => self.spec.items.len() > 0,
            Phase::Active(cursor) => cursor.total_items() == self.spec.items.len()
                && cursor.position() < cursor.total_items(),
            Phase::Closed => true,
        }
    }

    /// Starts a menu that shows `spec`.
    pub fn open(spec: MenuSpec) -> (start: (Menu, MenuAction))
        ensures
            (start.0@, start.1@) == open_spec(spec@),
    {
        if spec.items.len() == 0 {
            (Menu { spec, phase: Phase::Closed }, MenuAction::Return)
        } else {
            (Menu { spec, phase: Phase::Acquiring }, MenuAction::EnterRawMode)
        }
    }

    /// Whether the menu has ended.
    pub fn is_closed(&self) -> (b: bool)
        ensures
            b == (self@.phase is Closed),
    {
        match self.phase {
            Phase::Closed => true,
            _ => false,
        }
    }

    /// Ends the menu and gives the terminal back, after writing `text`.
    fn restore(&mut self, text: String) -> (action: MenuAction)
        ensures
            (final(self)@, action@) == give_up(old(self)@, text@),
    {
        self.phase = Phase::Closed;
        MenuAction::Restore { text, result: None }
    }

    /// Takes one event and says what to do next.
    pub fn step(&mut self, event: MenuEvent) -> (action: MenuAction)
        ensures
            (final(self)@, action@) == step_spec(old(self)@, event),
    {
        proof {
            use_type_invariant(&*self);
        }
        let phase = self.phase;
        match phase {
            Phase::Acquiring => match event {
                MenuEvent::RawMode(RawMode::Refused) => {
                    self.phase = Phase::Closed;
                    MenuAction::Return
                },
                MenuEvent::RawMode(RawMode::Held) => {
                    match MenuCursor::new(self.spec.items.len()) {
                        Some(cursor) => {
                            self.phase = Phase::Active(cursor);
                            MenuAction::Draw(self.spec.opening())
                        },
                        None => self.restore(String::new()),
                    }
                },
                _ => self.restore(String::new()),
            },
            Phase::Active(cursor) => match event {
                MenuEvent::Input(input) => self.obey(cursor, classify(input)),
                _ => self.restore(String::new()),
            },
            Phase::Closed => MenuAction::Return,
        }
    }

    /// Carries out one command while the terminal is held.
    fn obey(&mut self, cursor: MenuCursor, command: Command) -> (action: MenuAction)
        requires
            old(self).phase == Phase::Active(cursor),
            cursor.total_items() == old(self).spec.items.len(),
        ensures
            (final(self)@, action@) == obey(old(self)@, cursor.position(), command),
    {
        proof {
            use_type_invariant(&cursor);
        }
        let mut cursor = cursor;
        let mut accept = false;
        match command {
            Command::Interrupt => {
                return self.restore(String::from_str("\r\n"));
            },
            Command::Cancel => {
                return self.restore(String::from_str("\r\n"));
            },
            Command::Up => {
                cursor.up();
            },
            Command::Down => {
                cursor.down();
            },
            Command::Accept => {
                accept = true;
            },
            Command::Jump(index) => {
                accept = cursor.jump(index);
            },
            Command::Ignore => {},
        }
        if accept {
            self.phase = Phase::Closed;
            MenuAction::Restore {
                text: self.spec.closing(cursor.selected()),
                result: Some(cursor.selected()),
            }
        } else {
            self.phase = Phase::Active(cursor);
            MenuAction::Draw(self.spec.redraw(cursor.selected()))
        }
    }
}

} // verus!
