use shuu::menu::{
    classify, select_menu, Command, Key, Menu, MenuAction, MenuCursor, MenuEvent, MenuSpec,
    RawMode, TermEvent,
};

fn press(code: Key) -> MenuEvent {
    MenuEvent::Input(TermEvent::Key { code, control: false, press: true })
}

fn ctrl(c: char) -> MenuEvent {
    MenuEvent::Input(TermEvent::Key { code: Key::Char(c), control: true, press: true })
}

fn labels(items: &[&str]) -> Vec<String> {
    items.iter().map(|s| s.to_string()).collect()
}

/// A terminal that only keeps count.
struct Terminal {
    raw: bool,
    entered: usize,
    restored: usize,
    screen: String,
    reads: usize,
}

/// Runs the engine against a scripted terminal. When the script runs out,
/// reading fails.
fn drive(
    title: &str,
    items: &[&str],
    hint: &str,
    enter: RawMode,
    script: &[MenuEvent],
) -> (Option<usize>, Terminal) {
    let mut term = Terminal { raw: false, entered: 0, restored: 0, screen: String::new(), reads: 0 };
    let (mut menu, mut action) = select_menu(title, &labels(items), hint);
    loop {
        let event = match action {
            MenuAction::EnterRawMode => {
                assert!(!term.raw);
                term.entered += 1;
                term.raw = !matches!(enter, RawMode::Refused);
                MenuEvent::RawMode(enter)
            }
            MenuAction::Draw(text) => {
                assert!(term.raw, "drawing outside raw mode");
                term.screen.push_str(&text);
                let event = script.get(term.reads).copied().unwrap_or(MenuEvent::ReadFailed);
                term.reads += 1;
                event
            }
            MenuAction::Restore { text, result } => {
                assert!(term.raw, "giving back what is not held");
                term.screen.push_str(&text);
                term.raw = false;
                term.restored += 1;
                assert!(menu.is_closed());
                return (result, term);
            }
            MenuAction::Return => {
                assert!(!term.raw, "returning with the terminal held");
                assert!(menu.is_closed());
                return (None, term);
            }
        };
        action = menu.step(event);
    }
}

/// What the menu writes and returns for a script of events, written down
/// the plain way: one loop, one frame per round.
fn plain(title: &str, items: &[&str], hint: &str, script: &[MenuEvent]) -> (Option<usize>, String) {
    let total = items.len();
    let mut out = String::new();
    if total == 0 {
        return (None, out);
    }
    let frame = |out: &mut String, selected: usize| {
        for (i, item) in items.iter().enumerate() {
            out.push_str("\x1b[2K");
            if i == selected {
                out.push_str(&format!("  \x1b[0;32m\u{25b6} {}\x1b[0m\r\n", item));
            } else {
                out.push_str(&format!("  \x1b[2m  {}\x1b[0m\r\n", item));
            }
        }
    };
    let mut selected = 0usize;
    out.push_str(&format!("\r\n\x1b[1m{}\x1b[0m\r\n", title));
    let mut redraw = false;
    let mut next = 0usize;
    loop {
        if redraw {
            out.push_str(&format!("\r\x1b[{}A", total));
        }
        frame(&mut out, selected);
        out.push_str(&format!("\x1b[2K\x1b[2m  {}\x1b[0m", hint));
        redraw = true;
        let event = match script.get(next) {
            Some(MenuEvent::Input(event)) => *event,
            _ => return (None, out),
        };
        next += 1;
        let (code, control) = match event {
            TermEvent::Key { code, control, press: true } => (code, control),
            _ => continue,
        };
        let mut accept = false;
        match code {
            Key::Char('c') if control => {
                out.push_str("\r\n");
                return (None, out);
            }
            Key::Up | Key::Char('k') => selected = (selected + total - 1) % total,
            Key::Down | Key::Char('j') => selected = (selected + 1) % total,
            Key::Enter => accept = true,
            Key::Char('q') | Key::Char('Q') | Key::Esc => {
                out.push_str("\r\n");
                return (None, out);
            }
            Key::Char(c @ '1'..='9') => {
                let num = (c as usize) - ('1' as usize);
                if num < total {
                    selected = num;
                    accept = true;
                }
            }
            _ => {}
        }
        if accept {
            out.push_str(&format!("\r\x1b[{}A", total));
            frame(&mut out, selected);
            out.push_str("\x1b[2K\r\n");
            return (Some(selected), out);
        }
    }
}

#[test]
fn cursor_wraps_in_both_directions() {
    for n in 1..=12usize {
        let mut cursor = MenuCursor::new(n).unwrap();
        assert_eq!(cursor.selected(), 0);
        assert_eq!(cursor.total(), n);
        cursor.up();
        assert_eq!(cursor.selected(), n - 1);
        cursor.down();
        assert_eq!(cursor.selected(), 0);
        for step in 1..=(2 * n) {
            cursor.down();
            assert_eq!(cursor.selected(), step % n);
        }
        for step in 1..=(2 * n) {
            cursor.up();
            assert_eq!(cursor.selected(), (2 * n - step) % n);
        }
    }
    assert!(MenuCursor::new(0).is_none());
}

#[test]
fn cursor_stays_in_range_under_any_moves() {
    let mut seed = 0x2545f491u32;
    for n in 1..=9usize {
        let mut cursor = MenuCursor::new(n).unwrap();
        for _ in 0..500 {
            seed ^= seed << 13;
            seed ^= seed >> 17;
            seed ^= seed << 5;
            let before = cursor.selected();
            match seed % 3 {
                0 => {
                    cursor.up();
                    assert_eq!(cursor.selected(), (before + n - 1) % n);
                }
                1 => {
                    cursor.down();
                    assert_eq!(cursor.selected(), (before + 1) % n);
                }
                _ => {
                    let index = (seed >> 8) as usize % 12;
                    let moved = cursor.jump(index);
                    assert_eq!(moved, index < n);
                    assert_eq!(cursor.selected(), if moved { index } else { before });
                }
            }
            assert!(cursor.selected() < n);
            assert_eq!(cursor.total(), n);
        }
    }
}

#[test]
fn keys_mean_what_they_should() {
    let key = |code, control| classify(TermEvent::Key { code, control, press: true });
    assert_eq!(key(Key::Up, false), Command::Up);
    assert_eq!(key(Key::Char('k'), false), Command::Up);
    assert_eq!(key(Key::Char('k'), true), Command::Up);
    assert_eq!(key(Key::Down, false), Command::Down);
    assert_eq!(key(Key::Char('j'), false), Command::Down);
    assert_eq!(key(Key::Enter, false), Command::Accept);
    assert_eq!(key(Key::Esc, false), Command::Cancel);
    assert_eq!(key(Key::Char('q'), false), Command::Cancel);
    assert_eq!(key(Key::Char('Q'), false), Command::Cancel);
    assert_eq!(key(Key::Char('c'), true), Command::Interrupt);
    assert_eq!(key(Key::Char('c'), false), Command::Ignore);
    assert_eq!(key(Key::Char('C'), true), Command::Ignore);
    assert_eq!(key(Key::Char('K'), false), Command::Ignore);
    assert_eq!(key(Key::Char('J'), false), Command::Ignore);
    assert_eq!(key(Key::Char('0'), false), Command::Ignore);
    assert_eq!(key(Key::Other, false), Command::Ignore);
    for (i, c) in ('1'..='9').enumerate() {
        assert_eq!(key(Key::Char(c), false), Command::Jump(i));
    }
    assert_eq!(
        classify(TermEvent::Key { code: Key::Enter, control: false, press: false }),
        Command::Ignore
    );
    assert_eq!(
        classify(TermEvent::Key { code: Key::Char('q'), control: false, press: false }),
        Command::Ignore
    );
    assert_eq!(classify(TermEvent::Other), Command::Ignore);
}

#[test]
fn digit_selects_and_accepts_only_an_item_that_exists() {
    let items = ["a", "b", "c"];
    for (d, c) in ('1'..='9').enumerate() {
        let (result, term) = drive("t", &items, "h", RawMode::Held, &[press(Key::Char(c))]);
        if d < items.len() {
            assert_eq!(result, Some(d));
            assert_eq!(term.reads, 1);
        } else {
            // ignored: the cursor stays, the menu reads on, and reading then fails
            assert_eq!(result, None);
            assert_eq!(term.reads, 2);
            let (_, expected) = plain("t", &items, "h", &[press(Key::Char(c))]);
            assert_eq!(term.screen, expected);
        }
    }
    let (result, _) = drive(
        "t",
        &items,
        "h",
        RawMode::Held,
        &[press(Key::Down), press(Key::Char('7')), press(Key::Enter)],
    );
    assert_eq!(result, Some(1));
}

#[test]
fn empty_menu_returns_none_without_touching_the_terminal() {
    let (menu, action) = select_menu("title", &Vec::new(), "hint");
    assert_eq!(action, MenuAction::Return);
    assert!(menu.is_closed());
    let (result, term) = drive("title", &[], "hint", RawMode::Held, &[press(Key::Enter)]);
    assert_eq!(result, None);
    assert_eq!(term.entered, 0);
    assert_eq!(term.restored, 0);
    assert_eq!(term.screen, "");
    let (mut menu, _) = Menu::open(MenuSpec {
        title: String::new(),
        items: Vec::new(),
        hint: String::new(),
    });
    for event in [press(Key::Enter), MenuEvent::RawMode(RawMode::Held), MenuEvent::ReadFailed] {
        assert_eq!(menu.step(event), MenuAction::Return);
    }
}

#[test]
fn frames_are_written_byte_for_byte() {
    let (result, term) = drive(
        "Pick",
        &["one", "two"],
        "keys",
        RawMode::Held,
        &[press(Key::Down), press(Key::Enter)],
    );
    assert_eq!(result, Some(1));
    let expected = "\r\n\x1b[1mPick\x1b[0m\r\n\
                    \x1b[2K  \x1b[0;32m\u{25b6} one\x1b[0m\r\n\
                    \x1b[2K  \x1b[2m  two\x1b[0m\r\n\
                    \x1b[2K\x1b[2m  keys\x1b[0m\
                    \r\x1b[2A\
                    \x1b[2K  \x1b[2m  one\x1b[0m\r\n\
                    \x1b[2K  \x1b[0;32m\u{25b6} two\x1b[0m\r\n\
                    \x1b[2K\x1b[2m  keys\x1b[0m\
                    \r\x1b[2A\
                    \x1b[2K  \x1b[2m  one\x1b[0m\r\n\
                    \x1b[2K  \x1b[0;32m\u{25b6} two\x1b[0m\r\n\
                    \x1b[2K\r\n";
    assert_eq!(term.screen, expected);
    let spec = MenuSpec { title: "Pick".into(), items: labels(&["one", "two"]), hint: "keys".into() };
    assert_eq!(
        format!("{}{}{}", spec.opening(), spec.redraw(1), spec.closing(1)),
        expected
    );
}

#[test]
fn cursor_up_by_the_number_of_items_is_written_in_decimal() {
    let items: Vec<String> = (0..123).map(|i| format!("item {}", i)).collect();
    let spec = MenuSpec { title: String::new(), items, hint: String::new() };
    assert!(spec.redraw(0).starts_with("\r\x1b[123A\x1b[2K"));
    assert!(spec.closing(122).starts_with("\r\x1b[123A\x1b[2K"));
    let ten = MenuSpec {
        title: String::new(),
        items: (0..10).map(|i| i.to_string()).collect(),
        hint: String::new(),
    };
    assert!(ten.redraw(9).starts_with("\r\x1b[10A"));
}

#[test]
fn every_script_gives_what_the_plain_loop_gives() {
    let keys = [
        press(Key::Up),
        press(Key::Down),
        press(Key::Char('k')),
        press(Key::Char('j')),
        press(Key::Enter),
        press(Key::Esc),
        press(Key::Char('q')),
        press(Key::Char('Q')),
        press(Key::Char('2')),
        press(Key::Char('9')),
        press(Key::Char('x')),
        press(Key::Other),
        ctrl('c'),
        ctrl('j'),
        MenuEvent::Input(TermEvent::Other),
        MenuEvent::Input(TermEvent::Key { code: Key::Enter, control: false, press: false }),
        MenuEvent::ReadFailed,
    ];
    let menus: [&[&str]; 3] = [&["only"], &["a", "b"], &["x", "y", "z", "w"]];
    let mut runs = 0;
    for items in menus {
        for a in keys {
            for b in keys {
                for c in keys {
                    let script = [a, b, c];
                    let (result, term) = drive("Title", items, "hint", RawMode::Held, &script);
                    let (expected, screen) = plain("Title", items, "hint", &script);
                    assert_eq!(result, expected, "{:?}", script);
                    assert_eq!(term.screen, screen, "{:?}", script);
                    assert_eq!(term.entered, 1);
                    assert_eq!(term.restored, 1);
                    assert!(!term.raw);
                    runs += 1;
                }
            }
        }
    }
    assert_eq!(runs, 3 * 17 * 17 * 17);
}

#[test]
fn every_way_out_gives_the_terminal_back() {
    let items = ["a", "b"];
    // accepted
    let (result, term) = drive("t", &items, "h", RawMode::Held, &[press(Key::Enter)]);
    assert_eq!((result, term.raw, term.entered, term.restored), (Some(0), false, 1, 1));
    // cancelled, with a line break
    for event in [press(Key::Esc), press(Key::Char('q')), ctrl('c')] {
        let (result, term) = drive("t", &items, "h", RawMode::Held, &[event]);
        assert_eq!((result, term.raw, term.entered, term.restored), (None, false, 1, 1));
        assert!(term.screen.ends_with("\x1b[0m\r\n"));
    }
    // reading fails: no line break, but the terminal is given back
    let (result, term) = drive("t", &items, "h", RawMode::Held, &[MenuEvent::ReadFailed]);
    assert_eq!((result, term.raw, term.entered, term.restored), (None, false, 1, 1));
    assert!(term.screen.ends_with("h\x1b[0m"));
    // raw mode entered but the cursor not hidden: given back at once
    let (result, term) = drive("t", &items, "h", RawMode::Partial, &[press(Key::Enter)]);
    assert_eq!((result, term.raw, term.entered, term.restored), (None, false, 1, 1));
    assert_eq!(term.screen, "");
    // raw mode refused: nothing to give back
    let (result, term) = drive("t", &items, "h", RawMode::Refused, &[press(Key::Enter)]);
    assert_eq!((result, term.raw, term.entered, term.restored), (None, false, 1, 0));
    assert_eq!(term.screen, "");
}

#[test]
fn events_out_of_turn_end_the_menu() {
    let (mut menu, action) = select_menu("t", &labels(&["a"]), "h");
    assert_eq!(action, MenuAction::EnterRawMode);
    // a key before raw mode was answered for
    assert_eq!(
        menu.step(press(Key::Enter)),
        MenuAction::Restore { text: String::new(), result: None }
    );
    assert!(menu.is_closed());
    assert_eq!(menu.step(press(Key::Enter)), MenuAction::Return);

    let (mut menu, _) = select_menu("t", &labels(&["a"]), "h");
    assert!(matches!(menu.step(MenuEvent::RawMode(RawMode::Held)), MenuAction::Draw(_)));
    assert!(!menu.is_closed());
    assert_eq!(
        menu.step(MenuEvent::RawMode(RawMode::Held)),
        MenuAction::Restore { text: String::new(), result: None }
    );
    assert_eq!(menu.step(MenuEvent::ReadFailed), MenuAction::Return);
}
