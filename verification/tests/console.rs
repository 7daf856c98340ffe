use modem_console::dispatch::{dispatch_line, lookup_command, split_line, Command, Dispatch,
    SessionContext};
use modem_console::line::{LineEvent, LineReader, LINE_CAPACITY};
use modem_console::mode::{mode_plan, tokenize, ModeAction};

fn feed(reader: &mut LineReader, text: &str) -> Vec<LineEvent> {
    text.bytes().map(|b| reader.push_byte(b)).collect()
}

#[test]
fn line_reader_accumulates_and_completes() {
    let mut r = LineReader::new();
    let evs = feed(&mut r, "on");
    assert_eq!(evs, vec![LineEvent::Stored(b'o'), LineEvent::Stored(b'n')]);
    match r.push_byte(b'\n') {
        LineEvent::Ready(l) => assert_eq!(l, b"on".to_vec()),
        other => panic!("expected a completed line, got {:?}", other),
    }
    // The buffer is cleared: the next terminator yields an empty line.
    match r.push_byte(b'\r') {
        LineEvent::Ready(l) => assert!(l.is_empty()),
        other => panic!("expected a completed line, got {:?}", other),
    }
}

#[test]
fn line_reader_backspace_erases() {
    let mut r = LineReader::new();
    feed(&mut r, "of");
    assert_eq!(r.push_byte(8), LineEvent::Erased);
    feed(&mut r, "ff");
    match r.push_byte(b'\n') {
        LineEvent::Ready(l) => assert_eq!(l, b"off".to_vec()),
        other => panic!("expected a completed line, got {:?}", other),
    }
    // Erasing with nothing buffered changes nothing.
    assert_eq!(r.push_byte(127), LineEvent::Erased);
    match r.push_byte(b'\n') {
        LineEvent::Ready(l) => assert!(l.is_empty()),
        other => panic!("expected a completed line, got {:?}", other),
    }
}

#[test]
fn line_reader_overflow_drops_silently() {
    let mut r = LineReader::new();
    for _ in 0..LINE_CAPACITY {
        assert_eq!(r.push_byte(b'a'), LineEvent::Stored(b'a'));
    }
    assert_eq!(r.push_byte(b'b'), LineEvent::DroppedFull(b'b'));
    assert_eq!(r.push_byte(b'c'), LineEvent::DroppedFull(b'c'));
    match r.push_byte(b'\n') {
        LineEvent::Ready(l) => {
            assert_eq!(l.len(), LINE_CAPACITY);
            assert!(l.iter().all(|&b| b == b'a'));
        }
        other => panic!("expected a completed line, got {:?}", other),
    }
}

#[test]
fn line_reader_cancel_abandons_the_line() {
    let mut r = LineReader::new();
    feed(&mut r, "sto");
    assert_eq!(r.push_byte(3), LineEvent::Aborted);
    // What was typed before the cancel is gone.
    feed(&mut r, "off");
    match r.push_byte(b'\n') {
        LineEvent::Ready(l) => assert_eq!(l, b"off".to_vec()),
        other => panic!("expected a completed line, got {:?}", other),
    }
}

#[test]
fn line_reader_ignores_other_control_bytes() {
    let mut r = LineReader::new();
    assert_eq!(r.push_byte(7), LineEvent::Ignored);
    assert_eq!(r.push_byte(27), LineEvent::Ignored);
    match r.push_byte(b'\n') {
        LineEvent::Ready(l) => assert!(l.is_empty()),
        other => panic!("expected a completed line, got {:?}", other),
    }
}

#[test]
fn split_line_takes_first_whitespace_run() {
    let (tok, rest) = split_line(b"mode gps  ltem");
    assert_eq!(tok, b"mode".to_vec());
    assert_eq!(rest, b"gps  ltem".to_vec());

    let (tok, rest) = split_line(b"stat");
    assert_eq!(tok, b"stat".to_vec());
    assert!(rest.is_empty());

    // The argument text after the run is passed verbatim, spaces and all.
    let (tok, rest) = split_line(b"mode   a b ");
    assert_eq!(tok, b"mode".to_vec());
    assert_eq!(rest, b"a b ".to_vec());
}

#[test]
fn lookup_is_exact_and_case_sensitive() {
    assert_eq!(lookup_command(b"on"), Some(Command::On));
    assert_eq!(lookup_command(b"mode"), Some(Command::Mode));
    assert_eq!(lookup_command(b"flight"), Some(Command::Flight));
    assert_eq!(lookup_command(b"off"), Some(Command::Off));
    assert_eq!(lookup_command(b"wait"), Some(Command::Wait));
    assert_eq!(lookup_command(b"stat"), Some(Command::Stat));
    assert_eq!(lookup_command(b"get"), Some(Command::Get));
    assert_eq!(lookup_command(b"store"), Some(Command::Store));
    assert_eq!(lookup_command(b"panic"), Some(Command::Panic));
    assert_eq!(lookup_command(b"fix"), Some(Command::Fix));
    assert_eq!(lookup_command(b"go_at"), Some(Command::GoAt));
    assert_eq!(lookup_command(b"AT+CFUN?"), Some(Command::GoAtFun));
    assert_eq!(lookup_command(b"ON"), None);
    assert_eq!(lookup_command(b"at+cfun?"), None);
    assert_eq!(lookup_command(b"onn"), None);
    assert_eq!(lookup_command(b""), None);
}

#[test]
fn unknown_command_leaves_context_unchanged() {
    let mut ctx = SessionContext { timer_ticks: 42 };
    let d = dispatch_line(b"reboot now", &mut ctx);
    assert_eq!(d, Dispatch::Unknown);
    assert_eq!(ctx, SessionContext { timer_ticks: 42 });
}

#[test]
fn typed_mode_line_reaches_the_mode_handler() {
    let mut r = LineReader::new();
    let mut ctx = SessionContext { timer_ticks: 0 };
    let mut done = false;
    for b in "mode gps ltem\n".bytes() {
        if let LineEvent::Ready(line) = r.push_byte(b) {
            match dispatch_line(&line, &mut ctx) {
                Dispatch::Invoke(Command::Mode, rest) => {
                    let plan = mode_plan(&tokenize(&rest));
                    assert_eq!(
                        plan,
                        vec![
                            ModeAction::SendSet(b"AT%XSYSTEMMODE=1,0,1,0".to_vec()),
                            ModeAction::SendQuery(b"AT%XSYSTEMMODE?".to_vec()),
                        ]
                    );
                    done = true;
                }
                other => panic!("expected the mode command, got {:?}", other),
            }
        }
    }
    assert!(done);
}

#[test]
fn known_command_dispatches_with_verbatim_arguments() {
    let mut ctx = SessionContext { timer_ticks: 7 };
    let d = dispatch_line(b"mode gps ltem", &mut ctx);
    assert_eq!(d, Dispatch::Invoke(Command::Mode, b"gps ltem".to_vec()));
    assert_eq!(ctx, SessionContext { timer_ticks: 7 });
}
