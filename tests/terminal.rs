use term_dashboard::decoder::ByteDecoder;
use term_dashboard::performer::TerminalPerformer;
use term_dashboard::pump::OutputPump;
use term_dashboard::session::{spawn_failure, SpawnStage, TerminalView};
use term_dashboard::style::{AnsiColor, OutputLine, StyledText, TextStyle};

fn feed(decoder: &mut ByteDecoder, performer: &mut TerminalPerformer, bytes: &[u8]) {
    decoder.feed(performer, bytes);
}

fn decode(bytes: &[u8]) -> Vec<StyledText> {
    let mut decoder = ByteDecoder::new();
    let mut performer = TerminalPerformer::new();
    feed(&mut decoder, &mut performer, bytes);
    performer.flush_current_text();
    performer.take_output()
}

fn plain() -> TextStyle {
    TextStyle::default()
}

#[test]
fn cr_lf_keeps_text() {
    let runs = decode(b"abc\r\ndef");
    assert_eq!(runs.len(), 1);
    assert_eq!(runs[0].text, "abc\ndef");
}

#[test]
fn bare_cr_overwrites_line() {
    let runs = decode(b"abc\rXY");
    assert_eq!(runs.len(), 1);
    assert_eq!(runs[0].text, "XY");
}

#[test]
fn bare_cr_keeps_earlier_lines() {
    let runs = decode(b"one\ntwo\rZ");
    assert_eq!(runs[0].text, "one\nZ");
}

#[test]
fn sgr_segmentation() {
    let runs = decode(b"\x1b[1;31mhi\x1b[0mlo");
    assert_eq!(runs.len(), 2);
    assert_eq!(runs[0].text, "hi");
    assert_eq!(
        runs[0].style,
        TextStyle { fg_color: AnsiColor::Red, bg_color: None, bold: true, italic: false, underline: false }
    );
    assert_eq!(runs[1].text, "lo");
    assert_eq!(runs[1].style, plain());
}

#[test]
fn sgr_reset_clears_everything() {
    let runs = decode(b"\x1b[1;3;4;92;105mx\x1b[0my");
    assert_eq!(
        runs[0].style,
        TextStyle {
            fg_color: AnsiColor::BrightGreen,
            bg_color: Some(AnsiColor::BrightMagenta),
            bold: true,
            italic: true,
            underline: true,
        }
    );
    assert_eq!(runs[1].style, plain());
}

#[test]
fn sgr_empty_parameters_reset() {
    let mut p = TerminalPerformer::new();
    p.csi_dispatch(&vec![1, 44], &[], false, 'm');
    p.print('a');
    p.csi_dispatch(&vec![], &[], false, 'm');
    p.print('b');
    p.flush_current_text();
    let runs = p.take_output();
    assert_eq!(runs[0].style.bg_color, Some(AnsiColor::Blue));
    assert!(runs[0].style.bold);
    assert_eq!(runs[1].style, plain());
}

#[test]
fn sgr_clear_codes_and_unknown_codes() {
    let runs = decode(b"\x1b[1;3;4;33;41m\x1b[22;23;24;39;49;58ma");
    assert_eq!(runs[0].style, plain());
}

#[test]
fn backspace_removes_last_char() {
    let runs = decode(b"ab\x08c");
    assert_eq!(runs[0].text, "ac");
}

#[test]
fn backspace_on_empty_buffer() {
    let runs = decode(b"\x08\x08a");
    assert_eq!(runs[0].text, "a");
}

#[test]
fn tab_is_kept_and_other_controls_ignored() {
    let runs = decode(b"a\tb\x07c");
    assert_eq!(runs[0].text, "a\tbc");
}

#[test]
fn other_sequences_are_ignored() {
    let runs = decode(b"a\x1b[2J\x1b[10;5Hb\x1b]0;title\x07c\x1b7d");
    assert_eq!(runs.len(), 1);
    assert_eq!(runs[0].text, "abcd");
}

#[test]
fn malformed_bytes_are_consumed() {
    let mut bytes: Vec<u8> = Vec::new();
    for i in 0..2048u32 {
        bytes.push(((i * 7919 + 13) % 256) as u8);
    }
    bytes.extend_from_slice(b"\x1b[");
    let _ = decode(&bytes);
    let runs = decode(b"\x1b[;;;m\x1b[999999999mok");
    assert_eq!(runs[0].text, "ok");
}

#[test]
fn flush_keeps_style() {
    let mut p = TerminalPerformer::new();
    p.csi_dispatch(&vec![32], &[], false, 'm');
    p.print('a');
    p.flush_current_text();
    p.flush_current_text();
    p.print('b');
    p.flush_current_text();
    let runs = p.take_output();
    assert_eq!(runs.len(), 2);
    assert_eq!(runs[1].style.fg_color, AnsiColor::Green);
}

#[test]
fn end_to_end_runs() {
    let runs = decode(b"a\x1b[1;32mb\x1b[0mc\n");
    assert_eq!(runs.len(), 3);
    assert_eq!(runs[0].text, "a");
    assert_eq!(runs[0].style, plain());
    assert_eq!(runs[1].text, "b");
    assert_eq!(runs[1].style.fg_color, AnsiColor::Green);
    assert!(runs[1].style.bold);
    assert_eq!(runs[2].text, "c\n");
    assert_eq!(runs[2].style, plain());
}

#[test]
fn palette_rgb_values() {
    assert_eq!(AnsiColor::Red.to_rgb(), (205, 49, 49));
    assert_eq!(AnsiColor::BrightWhite.to_rgb(), (255, 255, 255));
    assert_eq!(AnsiColor::Default.to_rgb(), (229, 229, 229));
}

#[test]
fn batches_within_window_coalesce() {
    let mut decoder = ByteDecoder::new();
    let mut performer = TerminalPerformer::new();
    let mut pump = OutputPump::new(0, 10);
    feed(&mut decoder, &mut performer, b"\x1b[31mone\x1b[0m");
    assert!(pump.after_read(&mut performer, 3).is_none());
    feed(&mut decoder, &mut performer, b"two");
    let batch = pump.after_read(&mut performer, 12).unwrap();
    assert_eq!(batch.len(), 2);
    assert_eq!(batch[0].text, "one");
    assert_eq!(batch[0].style.fg_color, AnsiColor::Red);
    assert_eq!(batch[1].text, "two");
}

#[test]
fn batches_apart_stay_separate() {
    let mut decoder = ByteDecoder::new();
    let mut performer = TerminalPerformer::new();
    let mut pump = OutputPump::new(0, 10);
    feed(&mut decoder, &mut performer, b"one");
    let first = pump.after_read(&mut performer, 10).unwrap();
    feed(&mut decoder, &mut performer, b"two");
    assert!(pump.after_read(&mut performer, 15).is_none());
    let second = pump.after_read(&mut performer, 20).unwrap();
    assert_eq!(first.len(), 1);
    assert_eq!(first[0].text, "one");
    assert_eq!(second.len(), 1);
    assert_eq!(second[0].text, "two");
}

#[test]
fn eof_flushes_once() {
    let mut decoder = ByteDecoder::new();
    let mut performer = TerminalPerformer::new();
    let mut pump = OutputPump::new(0, 10);
    feed(&mut decoder, &mut performer, b"partial");
    assert!(pump.after_read(&mut performer, 1).is_none());
    let last = pump.at_eof(&mut performer).unwrap();
    assert_eq!(last.len(), 1);
    assert_eq!(last[0].text, "partial");
    assert!(pump.finished());
    feed(&mut decoder, &mut performer, b"late");
    assert!(pump.after_read(&mut performer, 100).is_none());
    assert!(pump.at_eof(&mut performer).is_none());
}

#[test]
fn eof_with_nothing_buffered() {
    let mut performer = TerminalPerformer::new();
    let mut pump = OutputPump::new(0, 10);
    assert!(pump.at_eof(&mut performer).is_none());
}

#[test]
fn view_lifecycle() {
    let mut view = TerminalView::new();
    assert!(view.needs_spawn());
    assert_eq!(view.startup_command(), "bash");
    let (program, args) = view.shell_command();
    assert_eq!(program, "sh");
    assert_eq!(args, vec!["-c".to_string(), "bash".to_string()]);
    view.attach();
    assert!(!view.needs_spawn());
    let runs = decode(b"a\x1b[1mb");
    let logged = view.receive(OutputLine::Styled(runs));
    assert_eq!(logged, "ab");
    let logged = view.receive(OutputLine::Stderr("oops\n".to_string()));
    assert_eq!(logged, "oops\n");
    assert_eq!(view.output().len(), 2);
    view.set_startup_command("ls -la".to_string());
    view.reset();
    assert!(view.needs_spawn());
    assert!(view.output().is_empty());
    assert_eq!(view.shell_command().1[1], "ls -la");
}

#[test]
fn view_input_submission() {
    let mut view = TerminalView::new();
    view.set_input("ls".to_string());
    assert_eq!(view.submit_input(), "ls\n");
    assert_eq!(view.input(), "");
    view.set_input("   ".to_string());
    assert_eq!(view.submit_input(), "\n");
    view.set_input("  x ".to_string());
    assert_eq!(view.submit_input(), "  x \n");
}

#[test]
fn spawn_failures_are_single_lines() {
    match spawn_failure(SpawnStage::OpenPty, "no pty", "bash") {
        OutputLine::Stderr(t) => assert_eq!(t, "Failed to create PTY: no pty\n"),
        _ => panic!("expected an error line"),
    }
    match spawn_failure(SpawnStage::SpawnChild, "not found", "frob") {
        OutputLine::Stderr(t) => assert_eq!(t, "Failed to spawn process: not found\nCommand was: sh -c 'frob'\n"),
        _ => panic!("expected an error line"),
    }
    match spawn_failure(SpawnStage::CloneReader, "busy", "x") {
        OutputLine::Stderr(t) => assert_eq!(t, "Failed to clone PTY reader: busy\n"),
        _ => panic!("expected an error line"),
    }
    match spawn_failure(SpawnStage::TakeWriter, "closed", "x") {
        OutputLine::Stderr(t) => assert_eq!(t, "Failed to get PTY writer: closed\n"),
        _ => panic!("expected an error line"),
    }
}

#[test]
fn tick_delivers_held_runs_before_the_next_write() {
    let mut decoder = ByteDecoder::new();
    let mut performer = TerminalPerformer::new();
    let mut pump = OutputPump::new(0, 10);
    // The first write lands inside the window of the start and is held.
    feed(&mut decoder, &mut performer, b"one");
    assert!(pump.after_read(&mut performer, 5).is_none());
    assert_eq!(pump.deadline_ms(), 10);
    // The window runs out with no read: the tick delivers the first write.
    let first = pump.on_tick(&mut performer, 10).unwrap();
    assert_eq!(first.len(), 1);
    assert_eq!(first[0].text, "one");
    assert_eq!(pump.deadline_ms(), 20);
    // The second write, more than a window later, goes out on its own.
    feed(&mut decoder, &mut performer, b"two");
    let second = pump.after_read(&mut performer, 20).unwrap();
    assert_eq!(second.len(), 1);
    assert_eq!(second[0].text, "two");
    assert!(pump.on_tick(&mut performer, 40).is_none());
}

#[test]
fn tick_inside_window_holds_runs() {
    let mut decoder = ByteDecoder::new();
    let mut performer = TerminalPerformer::new();
    let mut pump = OutputPump::new(100, 10);
    feed(&mut decoder, &mut performer, b"x");
    assert!(pump.on_tick(&mut performer, 105).is_none());
    feed(&mut decoder, &mut performer, b"y");
    let batch = pump.on_tick(&mut performer, 110).unwrap();
    assert_eq!(batch.len(), 1);
    assert_eq!(batch[0].text, "xy");
}

#[test]
fn decoder_handles_split_sequences() {
    let mut decoder = ByteDecoder::new();
    let mut performer = TerminalPerformer::new();
    feed(&mut decoder, &mut performer, b"a\x1b[3");
    feed(&mut decoder, &mut performer, b"1mb");
    performer.flush_current_text();
    let runs = performer.take_output();
    assert_eq!(runs.len(), 2);
    assert_eq!(runs[0].text, "a");
    assert_eq!(runs[1].text, "b");
    assert_eq!(runs[1].style.fg_color, AnsiColor::Red);
}
