use portable_pty::{native_pty_system, CommandBuilder, PtySize};
use std::io::Read;
use term_dashboard::decoder::ByteDecoder;
use term_dashboard::performer::TerminalPerformer;
use term_dashboard::pump::OutputPump;
use term_dashboard::style::{AnsiColor, StyledText, TextStyle};

fn run_under_pty(command: &str) -> Option<Vec<StyledText>> {
    let pair = match native_pty_system().openpty(PtySize { rows: 24, cols: 80, pixel_width: 0, pixel_height: 0 }) {
        Ok(p) => p,
        Err(e) => {
            println!("no pseudo-terminal here: {}", e);
            return None;
        }
    };
    let mut cmd = CommandBuilder::new("sh");
    cmd.arg("-c");
    cmd.arg(command);
    let mut child = pair.slave.spawn_command(cmd).expect("spawn sh");
    drop(pair.slave);
    let mut reader = pair.master.try_clone_reader().expect("reader");
    let mut decoder = ByteDecoder::new();
    let mut performer = TerminalPerformer::new();
    let mut pump = OutputPump::new(0, 10);
    let mut runs: Vec<StyledText> = Vec::new();
    let mut buffer = [0u8; 1024];
    loop {
        match reader.read(&mut buffer) {
            Ok(0) | Err(_) => {
                if let Some(batch) = pump.at_eof(&mut performer) {
                    runs.extend(batch);
                }
                break;
            }
            Ok(n) => {
                decoder.feed(&mut performer, &buffer[..n]);
                if let Some(batch) = pump.after_read(&mut performer, 0) {
                    runs.extend(batch);
                }
            }
        }
    }
    let _ = child.wait();
    Some(runs)
}

#[test]
fn printf_through_a_pty() {
    let Some(runs) = run_under_pty("printf 'a\\033[1;32mb\\033[0mc\\n'") else { return };
    assert_eq!(runs.len(), 3);
    assert_eq!(runs[0].text, "a");
    assert_eq!(runs[0].style, TextStyle::default());
    assert_eq!(runs[1].text, "b");
    assert_eq!(runs[1].style.fg_color, AnsiColor::Green);
    assert!(runs[1].style.bold);
    assert_eq!(runs[2].text, "c\n");
    assert_eq!(runs[2].style, TextStyle::default());
}
