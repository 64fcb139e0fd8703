use rcore_os::console::{level_update, parse_level, Console, LogLevel};
use std::sync::{Arc, Mutex};

struct TestConsole {
    output: Arc<Mutex<Vec<u8>>>,
}

impl Console for TestConsole {
    fn put_char(&self, c: u8) {
        self.output.lock().unwrap().push(c);
    }

    fn put_str(&self, s: &str) {
        self.output.lock().unwrap().extend_from_slice(s.as_bytes());
    }
}

struct CharOnlyConsole {
    output: Arc<Mutex<Vec<u8>>>,
}

impl Console for CharOnlyConsole {
    fn put_char(&self, c: u8) {
        self.output.lock().unwrap().push(c);
    }
}

#[test]
fn test_console_trait_basic() {
    let output = Arc::new(Mutex::new(Vec::new()));
    let console = TestConsole { output: output.clone() };

    console.put_char(b'A');
    console.put_char(b'B');
    assert_eq!(output.lock().unwrap().as_slice(), b"AB");
}

#[test]
fn test_console_put_str() {
    let output = Arc::new(Mutex::new(Vec::new()));
    let console = TestConsole { output: output.clone() };

    console.put_str("hello");
    assert_eq!(output.lock().unwrap().as_slice(), b"hello");
}

#[test]
fn default_put_str_writes_each_byte_in_order() {
    let output = Arc::new(Mutex::new(Vec::new()));
    let console = CharOnlyConsole { output: output.clone() };
    console.put_str("hé!");
    assert_eq!(output.lock().unwrap().as_slice(), "hé!".as_bytes());
}

#[test]
fn test_console_set_log_level() {
    assert_eq!(level_update(None), Some(LogLevel::Off));
    assert_eq!(level_update(Some("info")), Some(LogLevel::Info));
    assert_eq!(level_update(Some("debug")), Some(LogLevel::Debug));
    assert_eq!(level_update(Some("trace")), Some(LogLevel::Trace));
    assert_eq!(level_update(Some("warn")), Some(LogLevel::Warn));
    assert_eq!(level_update(Some("error")), Some(LogLevel::Error));
    assert_eq!(level_update(Some("invalid")), None);
}

#[test]
fn level_names_ignore_case() {
    assert_eq!(parse_level("INFO"), Some(LogLevel::Info));
    assert_eq!(parse_level("Warning"), Some(LogLevel::Warn));
    assert_eq!(parse_level("oFf"), Some(LogLevel::Off));
    assert_eq!(parse_level(""), None);
    assert_eq!(parse_level("infos"), None);
}
