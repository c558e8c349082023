use ukernel::cpu::{no_vm_satp, SatpMode};
use ukernel::io::error::Error;
use ukernel::io::read::Read;
use ukernel::io::write::Write;
use ukernel::uart::logger::{LogLevel, UartLogger};
use ukernel::uart::ns16550a::{setup, split_divisor, BAUD_DIVISOR};

#[test]
fn logger_enables_info_and_more_severe() {
    let l = UartLogger;
    assert!(l.enabled(LogLevel::Error));
    assert!(l.enabled(LogLevel::Warn));
    assert!(l.enabled(LogLevel::Info));
    assert!(!l.enabled(LogLevel::Debug));
    assert!(!l.enabled(LogLevel::Trace));
}

#[test]
fn logger_line_with_line_number() {
    let l = UartLogger;
    assert_eq!(
        l.log(LogLevel::Info, Some("src/lib.rs"), Some(88), "kmain initialising"),
        Some(String::from("[INFO]|[src/lib.rs:88]| kmain initialising\r\n"))
    );
    assert_eq!(
        l.log(LogLevel::Warn, Some("a.rs"), Some(0), "w"),
        Some(String::from("[WARN]|[a.rs:0]| w\r\n"))
    );
}

#[test]
fn logger_line_without_line_number_or_file() {
    let l = UartLogger;
    assert_eq!(
        l.log(LogLevel::Error, Some("x.rs"), None, "bad"),
        Some(String::from("[ERROR]|[x.rs]| bad\r\n"))
    );
    assert_eq!(
        l.log(LogLevel::Error, None, Some(3), "bad"),
        Some(String::from("[ERROR]|[UNKNOWN:3]| bad\r\n"))
    );
}

#[test]
fn logger_drops_verbose_records() {
    let l = UartLogger;
    assert_eq!(l.log(LogLevel::Debug, Some("x.rs"), Some(1), "d"), None);
    assert_eq!(l.log(LogLevel::Trace, None, None, "t"), None);
    l.flush();
}

#[test]
fn level_names() {
    assert_eq!(LogLevel::Error.as_str(), "ERROR");
    assert_eq!(LogLevel::Warn.as_str(), "WARN");
    assert_eq!(LogLevel::Info.as_str(), "INFO");
    assert_eq!(LogLevel::Debug.as_str(), "DEBUG");
    assert_eq!(LogLevel::Trace.as_str(), "TRACE");
}

#[test]
fn uart_setup_values() {
    let s = setup();
    assert_eq!(s.lcr, 0x03);
    assert_eq!(s.fcr, 0x01);
    assert_eq!(s.ier, 0x01);
    assert_eq!(s.divisor_least, 0x50);
    assert_eq!(s.divisor_most, 0x02);
    assert_eq!(BAUD_DIVISOR, 592);
}

#[test]
fn divisor_split_recombines() {
    assert_eq!(split_divisor(0xabcd), (0xcd, 0xab));
    assert_eq!(split_divisor(0), (0, 0));
    let (lo, hi) = split_divisor(u16::MAX);
    assert_eq!(lo + 256 * hi, u16::MAX);
}

#[test]
fn satp_mode_encodings() {
    assert_eq!(SatpMode::Bare.code(), 0);
    assert_eq!(SatpMode::Sv39.code(), 8);
    assert_eq!(SatpMode::Sv48.code(), 9);
    assert_eq!(SatpMode::Bare.satp_bits(), 0);
    assert_eq!(SatpMode::Sv39.satp_bits(), 0x8000_0000_0000_0000);
    assert_eq!(SatpMode::Sv48.satp_bits(), 0x9000_0000_0000_0000);
    assert_eq!(no_vm_satp(), 0);
}

struct Nothing;
impl Read for Nothing {}
impl Write for Nothing {}

#[test]
fn default_io_reads_and_writes_nothing() {
    let mut n = Nothing;
    let mut buf = [7u8; 4];
    assert_eq!(n.read(&mut buf), Ok(0));
    assert_eq!(buf, [7u8; 4]);
    assert_eq!(n.one(), None);
    assert_eq!(n.write(&[1, 2, 3]), Ok(0));
    let _e: Error = Error;
}

struct Counted(u32);
impl Read for Counted {}
impl Write for Counted {}

#[test]
fn default_io_leaves_the_device_alone() {
    let mut c = Counted(7);
    let mut buf = [1u8; 2];
    assert_eq!(c.read(&mut buf), Ok(0));
    assert_eq!(c.one(), None);
    assert_eq!(c.write(&buf), Ok(0));
    assert_eq!(c.0, 7);
}
