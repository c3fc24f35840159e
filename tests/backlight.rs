use backlight::parse::{parse_signed_text, parse_unsigned_text};
use backlight::session::{Action, Event, Outcome, Session};
use backlight::update::{read_value, Backlight, Update};
use backlight::Error;

/// A device as the tests see it: its two attribute files, and whether a write
/// to it fails.
struct FakeDevice {
    brightness: String,
    max_brightness: String,
    write_fails: bool,
}

fn device(brightness: &str, max_brightness: &str) -> FakeDevice {
    FakeDevice {
        brightness: brightness.to_string(),
        max_brightness: max_brightness.to_string(),
        write_fails: false,
    }
}

/// Runs a session over the devices and returns every action it asked for.
fn drive(update: Update, devices: &mut [FakeDevice]) -> Vec<Action> {
    let mut session = Session::new(update, devices.len());
    let mut action = session.next_action();
    let mut log = vec![action];
    loop {
        let event = match action {
            Action::ReadBrightness(i) => Event::Contents(devices[i].brightness.clone()),
            Action::ReadMaxBrightness(i) => Event::Contents(devices[i].max_brightness.clone()),
            Action::WriteBrightness(i, v) => {
                if devices[i].write_fails {
                    Event::Failed(Error::Io)
                } else {
                    devices[i].brightness = v.to_string();
                    Event::Written
                }
            }
            Action::Finish(_) => return log,
        };
        action = session.step(&event);
        log.push(action);
    }
}

#[test]
fn absolute_in_range_is_written_exactly() {
    let u = Update::set("37").unwrap();
    assert_eq!(u.apply(90, 100), 37);
    assert_eq!(u.apply(0, 37), 37);
    assert_eq!(Update::set("0").unwrap().apply(5, 100), 0);
}

#[test]
fn relative_is_clamped_sum() {
    let u = Update::inc("15").unwrap();
    assert_eq!(u.apply(50, 100), 65);
    assert_eq!(u.apply(90, 100), 100);
    let d = Update::inc("-30").unwrap();
    assert_eq!(d.apply(20, 100), 0);
    assert_eq!(d.apply(40, 100), 10);
}

#[test]
fn absolute_set_twice_is_idempotent() {
    let u = Update::set("250").unwrap();
    let once = u.apply(10, 200);
    let twice = u.apply(once, 200);
    assert_eq!(once, 200);
    assert_eq!(twice, once);
}

#[test]
fn clamp_boundaries() {
    let max: u32 = 120;
    let above = Update::set(&(max as i64 + 100).to_string()).unwrap();
    assert_eq!(above.apply(30, max), max);
    assert_eq!(Update::set("-100").unwrap().apply(30, max), 0);
    assert_eq!(Update::dec("31").unwrap().apply(30, max), 0);
}

#[test]
fn parse_robustness() {
    assert_eq!(parse_signed_text("  42  "), Some(42));
    assert_eq!(Update::set("  42  "), Ok(Update { relative: false, value: 42 }));
    assert_eq!(Update::set("abc"), Err(Error::Parse));
    let neg = Update::set("-5").unwrap();
    assert_eq!(neg.value, -5);
    assert_eq!(neg.apply(10, 100), 0);
}

#[test]
fn parse_rejects_other_content() {
    assert_eq!(parse_signed_text(""), None);
    assert_eq!(parse_signed_text("   "), None);
    assert_eq!(parse_signed_text("-"), None);
    assert_eq!(parse_signed_text("+5"), None);
    assert_eq!(parse_signed_text("4 2"), None);
    assert_eq!(parse_signed_text("12a"), None);
    assert_eq!(parse_signed_text("--3"), None);
    assert_eq!(Update::inc("x"), Err(Error::Parse));
    assert_eq!(Update::dec(""), Err(Error::Parse));
}

#[test]
fn parse_signed_limits() {
    assert_eq!(parse_signed_text("2147483647"), Some(i32::MAX));
    assert_eq!(parse_signed_text("2147483648"), None);
    assert_eq!(parse_signed_text("-2147483648"), Some(i32::MIN));
    assert_eq!(parse_signed_text("-2147483649"), None);
    assert_eq!(parse_signed_text("99999999999999999999"), None);
    assert_eq!(parse_signed_text("-0"), Some(0));
    assert_eq!(parse_signed_text("007"), Some(7));
}

#[test]
fn dec_of_smallest_value_is_representable() {
    let u = Update::dec("-2147483648").unwrap();
    assert_eq!(u, Update { relative: true, value: 2147483648 });
    assert_eq!(u.apply(0, 4000), 4000);
}

#[test]
fn parse_trims_unicode_white_space() {
    assert_eq!(parse_signed_text("\t\n 8\r\n"), Some(8));
    assert_eq!(parse_signed_text("\u{a0}-8\u{3000}"), Some(-8));
    assert_eq!(parse_unsigned_text("\u{2003}19\u{85}"), Some(19));
}

#[test]
fn readings_are_unsigned() {
    assert_eq!(read_value("937\n"), Ok(937));
    assert_eq!(read_value("4294967295"), Ok(u32::MAX));
    assert_eq!(read_value("4294967296"), Err(Error::Parse));
    assert_eq!(read_value("-0"), Err(Error::Parse));
    assert_eq!(read_value("-1"), Err(Error::Parse));
    assert_eq!(read_value(""), Err(Error::Parse));
    assert_eq!(read_value("12 kHz"), Err(Error::Parse));
}

#[test]
fn backlight_reads_its_attributes() {
    let bl = Backlight::new("/sys/class/backlight/intel_backlight");
    assert_eq!(bl.root, "/sys/class/backlight/intel_backlight");
    assert_eq!(bl.get_brightness("120\n"), Ok(120));
    assert_eq!(bl.get_max_brightness(" 7500 \n"), Ok(7500));
    assert_eq!(bl.get_max_brightness("max"), Err(Error::Parse));
}

#[test]
fn dec_equals_inc_of_negation() {
    let d = Update::dec("10").unwrap();
    let i = Update::inc("-10").unwrap();
    assert_eq!(d, i);
    assert_eq!(d.apply(50, 100), 40);
    assert_eq!(i.apply(50, 100), 40);
}

#[test]
fn multi_device_increment() {
    let mut devices = [device("50\n", "100\n"), device("10\n", "20\n")];
    let log = drive(Update::inc("15").unwrap(), &mut devices);
    assert_eq!(devices[0].brightness, "65");
    assert_eq!(devices[1].brightness, "20");
    assert_eq!(
        log,
        vec![
            Action::ReadBrightness(0),
            Action::ReadMaxBrightness(0),
            Action::WriteBrightness(0, 65),
            Action::ReadBrightness(1),
            Action::ReadMaxBrightness(1),
            Action::WriteBrightness(1, 20),
            Action::Finish(Outcome::Completed),
        ]
    );
}

#[test]
fn failed_write_stops_before_next_device() {
    let mut devices = [device("50", "100"), device("10", "20")];
    devices[0].write_fails = true;
    let log = drive(Update::set("30").unwrap(), &mut devices);
    assert_eq!(
        log,
        vec![
            Action::ReadMaxBrightness(0),
            Action::WriteBrightness(0, 30),
            Action::Finish(Outcome::Failed(Error::Io)),
        ]
    );
    assert_eq!(devices[1].brightness, "10");
}

#[test]
fn absolute_request_does_not_read_brightness() {
    let mut devices = [device("garbage", "100")];
    let log = drive(Update::set("70").unwrap(), &mut devices);
    assert_eq!(devices[0].brightness, "70");
    assert_eq!(log.last(), Some(&Action::Finish(Outcome::Completed)));
}

#[test]
fn bad_reading_stops_the_session() {
    let mut devices = [device("fifty", "100"), device("10", "20")];
    let log = drive(Update::inc("1").unwrap(), &mut devices);
    assert_eq!(
        log,
        vec![Action::ReadBrightness(0), Action::Finish(Outcome::Failed(Error::Parse))]
    );
    let mut devices = [device("5", "")];
    let log = drive(Update::inc("1").unwrap(), &mut devices);
    assert_eq!(log.last(), Some(&Action::Finish(Outcome::Failed(Error::Parse))));
    assert_eq!(devices[0].brightness, "5");
}

#[test]
fn failed_read_stops_the_session() {
    let mut session = Session::new(Update::inc("3").unwrap(), 2);
    assert_eq!(session.next_action(), Action::ReadBrightness(0));
    let a = session.step(&Event::Failed(Error::Io));
    assert_eq!(a, Action::Finish(Outcome::Failed(Error::Io)));
    let again = session.step(&Event::Contents("4".to_string()));
    assert_eq!(again, Action::Finish(Outcome::Failed(Error::Io)));
}

#[test]
fn unexpected_event_is_an_io_error() {
    let mut session = Session::new(Update::set("3").unwrap(), 1);
    assert_eq!(session.step(&Event::Written), Action::Finish(Outcome::Failed(Error::Io)));
}

#[test]
fn no_devices_finishes_at_once() {
    let session = Session::new(Update::set("3").unwrap(), 0);
    assert_eq!(session.next_action(), Action::Finish(Outcome::Completed));
}

#[test]
fn enumeration_error_is_distinct() {
    assert_ne!(Error::Enumeration, Error::Io);
    assert_ne!(Error::Enumeration, Error::Parse);
}
