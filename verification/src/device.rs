//! Device automation rules: key codes for Android and the iOS simulator,
//! text escaping for `adb input text`, how failed automation commands are
//! reported, and the comparison of screenshots.

use vstd::prelude::*;
use crate::backend::{has_prefix, starts_with};
use crate::text::{str_eq, chars_of, lines, split_lines, split_whitespace, string_of, tokens, trim_chars, vviews, lemma_replaced_keeps_absent, lemma_replaced_removes, decimal, decimal_string, views, concat2, concat3, contains_seq, contains_str, replace_all, replaced, signed_decimal, signed_decimal_string, trim_str, trimmed};

verus! {

/// The platform a device command targets.
#[derive(Clone, Copy, Debug, PartialEq, Eq, Structural)]
pub enum DevicePlatform {
    Apple,
    Android,
}

/// Cross-platform key names for key events.
#[derive(Clone, Copy, Debug, PartialEq, Eq, Structural)]
pub enum KeyName {
    Home,
    Back,
    Enter,
    Tab,
    Escape,
    Delete,
    VolumeUp,
    VolumeDown,
    Power,
    Menu,
    Up,
    Down,
    Left,
    Right,
}

/// The Android key code sent with `adb shell input keyevent`.
pub open spec fn android_keycode_spec(key: KeyName) -> Seq<char> {
    match key {
        KeyName::Home => "3"@,
        KeyName::Back => "4"@,
        KeyName::Enter => "66"@,
        KeyName::Tab => "61"@,
        KeyName::Escape => "111"@,
        KeyName::Delete => "67"@,
        KeyName::VolumeUp => "24"@,
        KeyName::VolumeDown => "25"@,
        KeyName::Power => "26"@,
        KeyName::Menu => "82"@,
        KeyName::Up => "19"@,
        KeyName::Down => "20"@,
        KeyName::Left => "21"@,
        KeyName::Right => "22"@,
    }
}

/// The Android key code for a key.
pub fn android_keycode(key: KeyName) -> (r: &'static str)
    ensures
        r@ == android_keycode_spec(key),
{
    match key {
        KeyName::Home => "3",
        KeyName::Back => "4",
        KeyName::Enter => "66",
        KeyName::Tab => "61",
        KeyName::Escape => "111",
        KeyName::Delete => "67",
        KeyName::VolumeUp => "24",
        KeyName::VolumeDown => "25",
        KeyName::Power => "26",
        KeyName::Menu => "82",
        KeyName::Up => "19",
        KeyName::Down => "20",
        KeyName::Left => "21",
        KeyName::Right => "22",
    }
}

/// The `idb ui` command and argument for a key on the iOS simulator: a
/// hardware button or a keyboard key code; none for keys iOS lacks.
pub open spec fn idb_key_spec(key: KeyName) -> Option<(Seq<char>, Seq<char>)> {
    match key {
        KeyName::Home => Some(("button"@, "HOME"@)),
        KeyName::Back => None,
        KeyName::Enter => Some(("key"@, "13"@)),
        KeyName::Tab => Some(("key"@, "9"@)),
        KeyName::Escape => Some(("key"@, "27"@)),
        KeyName::Delete => Some(("key"@, "127"@)),
        KeyName::VolumeUp => Some(("button"@, "VOLUME_UP"@)),
        KeyName::VolumeDown => Some(("button"@, "VOLUME_DOWN"@)),
        KeyName::Power => Some(("button"@, "LOCK"@)),
        KeyName::Menu => None,
        KeyName::Up => Some(("key"@, "38"@)),
        KeyName::Down => Some(("key"@, "40"@)),
        KeyName::Left => Some(("key"@, "37"@)),
        KeyName::Right => Some(("key"@, "39"@)),
    }
}

/// The message for a key the iOS simulator does not have.
pub open spec fn unsupported_ios_key_message(key: KeyName) -> Seq<char> {
    if key == KeyName::Back {
        "The 'back' key is not supported on iOS.\niOS does not have a hardware back button.\nUse a swipe gesture instead: water device swipe --x1 0 --y1 400 --x2 200 --y2 400"@
    } else {
        "The 'menu' key is not supported on iOS.\nThis key is Android-only."@
    }
}

/// The `idb ui` command and argument for a key, or the reason it cannot be sent.
pub fn idb_key(key: KeyName) -> (r: Result<(&'static str, &'static str), &'static str>)
    ensures
        idb_key_spec(key) matches Some(p) ==> (r matches Ok(q) && q.0@ == p.0 && q.1@ == p.1),
        idb_key_spec(key) is None ==> (r matches Err(m) && m@ == unsupported_ios_key_message(key)),
{
    match key {
        KeyName::Home => Ok(("button", "HOME")),
        KeyName::Back => Err("The 'back' key is not supported on iOS.\niOS does not have a hardware back button.\nUse a swipe gesture instead: water device swipe --x1 0 --y1 400 --x2 200 --y2 400"),
        KeyName::Enter => Ok(("key", "13")),
        KeyName::Tab => Ok(("key", "9")),
        KeyName::Escape => Ok(("key", "27")),
        KeyName::Delete => Ok(("key", "127")),
        KeyName::VolumeUp => Ok(("button", "VOLUME_UP")),
        KeyName::VolumeDown => Ok(("button", "VOLUME_DOWN")),
        KeyName::Power => Ok(("button", "LOCK")),
        KeyName::Menu => Err("The 'menu' key is not supported on iOS.\nThis key is Android-only."),
        KeyName::Up => Ok(("key", "38")),
        KeyName::Down => Ok(("key", "40")),
        KeyName::Left => Ok(("key", "37")),
        KeyName::Right => Ok(("key", "39")),
    }
}

/// Text escaped for `adb shell input text`: backslashes doubled, spaces
/// written `%s`, and `&`, `<`, `>`, `'` and `"` preceded by a backslash.
pub open spec fn adb_escaped(text: Seq<char>) -> Seq<char> {
    let t1 = replaced(text, "\\"@, "\\\\"@);
    let t2 = replaced(t1, " "@, "%s"@);
    let t3 = replaced(t2, "&"@, "\\&"@);
    let t4 = replaced(t3, "<"@, "\\<"@);
    let t5 = replaced(t4, ">"@, "\\>"@);
    let t6 = replaced(t5, "'"@, "\\'"@);
    replaced(t6, "\""@, "\\\""@)
}

/// Escapes text for `adb shell input text`.
pub fn escape_adb_text(text: &str) -> (r: String)
    ensures
        r@ == adb_escaped(text@),
{
    proof {
        reveal_strlit("\\");
        reveal_strlit(" ");
        reveal_strlit("&");
        reveal_strlit("<");
        reveal_strlit(">");
        reveal_strlit("'");
        reveal_strlit("\"");
    }
    let t = replace_all(text, "\\", "\\\\");
    let t = replace_all(t.as_str(), " ", "%s");
    let t = replace_all(t.as_str(), "&", "\\&");
    let t = replace_all(t.as_str(), "<", "\\<");
    let t = replace_all(t.as_str(), ">", "\\>");
    let t = replace_all(t.as_str(), "'", "\\'");
    replace_all(t.as_str(), "\"", "\\\"")
}

/// The error reported for a failed automation command, given its trimmed
/// error output: two known conditions get their own advice, otherwise the
/// output or the exit code (`-1` when the process had none) is quoted.
pub open spec fn failure_message(
    known: Seq<(Seq<Seq<char>>, Seq<char>)>,
    stderr: Seq<char>,
    action: Seq<char>,
    code: Option<i32>,
) -> Seq<char>
    decreases known.len(),
{
    if known.len() > 0 {
        if exists|k: int| 0 <= k < known[0].0.len() && contains_seq(stderr, #[trigger] known[0].0[k]) {
            known[0].1
        } else {
            failure_message(known.skip(1), stderr, action, code)
        }
    } else if stderr.len() > 0 {
        "Failed to perform "@ + action + ": "@ + stderr
    } else {
        "Failed to perform "@ + action + " (exit code "@ + signed_decimal(match code { Some(c) => c as int, None => -1 }) + ")."@
    }
}

/// The conditions `adb` reports that get their own advice.
pub open spec fn adb_known_failures() -> Seq<(Seq<Seq<char>>, Seq<char>)> {
    seq![
        (seq!["device offline"@], "Device is offline.\nCheck the USB connection or restart the device."@),
        (seq!["device unauthorized"@], "Device is unauthorized.\nAccept the USB debugging prompt on the device."@),
    ]
}

/// The conditions `idb` reports that get their own advice.
pub open spec fn idb_known_failures() -> Seq<(Seq<Seq<char>>, Seq<char>)> {
    seq![
        (seq!["not booted"@, "not running"@], "Simulator is not booted.\nStart the simulator first with `water run --device <name>`."@),
        (seq!["not found"@], "Simulator not found.\nRun `water devices` to see available simulators."@),
    ]
}

fn generic_failure(stderr: &str, action: &str, code: Option<i32>) -> (m: String)
    ensures
        m@ == failure_message(Seq::empty(), stderr@, action@, code),
{
    if stderr.unicode_len() > 0 {
        let mut m = String::from_str("Failed to perform ");
        m.append(action);
        m.append(": ");
        m.append(stderr);
        m
    } else {
        let c: i64 = match code {
            Some(c) => c as i64,
            None => -1,
        };
        let digits = signed_decimal_string(c);
        let mut m = String::from_str("Failed to perform ");
        m.append(action);
        m.append(" (exit code ");
        m.append(digits.as_str());
        m.append(").");
        m
    }
}

/// Checks the outcome of an `adb` command: success, or the error to report.
pub fn check_adb_output(success: bool, stderr: &str, action: &str, code: Option<i32>) -> (r: Result<(), String>)
    ensures
        success ==> r is Ok,
        !success ==> (r matches Err(m) && m@ == failure_message(adb_known_failures(), trimmed(stderr@), action@, code)),
{
    if success {
        return Ok(());
    }
    let err = trim_str(stderr);
    proof {
        reveal_with_fuel(failure_message, 3);
    }
    let ghost known = adb_known_failures();
    assert(known.skip(1).skip(1) =~= Seq::<(Seq<Seq<char>>, Seq<char>)>::empty());
    assert(known[0].0 =~= seq!["device offline"@]);
    assert(known.skip(1)[0].0 =~= seq!["device unauthorized"@]);
    if contains_str(err.as_str(), "device offline") {
        assert(contains_seq(err@, known[0].0[0]));
        Err(String::from_str("Device is offline.\nCheck the USB connection or restart the device."))
    } else if contains_str(err.as_str(), "device unauthorized") {
        assert(contains_seq(err@, known.skip(1)[0].0[0]));
        Err(String::from_str("Device is unauthorized.\nAccept the USB debugging prompt on the device."))
    } else {
        Err(generic_failure(err.as_str(), action, code))
    }
}

/// Checks the outcome of an `idb` command: success, or the error to report.
pub fn check_idb_output(success: bool, stderr: &str, action: &str, code: Option<i32>) -> (r: Result<(), String>)
    ensures
        success ==> r is Ok,
        !success ==> (r matches Err(m) && m@ == failure_message(idb_known_failures(), trimmed(stderr@), action@, code)),
{
    if success {
        return Ok(());
    }
    let err = trim_str(stderr);
    proof {
        reveal_with_fuel(failure_message, 3);
    }
    let ghost known = idb_known_failures();
    assert(known.skip(1).skip(1) =~= Seq::<(Seq<Seq<char>>, Seq<char>)>::empty());
    assert(known[0].0 =~= seq!["not booted"@, "not running"@]);
    assert(known.skip(1)[0].0 =~= seq!["not found"@]);
    let booted = contains_str(err.as_str(), "not booted");
    let running = contains_str(err.as_str(), "not running");
    if booted || running {
        assert(contains_seq(err@, known[0].0[0]) || contains_seq(err@, known[0].0[1]));
        Err(String::from_str("Simulator is not booted.\nStart the simulator first with `water run --device <name>`."))
    } else if contains_str(err.as_str(), "not found") {
        assert(contains_seq(err@, known.skip(1)[0].0[0]));
        Err(String::from_str("Simulator not found.\nRun `water devices` to see available simulators."))
    } else {
        Err(generic_failure(err.as_str(), action, code))
    }
}


/// The device subcommands.
pub enum DeviceCommands {
    Capture(CaptureArgs),
    Tap(TapArgs),
    Swipe(SwipeArgs),
    Type(TypeArgs),
    Key(KeyArgs),
}

/// The arguments of `device capture`.
pub struct CaptureArgs {
    pub device: String,
    pub platform: Option<DevicePlatform>,
    pub output: Option<String>,
}

/// The arguments of `device tap`.
pub struct TapArgs {
    pub x: u32,
    pub y: u32,
    pub device: String,
    pub platform: Option<DevicePlatform>,
    /// Hold for this many milliseconds.
    pub duration: Option<u64>,
    pub diff: Option<String>,
}

/// The arguments of `device swipe`.
pub struct SwipeArgs {
    pub x1: u32,
    pub y1: u32,
    pub x2: u32,
    pub y2: u32,
    pub device: String,
    pub platform: Option<DevicePlatform>,
    pub duration: u64,
    pub diff: Option<String>,
}

/// The arguments of `device type`.
pub struct TypeArgs {
    pub text: String,
    pub device: String,
    pub platform: Option<DevicePlatform>,
    pub diff: Option<String>,
}

/// The arguments of `device key`.
pub struct KeyArgs {
    pub key: KeyName,
    pub device: String,
    pub platform: Option<DevicePlatform>,
    pub diff: Option<String>,
}

/// Where a device screenshot was saved.
pub struct CaptureReport {
    pub device: String,
    pub platform: String,
    pub output_path: String,
}

/// The `adb` arguments of a tap: a swipe in place for a hold longer than
/// 100 ms, a tap otherwise.
pub open spec fn adb_tap_args(serial: Seq<char>, x: u32, y: u32, duration: Option<u64>) -> Seq<Seq<char>> {
    match duration {
        Some(d) => if d > 100 {
            seq!["-s"@, serial, "shell"@, "input"@, "swipe"@, decimal(x as nat), decimal(y as nat), decimal(x as nat), decimal(y as nat), decimal(d as nat)]
        } else {
            seq!["-s"@, serial, "shell"@, "input"@, "tap"@, decimal(x as nat), decimal(y as nat)]
        },
        None => seq!["-s"@, serial, "shell"@, "input"@, "tap"@, decimal(x as nat), decimal(y as nat)],
    }
}

/// The `adb` arguments of a tap on a device.
pub fn tap_android_args(serial: &str, x: u32, y: u32, duration: Option<u64>) -> (r: Vec<String>)
    ensures
        views(r@) == adb_tap_args(serial@, x, y, duration),
{
    let mut r: Vec<String> = Vec::new();
    r.push(String::from_str("-s"));
    r.push(String::from_str(serial));
    r.push(String::from_str("shell"));
    r.push(String::from_str("input"));
    let long_press = match duration {
        Some(d) => d > 100,
        None => false,
    };
    if long_press {
        let d = match duration { Some(d) => d, None => 0 };
        r.push(String::from_str("swipe"));
        r.push(decimal_string(x as u64));
        r.push(decimal_string(y as u64));
        r.push(decimal_string(x as u64));
        r.push(decimal_string(y as u64));
        r.push(decimal_string(d));
    } else {
        r.push(String::from_str("tap"));
        r.push(decimal_string(x as u64));
        r.push(decimal_string(y as u64));
    }
    assert(views(r@) =~= adb_tap_args(serial@, x, y, duration));
    r
}

/// The `adb` arguments of a swipe on a device.
pub fn swipe_android_args(serial: &str, x1: u32, y1: u32, x2: u32, y2: u32, duration: u64) -> (r: Vec<String>)
    ensures
        views(r@) == seq!["-s"@, serial@, "shell"@, "input"@, "swipe"@, decimal(x1 as nat), decimal(y1 as nat),
            decimal(x2 as nat), decimal(y2 as nat), decimal(duration as nat)],
{
    let mut r: Vec<String> = Vec::new();
    r.push(String::from_str("-s"));
    r.push(String::from_str(serial));
    r.push(String::from_str("shell"));
    r.push(String::from_str("input"));
    r.push(String::from_str("swipe"));
    r.push(decimal_string(x1 as u64));
    r.push(decimal_string(y1 as u64));
    r.push(decimal_string(x2 as u64));
    r.push(decimal_string(y2 as u64));
    r.push(decimal_string(duration));
    assert(views(r@) =~= seq!["-s"@, serial@, "shell"@, "input"@, "swipe"@, decimal(x1 as nat), decimal(y1 as nat),
        decimal(x2 as nat), decimal(y2 as nat), decimal(duration as nat)]);
    r
}

/// The `adb` arguments that type text on a device, escaped for its shell.
pub fn type_android_args(serial: &str, text: &str) -> (r: Vec<String>)
    ensures
        views(r@) == seq!["-s"@, serial@, "shell"@, "input"@, "text"@, adb_escaped(text@)],
{
    let mut r: Vec<String> = Vec::new();
    r.push(String::from_str("-s"));
    r.push(String::from_str(serial));
    r.push(String::from_str("shell"));
    r.push(String::from_str("input"));
    r.push(String::from_str("text"));
    r.push(escape_adb_text(text));
    assert(views(r@) =~= seq!["-s"@, serial@, "shell"@, "input"@, "text"@, adb_escaped(text@)]);
    r
}

/// The `adb` arguments that send a key to a device.
pub fn key_android_args(serial: &str, key: KeyName) -> (r: Vec<String>)
    ensures
        views(r@) == seq!["-s"@, serial@, "shell"@, "input"@, "keyevent"@, android_keycode_spec(key)],
{
    let mut r: Vec<String> = Vec::new();
    r.push(String::from_str("-s"));
    r.push(String::from_str(serial));
    r.push(String::from_str("shell"));
    r.push(String::from_str("input"));
    r.push(String::from_str("keyevent"));
    r.push(String::from_str(android_keycode(key)));
    assert(views(r@) =~= seq!["-s"@, serial@, "shell"@, "input"@, "keyevent"@, android_keycode_spec(key)]);
    r
}


/// Escaped text never holds a raw space, so `adb shell input text` gets the
/// text as a single argument.
pub proof fn lemma_adb_escaped_has_no_space(text: Seq<char>)
    ensures
        !adb_escaped(text).contains(' '),
{
    reveal_strlit(" ");
    reveal_strlit("%s");
    reveal_strlit("\\&");
    reveal_strlit("\\<");
    reveal_strlit("\\>");
    reveal_strlit("\\'");
    reveal_strlit("\\\"");
    let t1 = replaced(text, "\\"@, "\\\\"@);
    assert(" "@ =~= seq![' ']);
    lemma_replaced_removes(t1, ' ', "%s"@);
    let t2 = replaced(t1, " "@, "%s"@);
    lemma_replaced_keeps_absent(t2, "&"@, "\\&"@, ' ');
    let t3 = replaced(t2, "&"@, "\\&"@);
    lemma_replaced_keeps_absent(t3, "<"@, "\\<"@, ' ');
    let t4 = replaced(t3, "<"@, "\\<"@);
    lemma_replaced_keeps_absent(t4, ">"@, "\\>"@, ' ');
    let t5 = replaced(t4, ">"@, "\\>"@);
    lemma_replaced_keeps_absent(t5, "'"@, "\\'"@, ' ');
    let t6 = replaced(t5, "'"@, "\\'"@);
    lemma_replaced_keeps_absent(t6, "\""@, "\\\""@, ' ');
}

fn exit_code_text(code: Option<i32>) -> (r: String)
    ensures
        r@ == signed_decimal(match code { Some(c) => c as int, None => -1 }),
{
    let c: i64 = match code {
        Some(c) => c as i64,
        None => -1,
    };
    signed_decimal_string(c)
}

/// The error for a failed simulator screenshot, given the trimmed error
/// output of `simctl`.
pub open spec fn apple_capture_error_text(device: Seq<char>, stderr: Seq<char>, code: Option<i32>) -> Seq<char> {
    if contains_seq(stderr, "Invalid device"@) || contains_seq(stderr, "No matching device"@) {
        "Device '"@ + device + "' is not available.\nThe simulator may not be booted. Start it with `water run --device "@ + device + "`."@
    } else if contains_seq(stderr, "Unable to"@) {
        "Unable to capture screenshot: "@ + stderr + "\nEnsure the simulator is fully booted and responsive."@
    } else if stderr.len() > 0 {
        "Screenshot capture failed: "@ + stderr
    } else {
        "Screenshot capture failed with exit code "@ + signed_decimal(match code { Some(c) => c as int, None => -1 })
            + ".\nEnsure the simulator is booted and responsive."@
    }
}

/// Explains a failed simulator screenshot.
pub fn apple_capture_error(device: &str, stderr: &str, code: Option<i32>) -> (r: String)
    ensures
        r@ == apple_capture_error_text(device@, trimmed(stderr@), code),
{
    let e = trim_str(stderr);
    if contains_str(e.as_str(), "Invalid device") || contains_str(e.as_str(), "No matching device") {
        let mut m = String::from_str("Device '");
        m.append(device);
        m.append("' is not available.\nThe simulator may not be booted. Start it with `water run --device ");
        m.append(device);
        m.append("`.");
        m
    } else if contains_str(e.as_str(), "Unable to") {
        let mut m = String::from_str("Unable to capture screenshot: ");
        m.append(e.as_str());
        m.append("\nEnsure the simulator is fully booted and responsive.");
        m
    } else if e.unicode_len() > 0 {
        let mut m = String::from_str("Screenshot capture failed: ");
        m.append(e.as_str());
        m
    } else {
        let mut m = String::from_str("Screenshot capture failed with exit code ");
        m.append(exit_code_text(code).as_str());
        m.append(".\nEnsure the simulator is booted and responsive.");
        m
    }
}

/// The error for a failed Android screenshot, given the trimmed error
/// output of `adb`.
pub open spec fn android_capture_error_text(name: Seq<char>, stderr: Seq<char>, code: Option<i32>) -> Seq<char> {
    if contains_seq(stderr, "device offline"@) {
        "Device '"@ + name + "' is offline.\nCheck the USB connection or restart the device."@
    } else if contains_seq(stderr, "device unauthorized"@) {
        "Device '"@ + name + "' is unauthorized.\nAccept the USB debugging prompt on the device."@
    } else if contains_seq(stderr, "not found"@) {
        "Device '"@ + name + "' not found.\nThe device may have been disconnected. Run `water devices` to check."@
    } else if stderr.len() > 0 {
        "Screenshot capture failed: "@ + stderr
    } else {
        "Screenshot capture failed with exit code "@ + signed_decimal(match code { Some(c) => c as int, None => -1 }) + "."@
    }
}

/// Explains a failed Android screenshot.
pub fn android_capture_error(name: &str, stderr: &str, code: Option<i32>) -> (r: String)
    ensures
        r@ == android_capture_error_text(name@, trimmed(stderr@), code),
{
    let e = trim_str(stderr);
    if contains_str(e.as_str(), "device offline") {
        concat3("Device '", name, "' is offline.\nCheck the USB connection or restart the device.")
    } else if contains_str(e.as_str(), "device unauthorized") {
        concat3("Device '", name, "' is unauthorized.\nAccept the USB debugging prompt on the device.")
    } else if contains_str(e.as_str(), "not found") {
        concat3("Device '", name, "' not found.\nThe device may have been disconnected. Run `water devices` to check.")
    } else if e.unicode_len() > 0 {
        concat2("Screenshot capture failed: ", e.as_str())
    } else {
        let mut m = String::from_str("Screenshot capture failed with exit code ");
        m.append(exit_code_text(code).as_str());
        m.append(".");
        m
    }
}

/// The serial of a running emulator on one line of `adb devices -l`: the
/// line's first word when it starts with `emulator-` and a state follows.
pub open spec fn emulator_serial_of(line: Seq<char>) -> Option<Seq<char>> {
    let words = tokens(trimmed(line));
    if words.len() >= 2 && starts_with(words[0], "emulator-"@) { Some(words[0]) } else { None }
}

/// The emulator serials among the given lines, in order.
pub open spec fn emulator_serials_in(ls: Seq<Seq<char>>) -> Seq<Seq<char>>
    decreases ls.len(),
{
    if ls.len() == 0 {
        Seq::empty()
    } else {
        match emulator_serial_of(ls.last()) {
            Some(s) => emulator_serials_in(ls.drop_last()).push(s),
            None => emulator_serials_in(ls.drop_last()),
        }
    }
}

/// The lines of a listing after its heading line.
pub open spec fn after_heading(ls: Seq<Seq<char>>) -> Seq<Seq<char>> {
    if ls.len() == 0 { Seq::empty() } else { ls.skip(1) }
}

/// The serials of the running emulators listed by `adb devices -l`, after
/// its heading line.
pub fn running_emulator_serials(output: &str) -> (r: Vec<String>)
    ensures
        views(r@) == emulator_serials_in(after_heading(lines(output@))),
{
    let chars = chars_of(output);
    let ls = split_lines(&chars);
    let ghost body = vviews(ls@).skip(1);
    let prefix = chars_of("emulator-");
    let mut r: Vec<String> = Vec::new();
    if ls.len() == 0 {
        return r;
    }
    let mut i: usize = 1;
    assert(body.take(0) =~= Seq::<Seq<char>>::empty());
    while i < ls.len()
        invariant
            1 <= i <= ls@.len(),
            body == vviews(ls@).skip(1),
            prefix@ == "emulator-"@,
            views(r@) == emulator_serials_in(body.take(i - 1)),
        decreases ls@.len() - i,
    {
        proof {
            assert(body.take(i as int).drop_last() =~= body.take(i - 1));
            assert(body.take(i as int).last() == ls@[i as int]@);
        }
        let t = trim_chars(ls[i].as_slice());
        let words = split_whitespace(&t);
        if words.len() >= 2 && has_prefix(&words[0], &prefix) {
            let ghost before = views(r@);
            r.push(string_of(&words[0]));
            assert(views(r@) =~= before.push(words@[0]@));
        }
        i += 1;
    }
    assert(body.take(i - 1) =~= body);
    r
}

/// The AVD name an emulator reports: the first line of the trimmed output,
/// or nothing.
pub fn reported_avd_name(output: &str) -> (r: String)
    ensures
        r@ == (if lines(trimmed(output@)).len() > 0 { lines(trimmed(output@))[0] } else { Seq::empty() }),
{
    let t = trim_str(output);
    let chars = chars_of(t.as_str());
    let ls = split_lines(&chars);
    if ls.len() > 0 { string_of(&ls[0]) } else { String::new() }
}

/// The serial on one line of `adb devices` when the device is ready: the
/// first word, when the second is `device`.
pub open spec fn ready_serial_of(line: Seq<char>) -> Option<Seq<char>> {
    let words = tokens(line);
    if words.len() >= 2 && words[1] == "device"@ { Some(words[0]) } else { None }
}

/// The ready serials among the given lines, in order.
pub open spec fn ready_serials_in(ls: Seq<Seq<char>>) -> Seq<Seq<char>>
    decreases ls.len(),
{
    if ls.len() == 0 {
        Seq::empty()
    } else {
        match ready_serial_of(ls.last()) {
            Some(s) => ready_serials_in(ls.drop_last()).push(s),
            None => ready_serials_in(ls.drop_last()),
        }
    }
}

/// The serials of the ready devices listed by `adb devices`, after its
/// heading line.
pub fn ready_device_serials(output: &str) -> (r: Vec<String>)
    ensures
        views(r@) == ready_serials_in(after_heading(lines(output@))),
{
    let chars = chars_of(output);
    let ls = split_lines(&chars);
    let ghost body = vviews(ls@).skip(1);
    let mut r: Vec<String> = Vec::new();
    if ls.len() == 0 {
        return r;
    }
    let mut i: usize = 1;
    assert(body.take(0) =~= Seq::<Seq<char>>::empty());
    while i < ls.len()
        invariant
            1 <= i <= ls@.len(),
            body == vviews(ls@).skip(1),
            views(r@) == ready_serials_in(body.take(i - 1)),
        decreases ls@.len() - i,
    {
        proof {
            assert(body.take(i as int).drop_last() =~= body.take(i - 1));
            assert(body.take(i as int).last() == ls@[i as int]@);
        }
        let words = split_whitespace(ls[i].as_slice());
        if words.len() >= 2 && str_eq(string_of(&words[1]).as_str(), "device") {
            let ghost before = views(r@);
            r.push(string_of(&words[0]));
            assert(views(r@) =~= before.push(words@[0]@));
        }
        i += 1;
    }
    assert(body.take(i - 1) =~= body);
    r
}

} // verus!
