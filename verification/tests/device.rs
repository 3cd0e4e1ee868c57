use waterui_cli::device::{
    android_keycode, check_adb_output, check_idb_output, escape_adb_text, idb_key, key_android_args,
    swipe_android_args, tap_android_args, type_android_args, KeyName,
};
use waterui_cli::diff::{compute_diff, generate_diff_image, ChangedRect, Rgba, RgbaFrame};

fn px(r: u8, g: u8, b: u8, a: u8) -> Rgba {
    Rgba { r, g, b, a }
}

#[test]
fn android_keycodes() {
    assert_eq!(android_keycode(KeyName::Home), "3");
    assert_eq!(android_keycode(KeyName::Enter), "66");
    assert_eq!(android_keycode(KeyName::Escape), "111");
    assert_eq!(android_keycode(KeyName::Right), "22");
}

#[test]
fn idb_keys_and_unsupported_keys() {
    assert_eq!(idb_key(KeyName::Home), Ok(("button", "HOME")));
    assert_eq!(idb_key(KeyName::Delete), Ok(("key", "127")));
    assert_eq!(idb_key(KeyName::Power), Ok(("button", "LOCK")));
    assert!(idb_key(KeyName::Back).unwrap_err().starts_with("The 'back' key is not supported on iOS."));
    assert_eq!(idb_key(KeyName::Menu), Err("The 'menu' key is not supported on iOS.\nThis key is Android-only."));
}

#[test]
fn adb_text_is_escaped() {
    assert_eq!(escape_adb_text("a b"), "a%sb");
    assert_eq!(escape_adb_text("x&y<z>'\"\\"), "x\\&y\\<z\\>\\'\\\"\\\\");
    assert!(!escape_adb_text("hello big world").contains(' '));
}

#[test]
fn adb_failures_are_classified() {
    assert_eq!(check_adb_output(true, "whatever", "tap", Some(1)), Ok(()));
    assert_eq!(
        check_adb_output(false, "error: device offline\n", "tap", Some(1)),
        Err("Device is offline.\nCheck the USB connection or restart the device.".to_string())
    );
    assert_eq!(
        check_adb_output(false, "device unauthorized", "tap", Some(1)),
        Err("Device is unauthorized.\nAccept the USB debugging prompt on the device.".to_string())
    );
    assert_eq!(check_adb_output(false, "  boom  ", "swipe", Some(1)), Err("Failed to perform swipe: boom".to_string()));
    assert_eq!(check_adb_output(false, " ", "tap", Some(3)), Err("Failed to perform tap (exit code 3).".to_string()));
    assert_eq!(check_adb_output(false, "", "tap", None), Err("Failed to perform tap (exit code -1).".to_string()));
}

#[test]
fn idb_failures_are_classified() {
    assert!(check_idb_output(false, "Simulator not running", "tap", None).unwrap_err().starts_with("Simulator is not booted."));
    assert!(check_idb_output(false, "device not found", "tap", None).unwrap_err().starts_with("Simulator not found."));
    assert_eq!(check_idb_output(false, "bad", "key event", Some(2)), Err("Failed to perform key event: bad".to_string()));
}

#[test]
fn adb_argument_lists() {
    assert_eq!(tap_android_args("S1", 10, 20, None), vec!["-s", "S1", "shell", "input", "tap", "10", "20"]);
    assert_eq!(tap_android_args("S1", 10, 20, Some(100)), vec!["-s", "S1", "shell", "input", "tap", "10", "20"]);
    assert_eq!(tap_android_args("S1", 10, 20, Some(500)), vec!["-s", "S1", "shell", "input", "swipe", "10", "20", "10", "20", "500"]);
    assert_eq!(swipe_android_args("S", 1, 2, 3, 4, 300), vec!["-s", "S", "shell", "input", "swipe", "1", "2", "3", "4", "300"]);
    assert_eq!(type_android_args("S", "a b"), vec!["-s", "S", "shell", "input", "text", "a%sb"]);
    assert_eq!(key_android_args("S", KeyName::Back), vec!["-s", "S", "shell", "input", "keyevent", "4"]);
}

fn frame(w: u32, h: u32, pixels: Vec<Rgba>) -> RgbaFrame {
    RgbaFrame { width: w, height: h, pixels }
}

#[test]
fn identical_frames_have_no_change() {
    let p = vec![px(1, 2, 3, 255); 6];
    let (rects, changed, total) = compute_diff(&frame(3, 2, p.clone()), &frame(3, 2, p.clone()));
    assert!(rects.is_empty());
    assert_eq!(changed, 0);
    assert_eq!(total, 6);
    let img = generate_diff_image(&frame(3, 2, p.clone()), &frame(3, 2, p));
    assert_eq!(img, vec![px(0, 1, 1, 255); 6]);
}

#[test]
fn changed_pixels_are_bounded() {
    let before = vec![px(0, 0, 0, 255); 12];
    let mut after = before.clone();
    after[1 * 4 + 1] = px(9, 9, 9, 255);
    after[2 * 4 + 3] = px(9, 9, 9, 255);
    let (rects, changed, total) = compute_diff(&frame(4, 3, before.clone()), &frame(4, 3, after.clone()));
    assert_eq!(changed, 2);
    assert_eq!(total, 12);
    assert_eq!(rects, vec![ChangedRect { x: 1, y: 1, width: 3, height: 2 }]);
    let img = generate_diff_image(&frame(4, 3, before), &frame(4, 3, after));
    assert_eq!(img[5], px(255, 0, 255, 255));
    assert_eq!(img[0], px(0, 0, 0, 255));
}

#[test]
fn frames_of_different_size_change_everywhere() {
    let (rects, changed, total) = compute_diff(&frame(1, 1, vec![px(0, 0, 0, 0)]), &frame(2, 1, vec![px(0, 0, 0, 0); 2]));
    assert_eq!(rects, vec![ChangedRect { x: 0, y: 0, width: 2, height: 1 }]);
    assert_eq!((changed, total), (2, 2));
    let img = generate_diff_image(&frame(1, 1, vec![px(8, 8, 8, 8)]), &frame(2, 1, vec![px(8, 8, 8, 8), px(0, 0, 0, 255)]));
    assert_eq!(img, vec![px(4, 4, 4, 8), px(0, 0, 0, 255)]);
}
