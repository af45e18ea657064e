use ifs_render::textbox::{TextParseError, TextboxData};

#[test]
fn new_box_shows_value_in_decimal() {
    assert_eq!(TextboxData::new(1000u32).text, "1000");
    assert_eq!(TextboxData::new(0u64).text, "0");
    assert_eq!(TextboxData::new(usize::MAX).text, usize::MAX.to_string());
    assert_eq!(TextboxData::new(4294967295u32).text, "4294967295");
    assert_eq!(TextboxData::new(1000u32).value, 1000);
}

#[test]
fn update_reads_plain_and_plus_signed_digits() {
    let mut b = TextboxData::new(1u64);
    b.text = "42".to_string();
    assert!(b.update().is_ok());
    assert_eq!(b.value, 42);
    b.text = "+17".to_string();
    assert!(b.update().is_ok());
    assert_eq!(b.value, 17);
    b.text = "007".to_string();
    assert!(b.update().is_ok());
    assert_eq!(b.value, 7);
}

#[test]
fn update_refuses_bad_text_and_keeps_value() {
    let mut b = TextboxData::new(5u32);
    for bad in ["", "+", "-1", "12x", " 3", "3 ", "++3", "4294967296", "1.5"] {
        b.text = bad.to_string();
        let r = b.update();
        assert!(matches!(r, Err(TextParseError::Integer(_))), "{bad:?}");
        assert_eq!(b.value, 5);
        assert_eq!(b.text, bad);
    }
}

#[test]
fn update_accepts_largest_value() {
    let mut b = TextboxData::new(0u32);
    b.text = "4294967295".to_string();
    assert!(b.update().is_ok());
    assert_eq!(b.value, u32::MAX);
    let mut c = TextboxData::new(0u64);
    c.text = "18446744073709551615".to_string();
    assert!(c.update().is_ok());
    assert_eq!(c.value, u64::MAX);
    c.text = "18446744073709551616".to_string();
    assert!(c.update().is_err());
    assert_eq!(c.value, u64::MAX);
}

#[test]
fn check_val_reports_without_changing() {
    let mut b = TextboxData::new(3usize);
    assert!(b.check_val().is_ok());
    b.text = "abc".to_string();
    assert!(b.check_val().is_err());
    assert_eq!(b.value, 3);
    b.text = "12".to_string();
    assert!(b.check_val().is_ok());
    assert_eq!(b.value, 3);
}

#[test]
fn fresh_box_reads_back_its_value() {
    for v in [0u64, 1, 9, 10, 99, 100, 1234567, u64::MAX] {
        let mut b = TextboxData::new(v);
        assert!(b.check_val().is_ok());
        assert!(b.update().is_ok());
        assert_eq!(b.value, v);
    }
    for v in [0u32, 10, u32::MAX] {
        let mut b = TextboxData::new(v);
        assert!(b.update().is_ok());
        assert_eq!(b.value, v);
    }
}

#[test]
fn string_box_takes_any_text() {
    let mut b = TextboxData::new("output.png".to_string());
    assert_eq!(b.text, "output.png");
    b.text = " any text, 12 ".to_string();
    assert!(b.check_val().is_ok());
    assert!(b.update().is_ok());
    assert_eq!(b.value, " any text, 12 ");
    b.text = String::new();
    assert!(b.update().is_ok());
    assert_eq!(b.value, "");
}
