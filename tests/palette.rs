use rcz::color_item::CgrcColorItem;
use rcz::palette::{
    attr_by_name, attrs_from_names, back_by_name, colors_attr_clear, forg_by_name, push_decimal, CgrcAttrib,
    CgrcColor, CgrcResetAttrib, LcBackColor, LcLogColor,
};

#[test]
fn escape_and_clear_with_attributes() {
    let item = CgrcColorItem::new(
        vec![CgrcAttrib::CgrcBright, CgrcAttrib::CgrcNone, CgrcAttrib::CgrcUnderline],
        LcLogColor::LcForgColRed,
        LcBackColor::LcBackColBlue,
    );
    assert_eq!(item.escape_seq, "\u{1b}[31;44;1;4m");
    assert_eq!(item.clear_seq, "\u{1b}[39;49;21;0;24m");
}

#[test]
fn escape_without_attributes() {
    let item = CgrcColorItem::new(Vec::new(), LcLogColor::LcForgBrightColWhite, LcBackColor::LcBackBrightColBlack);
    assert_eq!(item.escape_seq, "\u{1b}[97;100m");
    assert_eq!(item.clear_seq, "\u{1b}[39;49m");
    let reset = CgrcColorItem::build_escape_seq(
        &vec![CgrcAttrib::CgrcReset],
        &LcLogColor::LcForgColDefault,
        &LcBackColor::LcBackColDefault,
    );
    assert_eq!(reset, "\u{1b}[39;49;0m");
    assert_eq!(CgrcColorItem::build_clear_seq(&vec![CgrcAttrib::CgrcStrikethrough]), "\u{1b}[39;49;29m");
}

#[test]
fn codes_follow_offsets() {
    assert_eq!(LcLogColor::LcForgColBlack.code(), 30);
    assert_eq!(LcLogColor::LcForgColDefault.code(), 39);
    assert_eq!(LcLogColor::LcForgBrightColCyan.code(), 96);
    assert_eq!(LcBackColor::LcBackColWhite.code(), 47);
    assert_eq!(LcBackColor::LcBackColDefault.code(), 49);
    assert_eq!(LcBackColor::LcBackBrightColRed.code(), 101);
    assert_eq!(CgrcColor::LcDefault.value(), 9);
    assert_eq!(CgrcAttrib::CgrcNone.code(), None);
    assert_eq!(CgrcAttrib::CgrcStrikethrough.code(), Some(9));
    assert_eq!(CgrcResetAttrib::CgrcResetHidden.code(), 28);
}

#[test]
fn attribute_reset_codes() {
    assert_eq!(colors_attr_clear(&CgrcAttrib::CgrcBright), CgrcResetAttrib::CgrcResetBright);
    assert_eq!(colors_attr_clear(&CgrcAttrib::CgrcHidden), CgrcResetAttrib::CgrcResetHidden);
    assert_eq!(colors_attr_clear(&CgrcAttrib::CgrcReset), CgrcResetAttrib::CgrcResetNone);
    assert_eq!(colors_attr_clear(&CgrcAttrib::CgrcNone), CgrcResetAttrib::CgrcResetNone);
}

#[test]
fn name_tables_are_exact_and_case_sensitive() {
    assert_eq!(forg_by_name("magenta"), Some(LcLogColor::LcForgColMagenta));
    assert_eq!(forg_by_name("bright_green"), Some(LcLogColor::LcForgBrightColGreen));
    assert_eq!(forg_by_name("Red"), None);
    assert_eq!(forg_by_name("default"), None);
    assert_eq!(back_by_name("on_yellow"), Some(LcBackColor::LcBackColYellow));
    assert_eq!(back_by_name("on_bright_white"), Some(LcBackColor::LcBackBrightColWhite));
    assert_eq!(back_by_name("on_default"), None);
    assert_eq!(attr_by_name("concealed"), Some(CgrcAttrib::CgrcHidden));
    assert_eq!(attr_by_name("unchanged"), Some(CgrcAttrib::CgrcNone));
    assert_eq!(attr_by_name("BOLD"), None);
}

#[test]
fn unknown_attribute_names_are_dropped() {
    let names = vec!["bold".to_string(), "sparkly".to_string(), "underline".to_string()];
    assert_eq!(attrs_from_names(&names), vec![CgrcAttrib::CgrcBright, CgrcAttrib::CgrcUnderline]);
    assert!(attrs_from_names(&Vec::new()).is_empty());
}

#[test]
fn decimal_text() {
    let mut s = String::from("x");
    push_decimal(&mut s, 0);
    push_decimal(&mut s, 7);
    push_decimal(&mut s, 49);
    push_decimal(&mut s, 255);
    assert_eq!(s, "x0749255");
}
