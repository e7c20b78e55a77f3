//! Tests of the template catalog.

use mml_editor::template::MmlTemplate;

#[test]
fn test_get_template() {
    assert_eq!(MmlTemplate::get_template(0), "cdefgab");
    assert_eq!(MmlTemplate::get_template(1), "c4d4e4f4g4a4b4>c4");

    let invalid_index = MmlTemplate::template_count() + 10;
    assert_eq!(MmlTemplate::get_template(invalid_index), "cdefgab");
}

#[test]
fn test_template_count() {
    assert!(MmlTemplate::template_count() > 0);
}

#[test]
fn test_get_template_title() {
    assert_eq!(MmlTemplate::get_template_title(0), "基本スケール");
    assert_eq!(MmlTemplate::get_template_title(7), "空のテンプレート");
}

#[test]
fn test_get_template_out_of_range_equals_first() {
    let count = MmlTemplate::template_count();
    assert_eq!(MmlTemplate::get_template(count), MmlTemplate::get_template(0));
    assert_eq!(MmlTemplate::get_template(count + 3), MmlTemplate::get_template(0));
}

#[test]
fn test_get_template_last_is_empty() {
    let count = MmlTemplate::template_count();
    assert_eq!(MmlTemplate::get_template(count - 1), "");
}

#[test]
fn test_get_template_title_generic_label() {
    assert_eq!(MmlTemplate::get_template_title(8), "テンプレート 9");
    assert_eq!(MmlTemplate::get_template_title(9), "テンプレート 10");
    assert_eq!(MmlTemplate::get_template_title(122), "テンプレート 123");
}
