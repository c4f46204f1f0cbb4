use fmrl::color_type::ColorType;
use fmrl::config::{resolve_colors, split_comma_list, ConfigColor};

#[test]
fn test_comma_list_deserialize() {
    assert_eq!(split_comma_list("a,b,c"), vec!["a", "b", "c"]);
    assert_eq!(
        split_comma_list("123,     234   ,,,, 234  , "),
        vec!["123", "234", "234"]
    );
    assert!(split_comma_list("").is_empty());
    assert!(split_comma_list(" , ,").is_empty());
    assert_eq!(split_comma_list(" 7 "), vec!["7"]);
}

#[test]
fn column_colours() {
    let unset = ConfigColor::default();
    assert_eq!(
        resolve_colors(&unset, "cyan"),
        (ColorType::ANSI("cyan".to_string()), None)
    );
    let set = ConfigColor {
        foreground: "#102030".to_string(),
        background: "rgb(1, 2, 3)".to_string(),
    };
    assert_eq!(
        resolve_colors(&set, "cyan"),
        (ColorType::RGB(0x10, 0x20, 0x30), Some(ColorType::RGB(1, 2, 3)))
    );
    let broken = ConfigColor {
        foreground: "#12".to_string(),
        background: "#zzzzzz".to_string(),
    };
    assert_eq!(resolve_colors(&broken, "cyan"), (ColorType::ANSI(String::new()), None));
}
