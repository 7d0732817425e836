use honeybee::output::color::Color;

#[test]
fn test_color_from_string_ok() {
    assert!(Color::try_from("#000000").is_ok());
    assert!(Color::try_from("#111111").is_ok());
}

#[test]
fn test_color_from_string_err() {
    assert!(Color::try_from("#lazyfox123").is_err());
    assert!(Color::try_from("#1234567890").is_err());
}

#[test]
fn color_errors_tell_format_from_value() {
    let e = Color::try_from("123456").unwrap_err();
    assert_eq!(e.message.as_deref(), Some("Bad color format"));
    let e = Color::try_from("#12345").unwrap_err();
    assert_eq!(e.message.as_deref(), Some("Bad color format"));
    let e = Color::try_from("#12345g").unwrap_err();
    assert_eq!(e.message.as_deref(), Some("Bad color value"));
    // seven bytes, but not a hexadecimal number
    let e = Color::try_from("#\u{e9}1234").unwrap_err();
    assert_eq!(e.message.as_deref(), Some("Bad color value"));
    let e = Color::try_from("#-12345").unwrap_err();
    assert_eq!(e.message.as_deref(), Some("Bad color value"));
}

#[test]
fn colors_round_trip() {
    let c = Color::try_from("#Ab09fF").unwrap();
    assert_eq!(c.to_string(), "#Ab09fF");
    let again = Color::try_from(c.to_string().as_str()).unwrap();
    assert_eq!(again.to_string(), "#Ab09fF");
    // exactly six hexadecimal digits: no sign
    let e = Color::try_from("#+abcde").unwrap_err();
    assert_eq!(e.message.as_deref(), Some("Bad color value"));
}

#[test]
fn default_color_is_white() {
    assert_eq!(Color::new().to_string(), "#ffffff");
    assert_eq!(Color::default().to_string(), "#ffffff");
}

#[test]
fn colors_compare_by_their_text() {
    assert_eq!(Color::try_from("#ffffff").unwrap(), Color::new());
    assert_ne!(Color::try_from("#FFFFFF").unwrap(), Color::new());
}
