use honeybee::pango::PangoEscapeExt;

#[test]
fn test_escape_simple_string() {
    assert_eq!(
        "<span foreground=\"blue\" size=\"x-large\">Blue text</span>!".escape_pango_format(),
        "&lt;span foreground=&quot;blue&quot; size=&quot;x-large&quot;&gt;Blue text&lt;/span&gt;!"
    );
}

#[test]
fn escape_ampersand_and_apostrophe() {
    assert_eq!("a & b's".escape_pango_format(), "a &amp; b&apos;s");
    assert_eq!("".escape_pango_format(), "");
    assert_eq!("plain".escape_pango_format(), "plain");
}
