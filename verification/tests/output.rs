use honeybee::bar::{Bar, RenderedWidget};
use honeybee::bridge::Request;
use honeybee::config::GeneralConfig;
use honeybee::formatting::{Format, Placeholders};
use honeybee::output::dzen2::Dzen2;
use honeybee::output::i3bar::I3Bar;
use honeybee::output::lemonbar::LemonBar;
use honeybee::output::term::Term;
use honeybee::output::xmobar::XmoBar;
use honeybee::output::{output_formatter, OutputFormat, OutputFormatter};
use honeybee::protocol::{status_blocks, Alignment, Block, Header, Markup};
use honeybee::widget::{ContentType, Widget, WidgetState};

fn widget(state: WidgetState) -> Widget {
    let mut w = Widget::new().with_instance("/".to_string());
    w.set_format(Format::new().with_default("free: $free"));
    let mut p = Placeholders::new();
    p.insert("$free".into(), "10 GiB".into());
    w.set_placeholders(p);
    w.set_state(state);
    w
}

#[test]
fn text_formats() {
    let config = GeneralConfig::default();
    let w = widget(WidgetState::Normal);
    assert_eq!(Dzen2.full_text(&config, &w), "^fg(#00FF00)free: 10 GiB");
    assert_eq!(XmoBar.full_text(&config, &w), "<fc=#00FF00>free: 10 GiB</fc>");
    assert_eq!(LemonBar.full_text(&config, &w), "%%{F#00FF00}free: 10 GiB");
    assert_eq!(Term.full_text(&config, &w), "\\033[3#00FF00;1mfree: 10 GiB\\033[0m");
    let w = widget(WidgetState::Critical);
    assert_eq!(XmoBar.fg_color(&config, &w), "<fc=#FF0000>");
    assert_eq!(I3Bar.fg_color(&config, &w), "#FF0000");
    let w = widget(WidgetState::Warning);
    assert_eq!(Dzen2.fg_color(&config, &w), "^fg(#FFFF00)");
    match Term.render_widget(&config, w) {
        RenderedWidget::Text(t) => assert_eq!(t, "\\033[3#FFFF00;1mfree: 10 GiB\\033[0m"),
        other => panic!("unexpected {other:?}"),
    }
}

#[test]
fn i3bar_blocks() {
    let config = GeneralConfig::default();
    let w = widget(WidgetState::Normal).with_name("disk".to_string());
    match I3Bar.render_widget(&config, w) {
        RenderedWidget::I3Block(b) => {
            assert_eq!(b.full_text, "free: 10 GiB");
            assert_eq!(b.color.unwrap().to_string(), "#00FF00");
            assert_eq!(b.name.as_deref(), Some("disk"));
            assert_eq!(b.instance.as_deref(), Some("/"));
            assert_eq!(b.background.unwrap().to_string(), "#000000");
            assert_eq!(b.separator_block_width, Some(9));
        }
        other => panic!("unexpected {other:?}"),
    }
}

#[test]
fn output_formats_by_name() {
    assert_eq!(output_formatter("i3bar"), OutputFormat::I3Bar);
    assert_eq!(output_formatter("term"), OutputFormat::Term);
    assert_eq!(output_formatter("dzen2"), OutputFormat::Dzen2);
    assert_eq!(output_formatter("xmobar"), OutputFormat::XmoBar);
    assert_eq!(output_formatter("lemonbar"), OutputFormat::LemonBar);
}

#[test]
fn block_defaults() {
    let b = Block::new("x".to_string());
    assert_eq!(b.full_text, "x");
    assert_eq!(b.color.unwrap().to_string(), "#ffffff");
    assert_eq!(b.border.unwrap().to_string(), "#222222");
    assert_eq!((b.border_top, b.border_right, b.border_bottom, b.border_left), (Some(1), Some(1), Some(1), Some(1)));
    assert_eq!(b.align, Alignment::Left);
    assert_eq!(b.markup, Markup::Plain);
    assert_eq!(b.separator, Some(true));
    let h = Header::new();
    assert_eq!(h.version, 1);
    assert_eq!(h.click_events, Some(true));
    assert_eq!(h.stop_signal, None);
}

#[test]
fn widgets() {
    let mut w = Widget::new();
    assert_eq!(w.content.to_string(), "");
    w.set_placeholders(Placeholders::new());
    assert!(matches!(w.content, ContentType::Empty));
    w.content = ContentType::Text("hello".into());
    assert_eq!(w.content.to_string(), "hello");
    w.set_format(Format::new().with_default("$a"));
    assert_eq!(w.content.to_string(), "$a");
    let config = GeneralConfig::default();
    assert_eq!(w.color(&config).to_string(), "#00FF00");
    assert_eq!(config.output_format, "i3bar");
    assert_eq!(config.update_interval, 10);
}

#[test]
fn bar_renders_requests() {
    let mut bar = Bar::new(GeneralConfig::default());
    bar.add_module("memory".to_string(), 0);
    bar.add_module("disk".to_string(), 1);
    assert_eq!(bar.rendered_widgets().len(), 2);
    assert!(matches!(bar.rendered_widgets()[1], RenderedWidget::Empty));
    bar.process_request(Request::SetWidget { id: 1, widget: widget(WidgetState::Critical) });
    let rendered = bar.rendered_widgets();
    assert!(matches!(rendered[0], RenderedWidget::Empty));
    let blocks = status_blocks(&rendered);
    assert_eq!(blocks.len(), 1);
    assert_eq!(blocks[0].name.as_deref(), Some("disk"));
    assert_eq!(blocks[0].color.clone().unwrap().to_string(), "#FF0000");
    assert_eq!(bar.output_format(), OutputFormat::I3Bar);
}

#[test]
fn widget_shows_format_with_placeholders() {
    let mut w = Widget::new();
    w.content = ContentType::Text("old".into());
    w.set_format(Format::new().with_default("$used of $total"));
    let mut p = Placeholders::new();
    p.insert("$used".into(), "2 GiB".into());
    p.insert("$total".into(), "8 GiB".into());
    w.set_placeholders(p);
    assert_eq!(w.content.to_string(), "2 GiB of 8 GiB");
    w.set_format(Format::new().with_default("$total"));
    assert_eq!(w.content.to_string(), "8 GiB");
}

#[test]
fn general_settings_compare_field_by_field() {
    let a = GeneralConfig::default();
    let mut b = GeneralConfig::default();
    assert_eq!(a, b);
    b.separator = " | ".into();
    assert_ne!(a, b);
    let mut c = GeneralConfig::default();
    c.color_bad = honeybee::output::color::Color::try_from("#ff0000").unwrap();
    assert_ne!(a, c);
}

#[test]
fn colors_off_leave_bare_text() {
    let mut config = GeneralConfig::default();
    config.colors = false;
    let w = widget(WidgetState::Critical);
    assert_eq!(Dzen2.full_text(&config, &w), "free: 10 GiB");
    assert_eq!(XmoBar.full_text(&config, &w), "free: 10 GiB");
    assert_eq!(LemonBar.full_text(&config, &w), "free: 10 GiB");
    assert_eq!(Term.full_text(&config, &w), "free: 10 GiB");
    assert_eq!(Term.fg_color(&config, &w), "");
    assert_eq!(I3Bar.fg_color(&config, &w), "");
    match I3Bar.render_widget(&config, w) {
        RenderedWidget::I3Block(b) => {
            assert!(b.color.is_none());
            assert_eq!(b.full_text, "free: 10 GiB");
        }
        other => panic!("unexpected {other:?}"),
    }
}

#[test]
fn pango_markup_reaches_the_blocks() {
    let mut config = GeneralConfig::default();
    config.markup = Markup::Pango;
    match I3Bar.render_widget(&config, widget(WidgetState::Normal)) {
        RenderedWidget::I3Block(b) => assert_eq!(b.markup, Markup::Pango),
        other => panic!("unexpected {other:?}"),
    }
    match OutputFormat::I3Bar.render_widget(&GeneralConfig::default(), widget(WidgetState::Normal)) {
        RenderedWidget::I3Block(b) => assert_eq!(b.markup, Markup::Plain),
        other => panic!("unexpected {other:?}"),
    }
}

#[test]
fn no_colors_option_turns_colors_off() {
    let config = GeneralConfig::default().with_no_colors(true);
    assert!(!config.colors);
    assert_eq!(config.update_interval, 10);
    assert!(GeneralConfig::default().with_no_colors(false).colors);
    let mut off = GeneralConfig::default();
    off.colors = false;
    assert!(!off.with_no_colors(false).colors);
}
