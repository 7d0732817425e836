use honeybee::formatting::{Format, Placeholders};

fn placeholders(entries: &[(&str, &str)]) -> Placeholders {
    let mut p = Placeholders::new();
    for (k, v) in entries {
        p.insert(k.to_string(), v.to_string());
    }
    p
}

#[test]
fn formats_are_built_with_defaults() {
    let f = Format::new();
    assert_eq!(f.full_text, None);
    assert_eq!(f.short_text, None);
    let f = Format::new().with_default("$free");
    assert_eq!(f.full_text.as_deref(), Some("$free"));
    assert_eq!(f.short_text, None);
    let f = f.with_defaults("$a", "$b");
    assert_eq!(f.full_text.as_deref(), Some("$a"));
    assert_eq!(f.short_text.as_deref(), Some("$b"));
    let f = Format::from_str("$title $status").unwrap();
    assert_eq!(f.full_text.as_deref(), Some("$title $status"));
    assert_eq!(f.short_text, None);
}

#[test]
fn rendering_substitutes_placeholders() {
    let f = Format::new().with_defaults("$title: $status", "$status");
    let p = placeholders(&[("$title", "VPN"), ("$status", "yes")]);
    let (full, short) = f.render(&Some(p));
    assert_eq!(full, "VPN: yes");
    assert_eq!(short, "yes");
}

#[test]
fn rendering_without_placeholders_or_format() {
    let f = Format::new().with_default("$used of $total");
    assert_eq!(f.render(&None), ("$used of $total".to_string(), String::new()));
    let p = placeholders(&[("$free", "1 GiB")]);
    assert_eq!(f.render(&Some(p)).0, "$used of $total");
}

#[test]
fn every_occurrence_is_replaced() {
    let f = Format::new().with_default("$x-$x-$y");
    let p = placeholders(&[("$x", "1"), ("$y", "2")]);
    assert_eq!(f.render(&Some(p)).0, "1-1-2");
}

#[test]
fn placeholders_are_substituted_in_order() {
    let f = Format::new().with_default("$1min $15min");
    let p = placeholders(&[("$15min", "b"), ("$1min", "a")]);
    assert_eq!(f.render(&Some(p)).0, "a b");
}

#[test]
fn the_longest_name_wins_whatever_the_order() {
    let f = Format::new().with_default("$percentage_used_of_avail / $percentage_used");
    for order in [
        [("$percentage_used", "A"), ("$percentage_used_of_avail", "B")],
        [("$percentage_used_of_avail", "B"), ("$percentage_used", "A")],
    ] {
        assert_eq!(f.render(&Some(placeholders(&order))).0, "B / A");
    }
    // a text put in is substituted by a placeholder that comes later, as
    // one `str::replace` after another does
    let p = placeholders(&[("$a", "$b"), ("$b", "x")]);
    assert_eq!(p.substitute("$a$b"), "xx");
    let p = placeholders(&[("$b", "x"), ("$a", "$b")]);
    assert_eq!(p.substitute("$a$b"), "$bx");
    // names of one length go in the order of insertion
    let p = placeholders(&[("ab", "X"), ("ba", "Y")]);
    assert_eq!(p.substitute("aba"), "Xa");
    // an empty name is replaced as `str::replace` replaces it
    let p = placeholders(&[("", "!")]);
    assert_eq!(p.substitute("ab"), "ab".replace("", "!"));
}

#[test]
fn inserting_a_placeholder_again_replaces_its_text() {
    let mut p = placeholders(&[("$a", "1"), ("$b", "2")]);
    p.insert("$a".to_string(), "3".to_string());
    assert_eq!(p.len(), 2);
    assert_eq!(p.get("$a").as_deref(), Some("3"));
    assert_eq!(p.get("$b").as_deref(), Some("2"));
    assert_eq!(p.get("$c"), None);
    let q = p.clone();
    assert_eq!(q.substitute("$a$b$c"), "32$c");
}

#[test]
fn formats_compare_by_their_texts() {
    assert_eq!(Format::new().with_default("$a"), Format::from_str("$a").unwrap());
    assert_ne!(Format::new().with_default("$a"), Format::new().with_defaults("$a", "$b"));
    assert_ne!(Format::new(), Format::new().with_default(""));
    assert_eq!(Format::new(), Format::default());
}
