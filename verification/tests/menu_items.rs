use coffee_shop::hoverable::{
    default_font, default_hovered, default_text, Hoverable, HoverableDef, HoverableFull, RESET,
    REVERSE,
};

#[test]
fn defaults_of_a_menu_item() {
    assert_eq!(default_text(), "");
    assert_eq!(default_font(), "\x1B[0m");
    assert!(!default_hovered());
    let item = Hoverable::default();
    assert_eq!(item.text, "");
    assert_eq!(item.font, RESET);
    assert!(!item.hovered);
}

#[test]
fn plain_item_is_written_in_its_style() {
    let item = Hoverable { text: "Latte".to_string(), font: "\x1B[1m".to_string(), hovered: false };
    assert_eq!(item.to_string(), "\x1B[1mLatte\x1B[0m");
}

#[test]
fn hovered_item_is_written_in_reverse_video() {
    let item = Hoverable { text: "Latte".to_string(), font: "\x1B[1m".to_string(), hovered: true };
    assert_eq!(item.to_string(), "\x1B[1m\x1B[7mLatte\x1B[0m");
    assert_eq!(item.to_string(), format!("{}{}{}{}", "\x1B[1m", REVERSE, "Latte", RESET));
}

#[test]
fn default_item_is_written_as_two_resets() {
    assert_eq!(Hoverable::default().to_string(), "\x1B[0m\x1B[0m");
}

#[test]
fn bare_string_parses_like_the_full_object() {
    let bare = Hoverable::from(HoverableDef::Text("Latte".to_string()));
    let full = Hoverable::from(HoverableDef::Full(HoverableFull {
        text: Some("Latte".to_string()),
        font: Some(default_font()),
        hovered: Some(false),
    }));
    assert_eq!(bare, full);
    assert_eq!(bare.text, "Latte");
    assert_eq!(bare.font, "\x1B[0m");
    assert!(!bare.hovered);
}

#[test]
fn bare_string_parses_like_the_object_with_only_text() {
    let bare = Hoverable::from(HoverableDef::Text("Latte".to_string()));
    let sparse = Hoverable::from(HoverableDef::Full(HoverableFull {
        text: Some("Latte".to_string()),
        font: None,
        hovered: None,
    }));
    assert_eq!(bare, sparse);
}

#[test]
fn into_gives_the_same_item_as_from() {
    let item: Hoverable = HoverableDef::Text("Mocha".to_string()).into();
    assert_eq!(item, Hoverable::from(HoverableDef::Text("Mocha".to_string())));
}

#[test]
fn full_object_keeps_what_it_gives() {
    let item = Hoverable::from(HoverableDef::Full(HoverableFull {
        text: Some("Tea".to_string()),
        font: Some("\x1B[32m".to_string()),
        hovered: Some(true),
    }));
    assert_eq!(
        item,
        Hoverable { text: "Tea".to_string(), font: "\x1B[32m".to_string(), hovered: true }
    );
}

#[test]
fn empty_object_is_the_default_item() {
    let item =
        Hoverable::from(HoverableDef::Full(HoverableFull { text: None, font: None, hovered: None }));
    assert_eq!(item, Hoverable::default());
}

#[test]
fn object_without_text_has_empty_text() {
    let item = Hoverable::from(HoverableDef::Full(HoverableFull {
        text: None,
        font: Some("\x1B[1m".to_string()),
        hovered: Some(true),
    }));
    assert_eq!(item.text, "");
    assert_eq!(item.font, "\x1B[1m");
    assert!(item.hovered);
}
