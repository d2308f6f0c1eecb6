use emoji_picker::entry::EmojiContainer;
use emoji_picker::item::CustomSkimItem;
use emoji_picker::paths::get_paths;
use emoji_picker::picker::{picker_items, selection_output, PickerOptions};
use emoji_picker::status::{accepts, refusal, refusal_from};

fn entry(glyph: &str, description: &str) -> EmojiContainer {
    EmojiContainer::new(
        glyph.to_string(),
        description.to_string(),
        "Smileys".to_string(),
        vec!["alias".to_string()],
        vec!["tag".to_string()],
    )
}

#[test]
fn entry_keeps_its_fields() {
    let e = EmojiContainer::new(
        "😀".to_string(),
        "grinning face".to_string(),
        "Smileys & Emotion".to_string(),
        vec!["grinning".to_string(), "grin".to_string()],
        vec!["smile".to_string(), "happy".to_string()],
    );
    assert_eq!(e.emoji(), "😀");
    assert_eq!(e.description(), "grinning face");
    assert_eq!(e.category(), "Smileys & Emotion");
    assert_eq!(e.aliases(), &vec!["grinning".to_string(), "grin".to_string()]);
    assert_eq!(e.tags(), &vec!["smile".to_string(), "happy".to_string()]);
}

#[test]
fn entry_accepts_empty_fields() {
    let e = EmojiContainer::new(
        String::new(),
        String::new(),
        String::new(),
        Vec::new(),
        Vec::new(),
    );
    assert_eq!(e.emoji(), "");
    assert_eq!(e.description(), "");
    assert_eq!(e.category(), "");
    assert!(e.aliases().is_empty());
    assert!(e.tags().is_empty());
}

#[test]
fn item_text_is_glyph_newline_description() {
    let item = CustomSkimItem::new(&entry("😀", "grinning face"));
    assert_eq!(item.text(), "😀\ngrinning face");
    assert_eq!(item.display(), "😀\ngrinning face");
}

#[test]
fn item_output_is_the_glyph_alone() {
    let item = CustomSkimItem::new(&entry("😀", "grinning face"));
    assert_eq!(item.output(), "😀");
}

#[test]
fn item_output_never_holds_the_description() {
    let item = CustomSkimItem::new(&entry("🎉", "party popper\nwith a second line"));
    assert_eq!(item.text(), "🎉\nparty popper\nwith a second line");
    assert_eq!(item.output(), "🎉");
}

#[test]
fn item_output_of_multi_codepoint_glyph() {
    let item = CustomSkimItem::new(&entry("👨‍👩‍👧", "family"));
    assert_eq!(item.output(), "👨‍👩‍👧");
}

#[test]
fn item_output_stops_at_a_line_feed_in_the_glyph() {
    let item = CustomSkimItem::new(&entry("a\nb", "two lines"));
    assert_eq!(item.text(), "a\nb\ntwo lines");
    assert_eq!(item.output(), "a");
}

#[test]
fn item_output_of_empty_glyph_is_empty() {
    let item = CustomSkimItem::new(&entry("", "nothing"));
    assert_eq!(item.text(), "\nnothing");
    assert_eq!(item.output(), "");
}

#[test]
fn item_of_empty_entry() {
    let item = CustomSkimItem::new(&entry("", ""));
    assert_eq!(item.text(), "\n");
    assert_eq!(item.output(), "");
}

#[test]
fn picker_items_follow_the_entries() {
    let entries = vec![entry("😀", "grinning face"), entry("🎉", "party popper"), entry("🚀", "rocket")];
    let items = picker_items(&entries);
    assert_eq!(items.len(), 3);
    assert_eq!(items[0].text(), "😀\ngrinning face");
    assert_eq!(items[1].text(), "🎉\nparty popper");
    assert_eq!(items[2].text(), "🚀\nrocket");
}

#[test]
fn picker_items_of_nothing() {
    let items = picker_items(&Vec::new());
    assert!(items.is_empty());
}

#[test]
fn selection_of_nothing_is_empty() {
    assert_eq!(selection_output(&Vec::new()), "");
}

#[test]
fn selection_of_one_is_its_glyph() {
    let selected = picker_items(&vec![entry("😀", "grinning face")]);
    assert_eq!(selection_output(&selected), "😀");
}

#[test]
fn selection_keeps_order_without_separator() {
    let selected = picker_items(&vec![entry("😀", "grinning face"), entry("🎉", "party popper")]);
    assert_eq!(selection_output(&selected), "😀🎉");
    let reversed = picker_items(&vec![entry("🎉", "party popper"), entry("😀", "grinning face")]);
    assert_eq!(selection_output(&reversed), "🎉😀");
}

#[test]
fn selection_of_two_lists_is_both_outputs_in_a_row() {
    let first = vec![entry("😀", "grinning face"), entry("🎉", "party popper")];
    let second = vec![entry("🚀", "rocket")];
    let both = vec![entry("😀", "grinning face"), entry("🎉", "party popper"), entry("🚀", "rocket")];
    let joined = format!(
        "{}{}",
        selection_output(&picker_items(&first)),
        selection_output(&picker_items(&second))
    );
    assert_eq!(selection_output(&picker_items(&both)), joined);
    assert_eq!(joined, "😀🎉🚀");
}

#[test]
fn selection_may_repeat_a_row() {
    let selected = picker_items(&vec![entry("😀", "a"), entry("😀", "b")]);
    assert_eq!(selection_output(&selected), "😀😀");
}

#[test]
fn options_are_seventy_percent_reversed_multi() {
    let options = PickerOptions::new();
    assert_eq!(options.height_percent, 70);
    assert!(options.reverse);
    assert!(options.multi);
}

#[test]
fn paths_under_home() {
    let paths = get_paths("/home/u");
    assert_eq!(paths.dir(), "/home/u/.cache/emoji_picker");
    assert_eq!(paths.file(), "/home/u/.cache/emoji_picker/emoji.json");
}

#[test]
fn paths_under_empty_home() {
    let paths = get_paths("");
    assert_eq!(paths.dir(), "/.cache/emoji_picker");
    assert_eq!(paths.file(), "/.cache/emoji_picker/emoji.json");
}

#[test]
fn paths_keep_home_as_given() {
    let paths = get_paths("/home/u/");
    assert_eq!(paths.dir(), "/home/u//.cache/emoji_picker");
    assert_eq!(paths.file(), "/home/u//.cache/emoji_picker/emoji.json");
}

#[test]
fn success_class_is_200_to_299() {
    assert!(!accepts(0));
    assert!(!accepts(99));
    assert!(!accepts(100));
    assert!(!accepts(199));
    assert!(accepts(200));
    assert!(accepts(204));
    assert!(accepts(299));
    assert!(!accepts(300));
    assert!(!accepts(404));
    assert!(!accepts(500));
    assert!(!accepts(999));
    assert!(!accepts(1000));
    assert!(!accepts(u16::MAX));
}

#[test]
fn refusal_names_the_status() {
    assert_eq!(refusal(404), "Status code 404 Not Found indicates failure");
    assert_eq!(refusal(500), "Status code 500 Internal Server Error indicates failure");
    assert_ne!(refusal(404), refusal(403));
}

#[test]
fn refusal_of_what_is_no_status_code() {
    assert_eq!(refusal(99), "Unexpected error.");
    assert_eq!(refusal(0), "Unexpected error.");
    assert_eq!(refusal(1000), "Unexpected error.");
}

#[test]
fn refusal_from_a_wording_is_that_wording() {
    assert_eq!(refusal_from(Some("teapot".to_string())), "teapot");
    assert_eq!(refusal_from(None), "Unexpected error.");
}
