use human_ids::{Options, OptionsBuilder};

#[test]
fn new_options_are_the_defaults() {
    let options = Options::new();
    assert_eq!(options.separator, Some("-"));
    assert!(options.capitalize);
    assert!(!options.add_adverb);
    assert_eq!(options.adjective_count, 1);
}

#[test]
fn default_options_are_the_defaults() {
    let options = Options::default();
    assert_eq!(options.separator, Some("-"));
    assert!(options.capitalize);
    assert!(!options.add_adverb);
    assert_eq!(options.adjective_count, 1);
}

#[test]
fn options_setters_change_one_field() {
    let options = Options::new().separator("_");
    assert_eq!(options.separator, Some("_"));
    assert!(options.capitalize);
    assert!(!options.add_adverb);
    assert_eq!(options.adjective_count, 1);

    let options = Options::new().capitalize(false);
    assert_eq!(options.separator, Some("-"));
    assert!(!options.capitalize);
    assert!(!options.add_adverb);
    assert_eq!(options.adjective_count, 1);

    let options = Options::new().add_adverb(true);
    assert_eq!(options.separator, Some("-"));
    assert!(options.capitalize);
    assert!(options.add_adverb);
    assert_eq!(options.adjective_count, 1);

    let options = Options::new().adjective_count(7);
    assert_eq!(options.separator, Some("-"));
    assert!(options.capitalize);
    assert!(!options.add_adverb);
    assert_eq!(options.adjective_count, 7);
}

#[test]
fn options_setters_chain() {
    let options = Options::new()
        .separator("_")
        .capitalize(true)
        .add_adverb(true)
        .adjective_count(2);
    assert_eq!(options.separator, Some("_"));
    assert!(options.capitalize);
    assert!(options.add_adverb);
    assert_eq!(options.adjective_count, 2);
}

#[test]
fn later_setting_wins() {
    let options = Options::new().separator("a").separator("b").adjective_count(3).adjective_count(0);
    assert_eq!(options.separator, Some("b"));
    assert_eq!(options.adjective_count, 0);
}

#[test]
fn builder_starts_without_a_separator() {
    let options = Options::builder().build();
    assert_eq!(options.separator, None);
    assert!(options.capitalize);
    assert!(!options.add_adverb);
    assert_eq!(options.adjective_count, 1);

    let options = OptionsBuilder::default().build();
    assert_eq!(options.separator, None);
    assert!(options.capitalize);
    assert!(!options.add_adverb);
    assert_eq!(options.adjective_count, 1);
}

#[test]
fn builder_collects_the_settings() {
    let options = Options::builder()
        .separator("+")
        .capitalize(false)
        .add_adverb(true)
        .adjective_count(4)
        .build();
    assert_eq!(options.separator, Some("+"));
    assert!(!options.capitalize);
    assert!(options.add_adverb);
    assert_eq!(options.adjective_count, 4);
}

#[test]
fn builder_setters_change_one_field() {
    let options = Options::builder().separator("").build();
    assert_eq!(options.separator, Some(""));
    assert!(options.capitalize);

    let options = Options::builder().capitalize(false).build();
    assert_eq!(options.separator, None);
    assert!(!options.capitalize);
    assert!(!options.add_adverb);

    let options = Options::builder().add_adverb(true).build();
    assert!(options.add_adverb);
    assert_eq!(options.adjective_count, 1);

    let options = Options::builder().adjective_count(0).build();
    assert_eq!(options.adjective_count, 0);
    assert!(options.capitalize);
}
