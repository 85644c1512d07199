use log_explorer::filter_field::FilterField;

fn field_with(items: &[&str]) -> FilterField {
    let mut f = FilterField::new();
    f.set_items(items.iter().map(|s| s.to_string()).collect());
    f
}

#[test]
fn empty_filter_shows_all_items_in_order() {
    let f = field_with(&["alpha", "beta", "gamma"]);
    assert_eq!(f.filter_text(), "");
    assert_eq!(f.filtered_items(), vec!["alpha", "beta", "gamma"]);
}

#[test]
fn new_field_is_empty() {
    let f = FilterField::new();
    assert_eq!(f.selected_value(), None);
    assert_eq!(f.filtered_items(), Vec::<&str>::new());
    assert_eq!(f.cursor(), 0);
    assert_eq!(f.filter_text(), "");
}

#[test]
fn typing_eu_filters_the_example_list() {
    let mut f = field_with(&["eu-west", "eu-central", "us-east"]);
    f.type_char('e');
    f.type_char('u');
    assert_eq!(f.filter_text(), "eu");
    assert_eq!(f.filtered_items(), vec!["eu-west", "eu-central"]);
    assert!(f.cursor() <= 1);
}

#[test]
fn matching_is_case_insensitive() {
    let mut f = field_with(&["Payment-Service", "ORDER-SERVICE", "frontend"]);
    f.type_char('s');
    f.type_char('e');
    f.type_char('r');
    assert_eq!(f.filtered_items(), vec!["Payment-Service", "ORDER-SERVICE"]);
    let mut g = field_with(&["abc", "ABC", "xyz"]);
    g.type_char('B');
    assert_eq!(g.filtered_items(), vec!["abc", "ABC"]);
}

#[test]
fn every_filtered_item_contains_the_query() {
    let mut f = field_with(&["one", "two", "three", "tone"]);
    f.type_char('o');
    f.type_char('n');
    for item in f.filtered_items() {
        assert!(item.to_lowercase().contains("on"));
    }
    assert_eq!(f.filtered_items(), vec!["one", "tone"]);
}

#[test]
fn cursor_stays_in_bounds_through_any_sequence() {
    let mut f = field_with(&["aa", "ab", "ac", "bd"]);
    f.next();
    f.next();
    f.next();
    f.next();
    assert_eq!(f.cursor(), 3);
    f.type_char('a');
    // subset shrank to three entries; the cursor clamps, it does not reset
    assert_eq!(f.filtered_items(), vec!["aa", "ab", "ac"]);
    assert_eq!(f.cursor(), 2);
    f.type_char('a');
    assert_eq!(f.filtered_items(), vec!["aa"]);
    assert_eq!(f.cursor(), 0);
    f.type_char('z');
    assert_eq!(f.filtered_items(), Vec::<&str>::new());
    assert_eq!(f.cursor(), 0);
    f.next();
    f.previous();
    assert_eq!(f.cursor(), 0);
    f.backspace();
    f.backspace();
    f.backspace();
    assert_eq!(f.filtered_items(), vec!["aa", "ab", "ac", "bd"]);
    assert!(f.cursor() < 4);
}

#[test]
fn next_and_previous_saturate_at_the_ends() {
    let mut f = field_with(&["x", "y"]);
    f.previous();
    assert_eq!(f.cursor(), 0);
    f.next();
    assert_eq!(f.cursor(), 1);
    f.next();
    assert_eq!(f.cursor(), 1);
    f.previous();
    assert_eq!(f.cursor(), 0);
}

#[test]
fn confirm_commits_the_highlighted_item() {
    let mut f = field_with(&["alpha", "beta", "gamma"]);
    f.next();
    f.confirm();
    assert_eq!(f.selected_value(), Some("beta"));
    // reopening and typing do not change the committed value
    f.open();
    assert_eq!(f.selected_value(), Some("beta"));
    f.type_char('g');
    f.type_char('a');
    assert_eq!(f.selected_value(), Some("beta"));
    // the next confirm commits the new highlight
    f.confirm();
    assert_eq!(f.selected_value(), Some("gamma"));
}

#[test]
fn confirm_on_empty_subset_is_a_no_op() {
    let mut f = field_with(&["alpha", "beta"]);
    f.type_char('z');
    assert_eq!(f.filtered_items(), Vec::<&str>::new());
    f.confirm();
    assert_eq!(f.selected_value(), Some("alpha"));
}

#[test]
fn open_clears_the_filter_and_points_at_the_selection() {
    let mut f = field_with(&["alpha", "beta", "gamma"]);
    f.select_value("gamma");
    f.type_char('b');
    assert_eq!(f.filtered_items(), vec!["beta"]);
    f.open();
    assert_eq!(f.filter_text(), "");
    assert_eq!(f.filtered_items(), vec!["alpha", "beta", "gamma"]);
    assert_eq!(f.cursor(), 2);
}

#[test]
fn select_value_commits_only_existing_values() {
    let mut f = field_with(&["alpha", "beta"]);
    f.select_value("beta");
    assert_eq!(f.selected_value(), Some("beta"));
    f.select_value("missing");
    assert_eq!(f.selected_value(), Some("beta"));
}

#[test]
fn set_items_resets_the_selection_to_the_first_item() {
    let mut f = field_with(&["alpha", "beta"]);
    f.select_value("beta");
    f.set_items(vec!["one".to_string(), "two".to_string()]);
    assert_eq!(f.selected_value(), Some("one"));
}

#[test]
fn set_items_refilters_against_the_stale_text() {
    let mut f = field_with(&["alpha", "beta"]);
    f.type_char('t');
    f.set_items(vec!["til".to_string(), "nil".to_string(), "tat".to_string()]);
    assert_eq!(f.filtered_items(), vec!["til", "tat"]);
}

#[test]
fn backspace_on_empty_text_is_a_no_op() {
    let mut f = field_with(&["alpha"]);
    f.backspace();
    assert_eq!(f.filter_text(), "");
    assert_eq!(f.filtered_items(), vec!["alpha"]);
}
