use crud_schema::ident::{
    method_ident_for, method_ident_for_with_suffix, pluralize_pascal, stripped_pascal,
    suffixed_ident, to_pascal_case, to_snake_case,
};

#[test]
fn snake_case_of_pascal_and_camel() {
    assert_eq!(to_snake_case("UserProfile"), "user_profile");
    assert_eq!(to_snake_case("userProfile"), "user_profile");
    assert_eq!(to_snake_case("Item2Go"), "item2_go");
    assert_eq!(to_snake_case("already_snake"), "already_snake");
}

#[test]
fn snake_case_separates_consecutive_capitals() {
    assert_eq!(to_snake_case("HTTPServer"), "h_t_t_p_server");
}

#[test]
fn snake_case_trims_and_merges_separators() {
    assert_eq!(to_snake_case("__Foo__Bar__"), "foo_bar");
    assert_eq!(to_snake_case("a-b c"), "a_b_c");
    assert_eq!(to_snake_case(""), "");
    assert_eq!(to_snake_case("___"), "");
}

#[test]
fn pascal_case_of_snake() {
    assert_eq!(to_pascal_case("user_profile"), "UserProfile");
    assert_eq!(to_pascal_case("a-b c"), "ABC");
    assert_eq!(to_pascal_case("__x9_y"), "X9Y");
    assert_eq!(to_pascal_case(""), "");
}

#[test]
fn pluralize_follows_the_heuristic() {
    assert_eq!(pluralize_pascal("Category"), "Categories");
    assert_eq!(pluralize_pascal("Box"), "Boxes");
    assert_eq!(pluralize_pascal("Item"), "Items");
}

#[test]
fn pluralize_edge_cases() {
    assert_eq!(pluralize_pascal("Key"), "Keys");
    assert_eq!(pluralize_pascal("Church"), "Churches");
    assert_eq!(pluralize_pascal("Dish"), "Dishes");
    assert_eq!(pluralize_pascal("Bus"), "Buses");
    assert_eq!(pluralize_pascal("Quiz"), "Quizes");
    assert_eq!(pluralize_pascal("DAY"), "DAYs");
    assert_eq!(pluralize_pascal("CITY"), "CITies");
    assert_eq!(pluralize_pascal("Y"), "ies");
    assert_eq!(pluralize_pascal("Child"), "Childs");
    assert_eq!(pluralize_pascal(""), "s");
}

#[test]
fn identifier_derivation_is_deterministic() {
    let a = method_ident_for("add", &stripped_pascal("Book", "BookChapter"));
    let b = method_ident_for("add", &stripped_pascal("Book", "BookChapter"));
    assert_eq!(a, b);
    assert_eq!(a, "add_chapter");
    assert_eq!(pluralize_pascal("Category"), pluralize_pascal("Category"));
}

#[test]
fn stripping_the_parent_prefix() {
    assert_eq!(stripped_pascal("Book", "BookChapter"), "Chapter");
    assert_eq!(stripped_pascal("Book", "Book"), "Book");
    assert_eq!(stripped_pascal("Book", "Page"), "Page");
    assert_eq!(stripped_pascal("BookShelf", "Book"), "Book");
}

#[test]
fn prefixed_and_suffixed_names() {
    assert_eq!(method_ident_for("manage", "BookChapter"), "manage_book_chapter");
    assert_eq!(
        method_ident_for_with_suffix("manage", "BookChapter", "_handler"),
        "manage_book_chapter_handler"
    );
    assert_eq!(suffixed_ident("Book", "Crud"), "BookCrud");
}
