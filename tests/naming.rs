use cargo_mold::naming::{to_camel_case, to_pascal_case};
use cargo_mold::parens::find_matching_parenthesis;

#[test]
fn pascal_joins_words() {
    assert_eq!(to_pascal_case("user profile"), "UserProfile");
    assert_eq!(to_pascal_case("  order   item "), "OrderItem");
    assert_eq!(to_pascal_case("already"), "Already");
    assert_eq!(to_pascal_case("mIxed case"), "MIxedCase");
}

#[test]
fn pascal_of_blank_is_empty() {
    assert_eq!(to_pascal_case(""), "");
    assert_eq!(to_pascal_case(" \t\n"), "");
}

#[test]
fn pascal_upper_case_may_grow() {
    assert_eq!(to_pascal_case("ß x"), "SSX");
}

#[test]
fn camel_lowers_first_word() {
    assert_eq!(to_camel_case("User Profile"), "userProfile");
    assert_eq!(to_camel_case("  ORDER item  list"), "orderItemList");
    assert_eq!(to_camel_case("single"), "single");
}

#[test]
fn camel_of_blank_is_empty() {
    assert_eq!(to_camel_case(""), "");
    assert_eq!(to_camel_case("   "), "");
}

#[test]
fn matching_parenthesis_found() {
    let text = "f(a, (b), c) + 1";
    assert_eq!(find_matching_parenthesis(text, 1), Some(11));
    assert_eq!(find_matching_parenthesis(text, 5), Some(7));
}

#[test]
fn matching_parenthesis_missing() {
    assert_eq!(find_matching_parenthesis("f(a, (b)", 1), None);
    assert_eq!(find_matching_parenthesis("(", 0), None);
}

#[test]
fn matching_parenthesis_nested() {
    let text = "cfg.service(web::scope(\"/a\").configure(x));";
    assert_eq!(find_matching_parenthesis(text, 11), Some(41));
}

#[test]
fn resource_type_names() {
    use_resource_name("blog_post", "BlogPost");
    use_resource_name("order-item", "OrderItem");
    use_resource_name("user", "User");
    use_resource_name("__a", "A");
    use_resource_name("", "");
    use_resource_name("x9_éa", "X9éa");
}

fn use_resource_name(input: &str, expected: &str) {
    assert_eq!(cargo_mold::scaffold::to_pascal_case(input), expected);
}
