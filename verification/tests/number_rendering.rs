use bluebgg::collection::BriefItem;
use bluebgg::numfmt::rating_to_string;
use bluebgg::numfmt::u64_to_decimal;
use bluebgg::render::format_game_line;
use bluebgg::render::rating_label_string;

#[test]
fn decimal_of_zero() {
    assert_eq!(u64_to_decimal(0), "0");
}

#[test]
fn decimal_of_multi_digit_numbers() {
    assert_eq!(u64_to_decimal(7), "7");
    assert_eq!(u64_to_decimal(10), "10");
    assert_eq!(u64_to_decimal(173), "173");
    assert_eq!(u64_to_decimal(1000000), "1000000");
}

#[test]
fn decimal_of_largest_value() {
    assert_eq!(u64_to_decimal(u64::MAX), "18446744073709551615");
}

#[test]
fn whole_ratings_print_without_fraction() {
    assert_eq!(rating_to_string(90), "9");
    assert_eq!(rating_to_string(100), "10");
    assert_eq!(rating_to_string(0), "0");
}

#[test]
fn fractional_ratings_print_one_digit() {
    assert_eq!(rating_to_string(75), "7.5");
    assert_eq!(rating_to_string(5), "0.5");
    assert_eq!(rating_to_string(101), "10.1");
}

#[test]
fn missing_rating_prints_unrated() {
    assert_eq!(rating_label_string(&None), "Unrated");
    assert_eq!(rating_label_string(&Some(80)), "8");
}

#[test]
fn game_line_links_name_to_its_page() {
    let line = format_game_line(&BriefItem {
        id: 13,
        name: String::from("Azul"),
        rating_tenths: Some(85),
    });
    assert_eq!(
        line,
        "- [Azul](https://boardgamegeek.com/boardgame/13) - (8.5)\n"
    );
}
