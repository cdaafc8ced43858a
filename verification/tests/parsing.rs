use fosstoon::labels::{parse_genre, parse_schedule};
use fosstoon::text::{
    chars_of_str, concat_chars, eq_chars, lower_chars, parse_usize, remove_all_exec, split_exec,
    string_of_chars, strip_prefix_all_exec, strip_prefix_once, strip_suffix_all_exec, trim_chars,
    usize_to_chars,
};
use fosstoon::types::{Genre, Schedule, Weekday, WtType};

fn chars(s: &str) -> Vec<char> {
    chars_of_str(s)
}

fn back(v: &Vec<char>) -> String {
    string_of_chars(v)
}

#[test]
fn chars_round_trip() {
    let v = chars("héllo, wörld");
    assert_eq!(back(&v), "héllo, wörld");
    assert_eq!(v.len(), 12);
}

#[test]
fn trim_strips_both_ends() {
    assert_eq!(back(&trim_chars(&chars("  padded \t\n"))), "padded");
    assert_eq!(back(&trim_chars(&chars(""))), "");
    assert_eq!(back(&trim_chars(&chars("   "))), "");
    assert_eq!(back(&trim_chars(&chars("no-pad"))), "no-pad");
}

#[test]
fn lower_is_ascii_only() {
    assert_eq!(back(&lower_chars(&chars("Every MON"))), "every mon");
    assert_eq!(back(&lower_chars(&chars("Ärger"))), "Ärger");
}

#[test]
fn strip_prefix_and_suffix() {
    assert_eq!(
        back(&strip_prefix_once(&chars("every mon"), &chars("every "))),
        "mon"
    );
    assert_eq!(
        back(&strip_prefix_once(&chars("mon"), &chars("every "))),
        "mon"
    );
    assert_eq!(back(&strip_prefix_all_exec(&chars("##12"), &chars("#"))), "12");
    assert_eq!(
        back(&strip_suffix_all_exec(&chars("TitleUPUP"), &chars("UP"))),
        "Title"
    );
}

#[test]
fn remove_all_commas() {
    assert_eq!(
        back(&remove_all_exec(&chars("1,234,567"), &chars(","))),
        "1234567"
    );
}

#[test]
fn split_matches_std() {
    let pieces = split_exec(&chars("a, b, c"), &chars(", "));
    let strs: Vec<String> = pieces.iter().map(back).collect();
    assert_eq!(strs, vec!["a", "b", "c"]);
    let empties = split_exec(&chars(""), &chars(","));
    assert_eq!(empties.len(), 1);
    assert_eq!(back(&empties[0]), "");
    let edges = split_exec(&chars("=x="), &chars("="));
    let strs: Vec<String> = edges.iter().map(back).collect();
    assert_eq!(strs, vec!["", "x", ""]);
}

#[test]
fn parse_usize_accepts_digits_only() {
    assert_eq!(parse_usize(&chars("0")), Some(0));
    assert_eq!(parse_usize(&chars("12345")), Some(12345));
    assert_eq!(parse_usize(&chars("")), None);
    assert_eq!(parse_usize(&chars("12a")), None);
    assert_eq!(parse_usize(&chars("99999999999999999999999999")), None);
}

#[test]
fn number_rendering_round_trips() {
    for n in [0usize, 7, 10, 99, 100, 843910, 1000000] {
        let digits = usize_to_chars(n);
        assert_eq!(parse_usize(&digits), Some(n));
        assert_eq!(back(&digits), n.to_string());
    }
}

#[test]
fn concat_and_eq() {
    let joined = concat_chars(&chars("ab"), &chars("cd"));
    assert!(eq_chars(&joined, &chars("abcd")));
    assert!(!eq_chars(&joined, &chars("abce")));
}

#[test]
fn schedule_multiple_weekdays() {
    let r = parse_schedule("Every Mon, Wed").unwrap();
    assert_eq!(
        r,
        Schedule::Weekdays(vec![Weekday::Monday, Weekday::Wednesday])
    );
}

#[test]
fn schedule_single_weekday() {
    let r = parse_schedule("Every Fri").unwrap();
    assert_eq!(r, Schedule::Weekday(Weekday::Friday));
}

#[test]
fn schedule_daily_and_completed() {
    assert_eq!(parse_schedule("Daily").unwrap(), Schedule::Daily);
    assert_eq!(parse_schedule("Completed").unwrap(), Schedule::Completed);
    assert_eq!(parse_schedule("COMPLETED").unwrap(), Schedule::Completed);
}

#[test]
fn schedule_unknown_token_errors() {
    let e = parse_schedule("Every Moonday").unwrap_err();
    assert_eq!(e, "Failed to parse weekday");
    assert!(parse_schedule("").is_err());
}

#[test]
fn genre_known_label() {
    assert_eq!(parse_genre("Comedy".to_string()), Genre::Comedy);
    assert_eq!(parse_genre("SliceOfLife".to_string()), Genre::SliceOfLife);
    assert_eq!(parse_genre("GraphicNovel".to_string()), Genre::GraphicNovel);
}

#[test]
fn genre_unknown_label_is_kept() {
    assert_eq!(
        parse_genre("Cooking".to_string()),
        Genre::Other("Cooking".to_string())
    );
}

#[test]
fn wt_type_parsing_and_labels() {
    assert_eq!(WtType::parse_str("Original").unwrap(), WtType::Original);
    assert_eq!(WtType::parse_str(" originals ").unwrap(), WtType::Original);
    assert_eq!(WtType::parse_str("CANVAS").unwrap(), WtType::Canvas);
    let e = WtType::parse_str("comics").unwrap_err();
    assert_eq!(e.message().as_str(), "non existing field");
    assert_eq!(WtType::Original.label(), "Originals");
    assert_eq!(WtType::Canvas.label(), "Canvas");
}

#[test]
fn weekday_acronyms() {
    assert_eq!(Weekday::Monday.to_acronym(), "Mon");
    assert_eq!(Weekday::Sunday.to_acronym(), "Sun");
    assert_eq!(Weekday::Saturday.to_acronym(), "Sat");
}
