//! Parsing of the platform's free-text labels: release schedules and genres.
use vstd::prelude::*;

use crate::text;
use crate::types::{Genre, Schedule, Weekday};

verus! {

/// The fixed three-letter token table of the schedule labels.
pub open spec fn weekday_of_token(t: Seq<char>) -> Option<Weekday> {
    if t == "mon"@ {
        Some(Weekday::Monday)
    } else if t == "tue"@ {
        Some(Weekday::Tuesday)
    } else if t == "wed"@ {
        Some(Weekday::Wednesday)
    } else if t == "thu"@ {
        Some(Weekday::Thursday)
    } else if t == "fri"@ {
        Some(Weekday::Friday)
    } else if t == "sat"@ {
        Some(Weekday::Saturday)
    } else if t == "sun"@ {
        Some(Weekday::Sunday)
    } else {
        None
    }
}

/// The weekdays named by a token list, or nothing if any token is unknown.
pub open spec fn days_of_tokens(ts: Seq<Seq<char>>) -> Option<Seq<Weekday>>
    decreases ts.len(),
{
    if ts.len() == 0 {
        Some(Seq::<Weekday>::empty())
    } else {
        match weekday_of_token(ts[0]) {
            None => None,
            Some(w) => match days_of_tokens(ts.drop_first()) {
                None => None,
                Some(rest) => Some(seq![w] + rest),
            },
        }
    }
}

/// The token list of a schedule label: lowercase it, strip one leading
/// "every " prefix, split on ", ".
pub open spec fn schedule_tokens(s: Seq<char>) -> Seq<Seq<char>> {
    text::split_spec(text::strip_prefix_spec(text::lower_spec(s), "every "@), ", "@)
}

fn weekday_of_token_exec(t: &Vec<char>) -> (r: Option<Weekday>)
    ensures
        r == weekday_of_token(t@),
{
    if text::eq_chars(t, &text::chars_of_str("mon")) {
        Some(Weekday::Monday)
    } else if text::eq_chars(t, &text::chars_of_str("tue")) {
        Some(Weekday::Tuesday)
    } else if text::eq_chars(t, &text::chars_of_str("wed")) {
        Some(Weekday::Wednesday)
    } else if text::eq_chars(t, &text::chars_of_str("thu")) {
        Some(Weekday::Thursday)
    } else if text::eq_chars(t, &text::chars_of_str("fri")) {
        Some(Weekday::Friday)
    } else if text::eq_chars(t, &text::chars_of_str("sat")) {
        Some(Weekday::Saturday)
    } else if text::eq_chars(t, &text::chars_of_str("sun")) {
        Some(Weekday::Sunday)
    } else {
        None
    }
}

/// Whether `sched` is what the schedule label `s` reads as.
pub open spec fn schedule_matches(s: Seq<char>, sched: Schedule) -> bool {
    let low = text::lower_spec(s);
    let days = days_of_tokens(schedule_tokens(s));
    match sched {
        Schedule::Completed => low == "completed"@,
        Schedule::Daily => low == "daily"@,
        Schedule::Weekday(w) => low != "completed"@ && low != "daily"@ && days == Some(seq![w]),
        Schedule::Weekdays(ws) => low != "completed"@ && low != "daily"@ && (days matches Some(d)
            && d == ws@ && d.len() >= 2),
    }
}

/// The parse failure of a schedule label, if it has one.
pub open spec fn schedule_error(s: Seq<char>) -> Option<Seq<char>> {
    let low = text::lower_spec(s);
    let days = days_of_tokens(schedule_tokens(s));
    if low == "completed"@ || low == "daily"@ {
        None
    } else if days is None {
        Some("Failed to parse weekday"@)
    } else if days == Some(Seq::<Weekday>::empty()) {
        Some("no matches"@)
    } else {
        None
    }
}

/// Parse a schedule label.
///
/// "completed" and "daily" (in any casing) stand alone; anything else is a
/// weekday list. One weekday gives `Schedule::Weekday`, several give
/// `Schedule::Weekdays`; an unknown token is an error.
pub fn parse_schedule(s: &str) -> (r: Result<Schedule, String>)
    ensures
        match r {
            Ok(sched) => schedule_error(s@) is None && schedule_matches(s@, sched),
            Err(e) => schedule_error(s@) == Some(e@),
        },
{
    let cs = text::chars_of_str(s);
    let low = text::lower_chars(&cs);
    if text::eq_chars(&low, &text::chars_of_str("completed")) {
        return Ok(Schedule::Completed);
    }
    if text::eq_chars(&low, &text::chars_of_str("daily")) {
        return Ok(Schedule::Daily);
    }
    let stripped = text::strip_prefix_once(&low, &text::chars_of_str("every "));
    let sep = text::chars_of_str(", ");
    proof {
        reveal_strlit(", ");
    }
    let tokens = text::split_exec(&stripped, &sep);
    let ghost toks = schedule_tokens(s@);
    proof {
        assert(toks.len() == tokens@.len());
        assert(forall|k: int| 0 <= k < toks.len() ==> tokens@[k]@ == toks[k]);
    }
    let mut days: Vec<Weekday> = Vec::new();
    let mut i: usize = 0;
    proof {
        assert(toks.skip(0) =~= toks);
        if days_of_tokens(toks) is Some {
            let d0 = days_of_tokens(toks)->0;
            assert(Seq::<Weekday>::empty() + d0 =~= d0);
        }
    }
    while i < tokens.len()
        invariant
            0 <= i <= tokens@.len(),
            toks == schedule_tokens(s@),
            low@ == text::lower_spec(s@),
            low@ != "completed"@,
            low@ != "daily"@,
            toks.len() == tokens@.len(),
            forall|k: int| 0 <= k < toks.len() ==> tokens@[k]@ == toks[k],
            days@.len() == i,
            days_of_tokens(toks) == match days_of_tokens(toks.skip(i as int)) {
                None => None::<Seq<Weekday>>,
                Some(d) => Some(days@ + d),
            },
        decreases tokens@.len() - i,
    {
        let ghost suffix = toks.skip(i as int);
        proof {
            assert(suffix.len() > 0);
            assert(suffix[0] == toks[i as int]);
            assert(suffix.drop_first() =~= toks.skip(i + 1));
        }
        match weekday_of_token_exec(&tokens[i]) {
            None => {
                proof {
                    assert(days_of_tokens(suffix) is None);
                }
                return Err("Failed to parse weekday".to_owned());
            },
            Some(w) => {
                let ghost prev = days@;
                days.push(w);
                proof {
                    match days_of_tokens(toks.skip(i + 1)) {
                        None => {
                            assert(days_of_tokens(suffix) is None);
                        },
                        Some(d) => {
                            assert(days_of_tokens(suffix) == Some(seq![w] + d));
                            assert(days_of_tokens(toks) == Some(prev + (seq![w] + d)));
                            assert(prev + (seq![w] + d) =~= days@ + d);
                        },
                    }
                }
                i = i + 1;
            },
        }
    }
    proof {
        assert(toks.skip(toks.len() as int) =~= Seq::<Seq<char>>::empty());
        assert(days_of_tokens(Seq::<Seq<char>>::empty()) == Some(Seq::<Weekday>::empty()));
        assert(days@ + Seq::<Weekday>::empty() =~= days@);
        assert(days_of_tokens(toks) == Some(days@));
    }
    if days.len() == 0 {
        return Err("no matches".to_owned());
    }
    if days.len() == 1 {
        let w = days[0];
        proof {
            assert(days@ =~= seq![w]);
        }
        return Ok(Schedule::Weekday(w));
    }
    Ok(Schedule::Weekdays(days))
}

/// The label of each known genre; the fallback keeps its own text.
pub open spec fn genre_label(g: Genre) -> Seq<char> {
    match g {
        Genre::Comedy => "Comedy"@,
        Genre::Fantasy => "Fantasy"@,
        Genre::Romance => "Romance"@,
        Genre::SliceOfLife => "SliceOfLife"@,
        Genre::SciFi => "SciFi"@,
        Genre::Drama => "Drama"@,
        Genre::ShortStory => "ShortStory"@,
        Genre::Action => "Action"@,
        Genre::Superhero => "Superhero"@,
        Genre::Heartwarming => "Heartwarming"@,
        Genre::Thriller => "Thriller"@,
        Genre::Horror => "Horror"@,
        Genre::PostApocalyptic => "PostApocalyptic"@,
        Genre::Zombies => "Zombies"@,
        Genre::School => "School"@,
        Genre::Supernatural => "Supernatural"@,
        Genre::Animals => "Animals"@,
        Genre::Mystery => "Mystery"@,
        Genre::Historical => "Historical"@,
        Genre::Informative => "Informative"@,
        Genre::Sports => "Sports"@,
        Genre::Inspirational => "Inspirational"@,
        Genre::AllAges => "AllAges"@,
        Genre::LGBTQ => "LGBTQ"@,
        Genre::RomanticFantasy => "RomanticFantasy"@,
        Genre::MartialArts => "MartialArts"@,
        Genre::WesternPalace => "WesternPalace"@,
        Genre::EasternPalace => "EasternPalace"@,
        Genre::MatureRomance => "MatureRomance"@,
        Genre::TimeSlip => "TimeSlip"@,
        Genre::Local => "Local"@,
        Genre::CityOffice => "CityOffice"@,
        Genre::Adaptation => "Adaptation"@,
        Genre::Shonen => "Shonen"@,
        Genre::WebNovel => "WebNovel"@,
        Genre::GraphicNovel => "GraphicNovel"@,
        Genre::Other(s) => s@,
    }
}

/// Whether a raw label names one of the known genres.
pub open spec fn known_genre(s: Seq<char>) -> bool {
    exists|g: Genre| !(g is Other) && genre_label(g) == s
}

/// Whether `g` is what the raw genre label `raw` reads as.
pub open spec fn genre_matches(raw: Seq<char>, g: Genre) -> bool {
    if g is Other {
        g matches Genre::Other(s) && s@ == raw && !known_genre(raw)
    } else {
        genre_label(g) == raw
    }
}

/// Parse a raw genre label: a known label maps to its case, anything else is
/// kept verbatim in the fallback, so new platform categories never fail.
pub fn parse_genre(raw: String) -> (r: Genre)
    ensures
        genre_matches(raw@, r),
{
    let cs = text::chars_of_str(raw.as_str());
    let r = if text::eq_chars(&cs, &text::chars_of_str("Comedy")) {
        Genre::Comedy
    } else if text::eq_chars(&cs, &text::chars_of_str("Fantasy")) {
        Genre::Fantasy
    } else if text::eq_chars(&cs, &text::chars_of_str("Romance")) {
        Genre::Romance
    } else if text::eq_chars(&cs, &text::chars_of_str("SliceOfLife")) {
        Genre::SliceOfLife
    } else if text::eq_chars(&cs, &text::chars_of_str("SciFi")) {
        Genre::SciFi
    } else if text::eq_chars(&cs, &text::chars_of_str("Drama")) {
        Genre::Drama
    } else if text::eq_chars(&cs, &text::chars_of_str("ShortStory")) {
        Genre::ShortStory
    } else if text::eq_chars(&cs, &text::chars_of_str("Action")) {
        Genre::Action
    } else if text::eq_chars(&cs, &text::chars_of_str("Superhero")) {
        Genre::Superhero
    } else if text::eq_chars(&cs, &text::chars_of_str("Heartwarming")) {
        Genre::Heartwarming
    } else if text::eq_chars(&cs, &text::chars_of_str("Thriller")) {
        Genre::Thriller
    } else if text::eq_chars(&cs, &text::chars_of_str("Horror")) {
        Genre::Horror
    } else if text::eq_chars(&cs, &text::chars_of_str("PostApocalyptic")) {
        Genre::PostApocalyptic
    } else if text::eq_chars(&cs, &text::chars_of_str("Zombies")) {
        Genre::Zombies
    } else if text::eq_chars(&cs, &text::chars_of_str("School")) {
        Genre::School
    } else if text::eq_chars(&cs, &text::chars_of_str("Supernatural")) {
        Genre::Supernatural
    } else if text::eq_chars(&cs, &text::chars_of_str("Animals")) {
        Genre::Animals
    } else if text::eq_chars(&cs, &text::chars_of_str("Mystery")) {
        Genre::Mystery
    } else if text::eq_chars(&cs, &text::chars_of_str("Historical")) {
        Genre::Historical
    } else if text::eq_chars(&cs, &text::chars_of_str("Informative")) {
        Genre::Informative
    } else if text::eq_chars(&cs, &text::chars_of_str("Sports")) {
        Genre::Sports
    } else if text::eq_chars(&cs, &text::chars_of_str("Inspirational")) {
        Genre::Inspirational
    } else if text::eq_chars(&cs, &text::chars_of_str("AllAges")) {
        Genre::AllAges
    } else if text::eq_chars(&cs, &text::chars_of_str("LGBTQ")) {
        Genre::LGBTQ
    } else if text::eq_chars(&cs, &text::chars_of_str("RomanticFantasy")) {
        Genre::RomanticFantasy
    } else if text::eq_chars(&cs, &text::chars_of_str("MartialArts")) {
        Genre::MartialArts
    } else if text::eq_chars(&cs, &text::chars_of_str("WesternPalace")) {
        Genre::WesternPalace
    } else if text::eq_chars(&cs, &text::chars_of_str("EasternPalace")) {
        Genre::EasternPalace
    } else if text::eq_chars(&cs, &text::chars_of_str("MatureRomance")) {
        Genre::MatureRomance
    } else if text::eq_chars(&cs, &text::chars_of_str("TimeSlip")) {
        Genre::TimeSlip
    } else if text::eq_chars(&cs, &text::chars_of_str("Local")) {
        Genre::Local
    } else if text::eq_chars(&cs, &text::chars_of_str("CityOffice")) {
        Genre::CityOffice
    } else if text::eq_chars(&cs, &text::chars_of_str("Adaptation")) {
        Genre::Adaptation
    } else if text::eq_chars(&cs, &text::chars_of_str("Shonen")) {
        Genre::Shonen
    } else if text::eq_chars(&cs, &text::chars_of_str("WebNovel")) {
        Genre::WebNovel
    } else if text::eq_chars(&cs, &text::chars_of_str("GraphicNovel")) {
        Genre::GraphicNovel
    } else {
        proof {
            assert forall|g: Genre| !(g is Other) implies genre_label(g) != raw@ by {}
        }
        Genre::Other(raw)
    };
    r
}

/// The display text of a genre: its label, or the fallback's own text.
pub fn genre_label_text(g: &Genre) -> (r: String)
    ensures
        r@ == genre_label(*g),
{
    match g {
        Genre::Comedy => "Comedy".to_owned(),
        Genre::Fantasy => "Fantasy".to_owned(),
        Genre::Romance => "Romance".to_owned(),
        Genre::SliceOfLife => "SliceOfLife".to_owned(),
        Genre::SciFi => "SciFi".to_owned(),
        Genre::Drama => "Drama".to_owned(),
        Genre::ShortStory => "ShortStory".to_owned(),
        Genre::Action => "Action".to_owned(),
        Genre::Superhero => "Superhero".to_owned(),
        Genre::Heartwarming => "Heartwarming".to_owned(),
        Genre::Thriller => "Thriller".to_owned(),
        Genre::Horror => "Horror".to_owned(),
        Genre::PostApocalyptic => "PostApocalyptic".to_owned(),
        Genre::Zombies => "Zombies".to_owned(),
        Genre::School => "School".to_owned(),
        Genre::Supernatural => "Supernatural".to_owned(),
        Genre::Animals => "Animals".to_owned(),
        Genre::Mystery => "Mystery".to_owned(),
        Genre::Historical => "Historical".to_owned(),
        Genre::Informative => "Informative".to_owned(),
        Genre::Sports => "Sports".to_owned(),
        Genre::Inspirational => "Inspirational".to_owned(),
        Genre::AllAges => "AllAges".to_owned(),
        Genre::LGBTQ => "LGBTQ".to_owned(),
        Genre::RomanticFantasy => "RomanticFantasy".to_owned(),
        Genre::MartialArts => "MartialArts".to_owned(),
        Genre::WesternPalace => "WesternPalace".to_owned(),
        Genre::EasternPalace => "EasternPalace".to_owned(),
        Genre::MatureRomance => "MatureRomance".to_owned(),
        Genre::TimeSlip => "TimeSlip".to_owned(),
        Genre::Local => "Local".to_owned(),
        Genre::CityOffice => "CityOffice".to_owned(),
        Genre::Adaptation => "Adaptation".to_owned(),
        Genre::Shonen => "Shonen".to_owned(),
        Genre::WebNovel => "WebNovel".to_owned(),
        Genre::GraphicNovel => "GraphicNovel".to_owned(),
        Genre::Other(s) => s.clone(),
    }
}

} // verus!
