//! Extraction of weather, wind and attendance from the boxscore page's
//! semi-structured markup: the bold-tag items are split out and filtered,
//! then each value is parsed from its free text.

use vstd::prelude::*;

use crate::numbers::{dec_value, parse_u32, parse_u8, parses_as_u32, parses_as_u8};
use crate::split::{
    split_spec, split_str, strings_view, trim_end_char_spec, trim_end_matches_char, trim_spec,
    trim_str, lemma_split_nonempty, lemma_split_contains_two,
};
use crate::text::{
    contains_seq, contains_seq_ci, push_char, starts_with_seq, str_contains, str_contains_ci,
    str_starts_with,
};

verus! {

/// Why the boxscore markup could not be read.
#[derive(Clone, Copy, Debug, PartialEq, Eq, Structural)]
pub enum BoxscoreError {
    /// Fewer than two weather items were found.
    MissingItems,
    /// The weather item does not look like a temperature line.
    WeatherFormat,
    /// The wind item does not look like a wind line.
    WindFormat,
}

/// A bold-tag item worth keeping: a weather, wind or attendance line with a
/// value after a colon.
pub open spec fn boxscore_kept(item: Seq<char>) -> bool {
    &&& (starts_with_seq(item, "Weather"@) || starts_with_seq(item, "Wind"@) || starts_with_seq(
        item,
        "Att"@,
    ))
    &&& contains_seq(item, ":"@)
}

/// The value of a kept item: what stands after the first colon, up to the
/// next colon, trimmed.
pub open spec fn boxscore_mapped(item: Seq<char>) -> Seq<char> {
    trim_spec(split_spec(item, ":"@)[1])
}

/// The kept items' values, in order.
pub open spec fn boxscore_filter_map(items: Seq<Seq<char>>) -> Seq<Seq<char>>
    decreases items.len(),
{
    if items.len() == 0 {
        Seq::empty()
    } else {
        boxscore_filter_map(items.drop_last()) + if boxscore_kept(items.last()) {
            seq![boxscore_mapped(items.last())]
        } else {
            Seq::empty()
        }
    }
}

/// The weather items a boxscore page yields: split on the bold tag, filter,
/// extract each value.
pub open spec fn boxscore_items(xml: Seq<char>) -> Seq<Seq<char>> {
    boxscore_filter_map(split_spec(xml, "<b>"@))
}

/// The first item reads like a temperature line.
pub open spec fn weather_format_ok(items: Seq<Seq<char>>) -> bool {
    contains_seq_ci(items[0], " degrees,"@) && contains_seq(items[0], "<"@)
}

/// The second item reads like a wind line (the markup check inspects the
/// first item, as the feed's layout warrants).
pub open spec fn wind_format_ok(items: Seq<Seq<char>>) -> bool {
    contains_seq_ci(items[1], "mph,"@) && contains_seq(items[0], "<"@)
}

/// Splits a boxscore page into its weather, wind and attendance values.
///
/// Returns the extracted values when the page holds at least a plausible
/// temperature line and wind line; otherwise says which expectation failed.
pub fn split_boxscore_xml(xml: &str) -> (r: Result<Vec<String>, BoxscoreError>)
    ensures
        r matches Ok(v) ==> strings_view(v@) == boxscore_items(xml@) && boxscore_items(
            xml@,
        ).len() >= 2 && weather_format_ok(boxscore_items(xml@)) && wind_format_ok(
            boxscore_items(xml@),
        ),
        r == Err::<Vec<String>, BoxscoreError>(BoxscoreError::MissingItems) <==> boxscore_items(
            xml@,
        ).len() < 2,
        r == Err::<Vec<String>, BoxscoreError>(BoxscoreError::WeatherFormat) <==> boxscore_items(
            xml@,
        ).len() >= 2 && !weather_format_ok(boxscore_items(xml@)),
        r == Err::<Vec<String>, BoxscoreError>(BoxscoreError::WindFormat) <==> boxscore_items(
            xml@,
        ).len() >= 2 && weather_format_ok(boxscore_items(xml@)) && !wind_format_ok(
            boxscore_items(xml@),
        ),
{
    proof {
        reveal_strlit("<b>");
    }
    let raw = split_str(xml, "<b>");
    let mut items: Vec<String> = Vec::new();
    let n = raw.len();
    let mut i: usize = 0;
    while i < n
        invariant
            n == raw@.len(),
            i <= n,
            strings_view(items@) == boxscore_filter_map(strings_view(raw@).take(i as int)),
            strings_view(raw@) == split_spec(xml@, "<b>"@),
        decreases n - i,
    {
        proof {
            assert(strings_view(raw@).take(i + 1).drop_last() =~= strings_view(raw@).take(
                i as int,
            ));
            assert(strings_view(raw@).take(i + 1).last() == raw@[i as int]@);
        }
        let item = &raw[i];
        let keep = (str_starts_with(item.as_str(), "Weather") || str_starts_with(
            item.as_str(),
            "Wind",
        ) || str_starts_with(item.as_str(), "Att")) && str_contains(item.as_str(), ":");
        if keep {
            proof {
                reveal_strlit(":");
                lemma_split_contains_two(item@, ":"@);
            }
            proof {
                reveal_strlit(":");
            }
            let parts = split_str(item.as_str(), ":");
            assert(parts@.len() == strings_view(parts@).len());
            let value = trim_str(parts[1].as_str());
            items.push(value);
            proof {
                assert(strings_view(items@) =~= strings_view(items@.drop_last()) + seq![
                    boxscore_mapped(raw@[i as int]@),
                ]);
            }
        }
        i = i + 1;
    }
    proof {
        assert(strings_view(raw@).take(n as int) =~= strings_view(raw@));
    }
    if items.len() < 2 {
        return Err(BoxscoreError::MissingItems);
    }
    let weather_ok = str_contains_ci(items[0].as_str(), " degrees,") && str_contains(
        items[0].as_str(),
        "<",
    );
    if !weather_ok {
        return Err(BoxscoreError::WeatherFormat);
    }
    let wind_ok = str_contains_ci(items[1].as_str(), "mph,") && str_contains(
        items[0].as_str(),
        "<",
    );
    if !wind_ok {
        return Err(BoxscoreError::WindFormat);
    }
    Ok(items)
}

/// The leading word of a weather item: the temperature digits.
pub open spec fn weather_temp_str(item: Seq<char>) -> Seq<char> {
    split_spec(item, " "@)[0]
}

/// The condition text of a weather item: what follows the first comma, cut
/// at the first angle bracket, stripped of a trailing period and of
/// whitespace.
pub open spec fn weather_cond_str(item: Seq<char>) -> Seq<char> {
    trim_spec(trim_end_char_spec(split_spec(split_spec(item, ","@)[1], "<"@)[0], '.'))
}

/// Reads one weather or wind item: the leading number and the following
/// description.
///
/// Succeeds exactly when the item's first word is a small decimal number and
/// a comma separates the number from the description.
pub fn parse_weather(item: &str) -> (r: Option<(u8, String)>)
    ensures
        r is Some <==> parses_as_u8(weather_temp_str(item@)) && split_spec(item@, ","@).len()
            >= 2,
        r matches Some(p) ==> p.0 == dec_value(weather_temp_str(item@)) && p.1@
            == weather_cond_str(item@),
{
    proof {
        reveal_strlit(" ");
        lemma_split_nonempty(item@, " "@);
    }
    let words = split_str(item, " ");
    assert(words@.len() == strings_view(words@).len());
    let temp = match parse_u8(words[0].as_str()) {
        Some(t) => t,
        None => {
            return None;
        },
    };
    proof {
        reveal_strlit(",");
    }
    let commas = split_str(item, ",");
    assert(commas@.len() == strings_view(commas@).len());
    if commas.len() < 2 {
        return None;
    }
    proof {
        reveal_strlit("<");
        lemma_split_nonempty(commas@[1]@, "<"@);
    }
    let cond_parts = split_str(commas[1].as_str(), "<");
    assert(cond_parts@.len() == strings_view(cond_parts@).len());
    let undotted = trim_end_matches_char(cond_parts[0].as_str(), '.');
    let cond = trim_str(undotted.as_str());
    Some((temp, cond))
}

/// The characters dropped from an attendance figure before parsing.
pub open spec fn is_attendance_separator(c: char) -> bool {
    c == ':' || c == ',' || c == '.'
}

/// An attendance figure with colons, commas and periods removed.
pub open spec fn strip_separators(s: Seq<char>) -> Seq<char>
    decreases s.len(),
{
    if s.len() == 0 {
        Seq::empty()
    } else {
        strip_separators(s.drop_last()) + if is_attendance_separator(s.last()) {
            Seq::empty()
        } else {
            seq![s.last()]
        }
    }
}

/// The digits an attendance entry denotes: separators stripped, markup cut
/// off, whitespace trimmed.
pub open spec fn attendance_str(att: Seq<char>) -> Seq<char> {
    trim_spec(split_spec(strip_separators(att), "<"@)[0])
}

/// Removes the separator characters from an attendance figure.
fn strip_separators_str(s: &str) -> (r: String)
    ensures
        r@ == strip_separators(s@),
{
    let n = s.unicode_len();
    let mut out = String::new();
    let mut i: usize = 0;
    while i < n
        invariant
            n == s@.len(),
            i <= n,
            out@ == strip_separators(s@.take(i as int)),
        decreases n - i,
    {
        let c = s.get_char(i);
        proof {
            assert(s@.take(i + 1).drop_last() =~= s@.take(i as int));
            assert(s@.take(i + 1).last() == s@[i as int]);
        }
        if !(c == ':' || c == ',' || c == '.') {
            push_char(&mut out, c);
            assert(out@ =~= strip_separators(s@.take(i + 1)));
        } else {
            assert(out@ =~= strip_separators(s@.take(i + 1)));
        }
        i = i + 1;
    }
    proof {
        assert(s@.take(n as int) =~= s@);
    }
    out
}

/// Reads an attendance figure ("Att: 41,234.<br/>") as a number.
///
/// Succeeds exactly when, after dropping separators, markup and whitespace,
/// one or more digits remain and their value fits in 32 bits.
pub fn parse_attendance(att: &str) -> (r: Option<u32>)
    ensures
        r is Some <==> parses_as_u32(attendance_str(att@)),
        r matches Some(v) ==> v == dec_value(attendance_str(att@)),
{
    let stripped = strip_separators_str(att);
    proof {
        reveal_strlit("<");
        lemma_split_nonempty(stripped@, "<"@);
    }
    let parts = split_str(stripped.as_str(), "<");
    assert(parts@.len() == strings_view(parts@).len());
    let digits = trim_str(parts[0].as_str());
    parse_u32(digits.as_str())
}

} // verus!
