//! Building and harvesting the feed's URLs: the per-day directory URL, the
//! per-inning file URLs, the game links listed on a day's index page, and
//! the year and level encoded in a game's URL.

use vstd::prelude::*;

use crate::split::{split_spec, split_str, strings_view, trim_spec, trim_str};
use crate::text::{contains_seq, str_contains};

verus! {

/// The root under which every level's daily directories live.
pub open spec fn feed_root() -> Seq<char> {
    "http://gd2.mlb.com/components/game/"@
}

/// The directory URL for one day of games. The feed's root is always the
/// majors' directory, whatever level is asked for, as the upstream layout
/// warrants.
pub fn game_day_url(_level: &str, year: &str, month: &str, day: &str) -> (r: String)
    ensures
        r@ == feed_root() + "mlb"@ + "/year_"@ + year@ + "/month_"@ + month@ + "/day_"@ + day@,
{
    let mut url = String::from_str("http://gd2.mlb.com/components/game/");
    url.append("mlb");
    url.append("/year_");
    url.append(year);
    url.append("/month_");
    url.append(month);
    url.append("/day_");
    url.append(day);
    url
}

/// One inning file URL for each inning label, in order.
pub fn create_inning_links(base: &str, innings: &Vec<String>) -> (r: Vec<String>)
    ensures
        r@.len() == innings@.len(),
        forall|i: int|
            0 <= i < r@.len() ==> r@[i]@ == base@ + "inning/inning_"@ + #[trigger] innings@[i]@
                + ".xml"@,
{
    let mut out: Vec<String> = Vec::new();
    let n = innings.len();
    let mut i: usize = 0;
    while i < n
        invariant
            n == innings@.len(),
            i <= n,
            out@.len() == i,
            forall|k: int|
                0 <= k < i ==> out@[k]@ == base@ + "inning/inning_"@ + #[trigger] innings@[k]@
                    + ".xml"@,
        decreases n - i,
    {
        let mut link = String::from_str(base);
        link.append("inning/inning_");
        link.append(innings[i].as_str());
        link.append(".xml");
        out.push(link);
        i = i + 1;
    }
    out
}

/// The segments of a line between angle brackets: split on `<`, then each
/// piece on `>`, in order.
pub open spec fn angle_parts_of(pieces: Seq<Seq<char>>) -> Seq<Seq<char>>
    decreases pieces.len(),
{
    if pieces.len() == 0 {
        Seq::empty()
    } else {
        angle_parts_of(pieces.drop_last()) + split_spec(pieces.last(), ">"@)
    }
}

/// A line split on either angle bracket.
pub open spec fn angle_parts(line: Seq<char>) -> Seq<Seq<char>> {
    angle_parts_of(split_spec(line, "<"@))
}

/// A list line that names a game directory.
pub open spec fn gid_line(line: Seq<char>) -> bool {
    contains_seq(line, "gid_"@)
}

/// Every game line of the page carries its directory name in the third
/// angle-bracket segment.
pub open spec fn links_extractable(lines: Seq<Seq<char>>) -> bool {
    forall|i: int|
        0 <= i < lines.len() && gid_line(#[trigger] lines[i]) ==> angle_parts(lines[i]).len() >= 3
}

/// The game links a day page yields: for each game line, the day URL, a
/// slash, and the trimmed directory name.
pub open spec fn links_of(url: Seq<char>, lines: Seq<Seq<char>>) -> Seq<Seq<char>>
    decreases lines.len(),
{
    if lines.len() == 0 {
        Seq::empty()
    } else {
        links_of(url, lines.drop_last()) + if gid_line(lines.last()) {
            seq![url + "/"@ + trim_spec(angle_parts(lines.last())[2])]
        } else {
            Seq::empty()
        }
    }
}

/// Splits a line on both angle brackets.
fn split_angles(line: &str) -> (r: Vec<String>)
    ensures
        strings_view(r@) == angle_parts(line@),
{
    proof {
        reveal_strlit("<");
        reveal_strlit(">");
    }
    let pieces = split_str(line, "<");
    let mut out: Vec<String> = Vec::new();
    let n = pieces.len();
    assert(n == strings_view(pieces@).len());
    let mut i: usize = 0;
    while i < n
        invariant
            n == pieces@.len(),
            i <= n,
            strings_view(out@) == angle_parts_of(strings_view(pieces@).take(i as int)),
            strings_view(pieces@) == split_spec(line@, "<"@),
        decreases n - i,
    {
        proof {
            reveal_strlit(">");
            assert(strings_view(pieces@).take(i + 1).drop_last() =~= strings_view(pieces@).take(
                i as int,
            ));
            assert(strings_view(pieces@).take(i + 1).last() == pieces@[i as int]@);
        }
        let mut sub = split_str(pieces[i].as_str(), ">");
        proof {
            assert(strings_view(out@ + sub@) =~= strings_view(out@) + strings_view(sub@));
        }
        out.append(&mut sub);
        i = i + 1;
    }
    proof {
        assert(strings_view(pieces@).take(n as int) =~= strings_view(pieces@));
    }
    out
}

/// Harvests the game links from a day page.
///
/// Succeeds exactly when every line naming a game directory is well-formed
/// enough to carry the directory name in its third angle-bracket segment;
/// one malformed line makes the whole page unreadable.
pub fn game_day_links(url: &str, response: &str) -> (r: Option<Vec<String>>)
    ensures
        r is Some <==> links_extractable(split_spec(response@, "<li>"@)),
        r matches Some(v) ==> strings_view(v@) == links_of(
            url@,
            split_spec(response@, "<li>"@),
        ),
{
    proof {
        reveal_strlit("<li>");
    }
    let lines = split_str(response, "<li>");
    let ghost all_lines = strings_view(lines@);
    let mut out: Vec<String> = Vec::new();
    let n = lines.len();
    assert(n == all_lines.len());
    let mut i: usize = 0;
    while i < n
        invariant
            n == lines@.len(),
            i <= n,
            all_lines == strings_view(lines@),
            all_lines == split_spec(response@, "<li>"@),
            strings_view(out@) == links_of(url@, all_lines.take(i as int)),
            forall|k: int|
                0 <= k < i && gid_line(#[trigger] all_lines[k]) ==> angle_parts(
                    all_lines[k],
                ).len() >= 3,
        decreases n - i,
    {
        proof {
            assert(all_lines.take(i + 1).drop_last() =~= all_lines.take(i as int));
            assert(all_lines.take(i + 1).last() == lines@[i as int]@);
        }
        if str_contains(lines[i].as_str(), "gid_") {
            let parts = split_angles(lines[i].as_str());
            assert(parts@.len() == strings_view(parts@).len());
            if parts.len() < 3 {
                return None;
            }
            let mut link = String::from_str(url);
            link.append("/");
            let tail = trim_str(parts[2].as_str());
            link.append(tail.as_str());
            out.push(link);
            proof {
                assert(strings_view(out@) =~= strings_view(out@.drop_last()) + seq![
                    url@ + "/"@ + trim_spec(angle_parts(all_lines[i as int])[2]),
                ]);
            }
        }
        i = i + 1;
    }
    proof {
        assert(all_lines.take(n as int) =~= all_lines);
    }
    Some(out)
}

/// The year and level a game URL encodes: the level is the URL's sixth
/// slash-separated segment, the year is what follows the underscore in the
/// seventh.
pub fn year_level_from_url(url: &str) -> (r: Option<(String, String)>)
    ensures
        r is Some <==> split_spec(url@, "/"@).len() >= 7 && split_spec(
            split_spec(url@, "/"@)[6],
            "_"@,
        ).len() >= 2,
        r matches Some(p) ==> p.0@ == split_spec(split_spec(url@, "/"@)[6], "_"@)[1] && p.1@
            == split_spec(url@, "/"@)[5],
{
    proof {
        reveal_strlit("/");
        reveal_strlit("_");
    }
    let segments = split_str(url, "/");
    assert(segments@.len() == strings_view(segments@).len());
    if segments.len() < 7 {
        return None;
    }
    let year_parts = split_str(segments[6].as_str(), "_");
    assert(year_parts@.len() == strings_view(year_parts@).len());
    if year_parts.len() < 2 {
        return None;
    }
    let year = year_parts[1].clone();
    let level = segments[5].clone();
    Some((year, level))
}

} // verus!
