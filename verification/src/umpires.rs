//! Pivoting the feed's umpire list into one flat record per game: each
//! crew position becomes a pair of fields, and a position nobody filled
//! stays empty.

use vstd::prelude::*;

use crate::text::str_eq;

verus! {

/// One umpire as the feed lists them: a crew position, a name, and an
/// identity that older records lack.
pub struct Umpire {
    /// Crew position: "home", "first", "second", "third", "left", "right".
    pub position: String,
    /// The umpire's name.
    pub name: String,
    /// The umpire's identity, absent in older records.
    pub id: Option<u32>,
}

/// The game's umpire crew, one pair of fields per position.
#[allow(non_snake_case)]
pub struct GameUmpires {
    pub ump_HP_id: Option<u32>,
    pub ump_1B_id: Option<u32>,
    pub ump_2B_id: Option<u32>,
    pub ump_3B_id: Option<u32>,
    pub ump_LF_id: Option<u32>,
    pub ump_RF_id: Option<u32>,
    pub ump_HP_name: String,
    pub ump_1B_name: String,
    pub ump_2B_name: String,
    pub ump_3B_name: String,
    pub ump_LF_name: String,
    pub ump_RF_name: String,
}

/// The last listed umpire at the given position; when the feed repeats a
/// position, the later entry wins.
pub open spec fn find_last(umps: Seq<Umpire>, pos: Seq<char>) -> Option<Umpire>
    decreases umps.len(),
{
    if umps.len() == 0 {
        None
    } else if umps.last().position@ == pos {
        Some(umps.last())
    } else {
        find_last(umps.drop_last(), pos)
    }
}

/// The identity the pivot records for a position.
pub open spec fn position_id(umps: Seq<Umpire>, pos: Seq<char>) -> Option<u32> {
    match find_last(umps, pos) {
        Some(u) => u.id,
        None => None,
    }
}

/// The name the pivot records for a position: the umpire's name, or empty
/// when nobody filled the position.
pub open spec fn position_name_ok(umps: Seq<Umpire>, pos: Seq<char>, name: String) -> bool {
    match find_last(umps, pos) {
        Some(u) => name == u.name,
        None => name@.len() == 0,
    }
}

/// Finds the last listed umpire at a position, handing out the identity and
/// the name.
fn find_umpire(umps: &Vec<Umpire>, pos: &str) -> (r: (Option<u32>, String))
    ensures
        r.0 == position_id(umps@, pos@),
        position_name_ok(umps@, pos@, r.1),
{
    let n = umps.len();
    let mut i: usize = n;
    proof {
        assert(umps@.take(n as int) =~= umps@);
    }
    while i > 0
        invariant
            i <= n,
            n == umps@.len(),
            find_last(umps@, pos@) == find_last(umps@.take(i as int), pos@),
        decreases i,
    {
        proof {
            assert(umps@.take(i as int).last() == umps@[i - 1]);
            assert(umps@.take(i as int).drop_last() =~= umps@.take(i - 1));
        }
        if str_eq(umps[i - 1].position.as_str(), pos) {
            return (umps[i - 1].id, umps[i - 1].name.clone());
        }
        i = i - 1;
    }
    (None, String::new())
}

/// Pivots the feed's umpire list into the per-game crew record: for each of
/// the six positions, the last listed umpire's identity and name, or an
/// absent identity and an empty name when the position went unfilled.
#[allow(non_snake_case)]
pub fn game_umpires_from(umps: &Vec<Umpire>) -> (r: GameUmpires)
    ensures
        r.ump_HP_id == position_id(umps@, "home"@),
        r.ump_1B_id == position_id(umps@, "first"@),
        r.ump_2B_id == position_id(umps@, "second"@),
        r.ump_3B_id == position_id(umps@, "third"@),
        r.ump_LF_id == position_id(umps@, "left"@),
        r.ump_RF_id == position_id(umps@, "right"@),
        position_name_ok(umps@, "home"@, r.ump_HP_name),
        position_name_ok(umps@, "first"@, r.ump_1B_name),
        position_name_ok(umps@, "second"@, r.ump_2B_name),
        position_name_ok(umps@, "third"@, r.ump_3B_name),
        position_name_ok(umps@, "left"@, r.ump_LF_name),
        position_name_ok(umps@, "right"@, r.ump_RF_name),
{
    let (ump_HP_id, ump_HP_name) = find_umpire(umps, "home");
    let (ump_1B_id, ump_1B_name) = find_umpire(umps, "first");
    let (ump_2B_id, ump_2B_name) = find_umpire(umps, "second");
    let (ump_3B_id, ump_3B_name) = find_umpire(umps, "third");
    let (ump_LF_id, ump_LF_name) = find_umpire(umps, "left");
    let (ump_RF_id, ump_RF_name) = find_umpire(umps, "right");
    GameUmpires {
        ump_HP_id,
        ump_1B_id,
        ump_2B_id,
        ump_3B_id,
        ump_LF_id,
        ump_RF_id,
        ump_HP_name,
        ump_1B_name,
        ump_2B_name,
        ump_3B_name,
        ump_LF_name,
        ump_RF_name,
    }
}

} // verus!
