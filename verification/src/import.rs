//! Import normalization for upstream save-export pull feeds.
//!
//! An upstream feed lists a category's pulls newest-known-segment first,
//! each with a kind tag, an upstream item code and a local time string.
//! Storage holds the oldest-known frontier; only pulls whose adjusted
//! timestamp is strictly older than that frontier are genuinely new.
//! This module classifies the kind tags, turns the local time strings
//! into UTC epoch seconds using the region offset encoded in the
//! player's UID, and cuts the feed off at the first pull that is not
//! strictly older than the frontier.

use vstd::prelude::*;

verus! {

/// One pull as the upstream feed presents it: a kind tag (`"character"`
/// or `"weapon"`), the upstream item code, and a local wall-clock time
/// in `"%Y-%m-%d %H:%M:%S"` form.
#[derive(Clone, PartialEq, Eq, Debug)]
pub struct RawPull {
    pub kind: String,
    pub item: String,
    pub time: String,
}

/// What an upstream pull drew: a character or a weapon.
#[derive(Clone, Copy, PartialEq, Eq, Debug)]
pub enum PullKind {
    Character,
    Weapon,
}

/// Why a feed is rejected: an unrecognized kind tag, or a time string
/// the datetime parser does not accept.
#[derive(Clone, Copy, PartialEq, Eq, Debug)]
pub enum ImportError {
    UnknownKind,
    BadTimestamp,
}

/// One pull selected for storage: its position in the feed, its kind,
/// the upstream item code still to be resolved against the item tables,
/// and its UTC epoch timestamp.
#[derive(Clone, PartialEq, Eq, Debug)]
pub struct NewPull {
    pub index: usize,
    pub kind: PullKind,
    pub item: String,
    pub timestamp: i64,
}

/// The mathematical image of one selected pull.
pub struct PlannedPull {
    pub index: int,
    pub kind: PullKind,
    pub item: Seq<char>,
    pub timestamp: int,
}

/// How a kind tag reads: only the exact tags `"character"` and
/// `"weapon"` are recognized.
pub open spec fn spec_kind(tag: Seq<char>) -> Option<PullKind> {
    if tag == "character"@ {
        Some(PullKind::Character)
    } else if tag == "weapon"@ {
        Some(PullKind::Weapon)
    } else {
        None
    }
}

/// What the datetime parser yields for a time string, in UTC epoch
/// seconds: a function of the characters alone.
pub uninterp spec fn parsed_wish_time(s: Seq<char>) -> Option<int>;

/// Relies on chrono's NaiveDateTime::parse_from_str with the fixed
/// "%Y-%m-%d %H:%M:%S" format, followed by and_utc().timestamp(). The
/// outcome depends on the input characters alone, and chrono's datetime
/// range spans the years -262143 to 262143, so any timestamp it yields
/// lies well within 2^44 seconds of the epoch.
#[verifier::external_body]
fn parse_wish_time(s: &str) -> (r: Option<i64>)
    ensures
        match r {
            Some(t) => parsed_wish_time(s@) == Some(t as int) && -0x1000_0000_0000 < t
                < 0x1000_0000_0000,
            None => parsed_wish_time(s@) is None,
        },
{
    chrono::NaiveDateTime::parse_from_str(s, "%Y-%m-%d %H:%M:%S")
        .ok()
        .map(|t| t.and_utc().timestamp())
}

/// Classifies an upstream kind tag.
pub fn classify_kind(tag: &String) -> (r: Option<PullKind>)
    ensures
        r == spec_kind(tag@),
{
    let character: String = "character".to_owned();
    if *tag == character {
        return Some(PullKind::Character);
    }
    let weapon: String = "weapon".to_owned();
    if *tag == weapon {
        return Some(PullKind::Weapon);
    }
    None
}

/// The leading decimal digit of a non-negative number.
pub open spec fn leading_digit(n: int) -> int
    decreases n,
{
    if n < 10 {
        n
    } else {
        leading_digit(n / 10)
    }
}

/// The offset between a player's local server time and UTC, in seconds,
/// read off the first digit of the UID: 6 marks the American server
/// (UTC-5), 7 the European server (UTC+1), anything else the Asian
/// servers (UTC+8).
pub open spec fn spec_utc_offset_seconds(uid: i32) -> int {
    if uid >= 0 && leading_digit(uid as int) == 6 {
        -18000
    } else if uid >= 0 && leading_digit(uid as int) == 7 {
        3600
    } else {
        28800
    }
}

/// Computes the server UTC offset of a UID.
pub fn utc_offset_seconds(uid: i32) -> (r: i64)
    ensures
        r as int == spec_utc_offset_seconds(uid),
{
    if uid < 0 {
        return 28800;
    }
    let mut n: i32 = uid;
    while n >= 10
        invariant
            0 <= n,
            leading_digit(n as int) == leading_digit(uid as int),
        decreases n,
    {
        n = n / 10;
    }
    if n == 6 {
        -18000
    } else if n == 7 {
        3600
    } else {
        28800
    }
}

/// The frontier as a mathematical cutoff: `None` when nothing is on
/// file yet, so that everything is new.
pub open spec fn opt_cutoff(earliest: Option<i64>) -> Option<int> {
    match earliest {
        Some(c) => Some(c as int),
        None => None,
    }
}

/// Whether a timestamp is strictly older than the cutoff; with no
/// cutoff on file every timestamp qualifies.
pub open spec fn before_cutoff(ts: int, cutoff: Option<int>) -> bool {
    match cutoff {
        Some(c) => ts < c,
        None => true,
    }
}

/// The selection walked from the front of the feed: classify each kind
/// tag and parse each time string (either failure rejects the feed),
/// adjust the timestamp by the server offset, and stop — keeping
/// nothing further — at the first pull that is not strictly older than
/// the cutoff.
pub open spec fn spec_select(
    feed: Seq<RawPull>,
    base: int,
    offset: int,
    cutoff: Option<int>,
) -> Result<Seq<PlannedPull>, ImportError>
    decreases feed.len(),
{
    if feed.len() == 0 {
        Ok(Seq::empty())
    } else {
        let p = feed[0];
        match spec_kind(p.kind@) {
            None => Err(ImportError::UnknownKind),
            Some(k) => match parsed_wish_time(p.time@) {
                None => Err(ImportError::BadTimestamp),
                Some(t) => if !before_cutoff(t - offset, cutoff) {
                    Ok(Seq::empty())
                } else {
                    match spec_select(feed.skip(1), base + 1, offset, cutoff) {
                        Ok(rest) => Ok(
                            seq![
                                PlannedPull {
                                    index: base,
                                    kind: k,
                                    item: p.item@,
                                    timestamp: t - offset,
                                },
                            ] + rest,
                        ),
                        Err(e) => Err(e),
                    }
                },
            },
        }
    }
}

/// The mathematical image of a selected row list.
pub open spec fn planned_of(rows: Seq<NewPull>) -> Seq<PlannedPull> {
    rows.map_values(
        |row: NewPull|
            PlannedPull {
                index: row.index as int,
                kind: row.kind,
                item: row.item@,
                timestamp: row.timestamp as int,
            },
    )
}

/// Selects the genuinely new pulls of one category's feed for a player:
/// exactly the selection that `spec_select` describes, with the cutoff
/// taken from the earliest timestamp already on file and the offset
/// taken from the UID's server digit.
pub fn select_new_pulls(feed: &Vec<RawPull>, uid: i32, earliest: Option<i64>) -> (r: Result<
    Vec<NewPull>,
    ImportError,
>)
    ensures
        match r {
            Ok(rows) => spec_select(
                feed@,
                0,
                spec_utc_offset_seconds(uid),
                opt_cutoff(earliest),
            ) matches Ok(plan) && planned_of(rows@) == plan,
            Err(e) => spec_select(feed@, 0, spec_utc_offset_seconds(uid), opt_cutoff(earliest))
                == Err::<Seq<PlannedPull>, ImportError>(e),
        },
{
    let offset = utc_offset_seconds(uid);
    let ghost off: int = spec_utc_offset_seconds(uid);
    let ghost cut: Option<int> = opt_cutoff(earliest);
    let mut rows: Vec<NewPull> = Vec::new();
    let mut i: usize = 0;
    proof {
        assert(feed@.skip(0) =~= feed@);
    }
    while i < feed.len()
        invariant_except_break
            i <= feed@.len(),
            offset as int == off,
            off == spec_utc_offset_seconds(uid),
            cut == opt_cutoff(earliest),
            ({
                match spec_select(feed@.skip(i as int), i as int, off, cut) {
                    Ok(rest) => spec_select(feed@, 0, off, cut) == Ok::<
                        Seq<PlannedPull>,
                        ImportError,
                    >(planned_of(rows@) + rest),
                    Err(e) => spec_select(feed@, 0, off, cut) == Err::<
                        Seq<PlannedPull>,
                        ImportError,
                    >(e),
                }
            }),
        ensures
            spec_select(feed@, 0, off, cut) matches Ok(plan) && planned_of(rows@) == plan,
        decreases feed@.len() - i,
    {
        proof {
            assert(feed@.skip(i as int).len() == feed@.len() - i);
            assert(feed@.skip(i as int)[0] == feed@[i as int]);
            assert(feed@.skip(i as int).skip(1) =~= feed@.skip(i as int + 1));
        }
        let p = &feed[i];
        let kind = match classify_kind(&p.kind) {
            Some(k) => k,
            None => {
                return Err(ImportError::UnknownKind);
            },
        };
        let t = match parse_wish_time(p.time.as_str()) {
            Some(t) => t,
            None => {
                return Err(ImportError::BadTimestamp);
            },
        };
        let ts = t - offset;
        if let Some(c) = earliest {
            if ts >= c {
                proof {
                    let tail = spec_select(feed@.skip(i as int), i as int, off, cut);
                    assert(tail == Ok::<Seq<PlannedPull>, ImportError>(Seq::<
                        PlannedPull,
                    >::empty()));
                    assert(planned_of(rows@) + Seq::<PlannedPull>::empty() =~= planned_of(
                        rows@,
                    ));
                }
                break;
            }
        }
        let ghost rows_before = rows@;
        let row = NewPull { index: i, kind, item: p.item.clone(), timestamp: ts };
        rows.push(row);
        proof {
            let planned_row = PlannedPull {
                index: i as int,
                kind: kind,
                item: feed@[i as int].item@,
                timestamp: t - off,
            };
            assert(planned_of(rows@) =~= planned_of(rows_before) + seq![planned_row]);
            match spec_select(feed@.skip(i as int + 1), i as int + 1, off, cut) {
                Ok(rest) => {
                    assert(spec_select(feed@.skip(i as int), i as int, off, cut) == Ok::<
                        Seq<PlannedPull>,
                        ImportError,
                    >(seq![planned_row] + rest));
                    assert((planned_of(rows_before) + (seq![planned_row] + rest)) =~= (planned_of(
                        rows@,
                    ) + rest));
                },
                Err(e) => {
                    assert(spec_select(feed@.skip(i as int), i as int, off, cut) == Err::<
                        Seq<PlannedPull>,
                        ImportError,
                    >(e));
                },
            }
        }
        i = i + 1;
    }
    proof {
        if i == feed@.len() {
            assert(feed@.skip(i as int) =~= Seq::<RawPull>::empty());
            assert(planned_of(rows@) + Seq::<PlannedPull>::empty() =~= planned_of(rows@));
        }
    }
    Ok(rows)
}

/// The strictly-older law: every pull the selection keeps carries a
/// timestamp strictly older than the frontier already on file, so a
/// re-import can never duplicate a stored pull.
pub proof fn lemma_selected_are_older(
    feed: Seq<RawPull>,
    base: int,
    offset: int,
    cutoff: Option<int>,
)
    ensures
        spec_select(feed, base, offset, cutoff) matches Ok(plan) ==> forall|j: int|
            0 <= j < plan.len() ==> before_cutoff(#[trigger] plan[j].timestamp, cutoff),
    decreases feed.len(),
{
    if feed.len() > 0 {
        lemma_selected_are_older(feed.skip(1), base + 1, offset, cutoff);
    }
}

} // verus!
