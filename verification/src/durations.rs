//! How lengths of time are shown: song durations, the play position, and
//! the total length of a playlist.

use vstd::prelude::*;
use crate::models::Song;
use crate::text::{decimal, int_to_string};

verus! {

/// Division rounding toward zero, as Rust's `/` on integers (`b > 0`).
pub open spec fn trunc_div(a: int, b: int) -> int {
    if a >= 0 {
        a / b
    } else {
        -((-a) / b)
    }
}

/// The remainder that goes with `trunc_div`, as Rust's `%` on integers: it
/// has the sign of `a`.
pub open spec fn trunc_rem(a: int, b: int) -> int {
    a - b * trunc_div(a, b)
}

/// A rendered number padded on the left with '0' to at least two characters.
pub open spec fn pad2(s: Seq<char>) -> Seq<char> {
    if s.len() < 2 {
        seq!['0'] + s
    } else {
        s
    }
}

/// The sum of the durations of the first `k` songs.
pub open spec fn duration_sum(songs: Seq<Song>, k: int) -> int
    decreases k,
{
    if k <= 0 {
        0
    } else {
        duration_sum(songs, k - 1) + songs[k - 1].duration
    }
}

/// Every running total of the durations fits in an `i32`.
pub open spec fn running_sums_fit(songs: Seq<Song>) -> bool {
    forall|k: int| 0 <= k <= songs.len() ==> i32::MIN <= #[trigger] duration_sum(songs, k) <= i32::MAX
}

/// "m:ss" of `convert_seconds`: minutes, ':', and the seconds with a '0'
/// in front when they are under ten.
pub open spec fn minutes_seconds(seconds: int) -> Seq<char> {
    let m = trunc_div(seconds, 60);
    let s = trunc_rem(seconds, 60);
    decimal(m) + seq![':'] + (if s < 10 { seq!['0'] + decimal(s) } else { decimal(s) })
}

/// A word followed by "s" when the count is above one.
pub open spec fn plural(word: Seq<char>, count: int) -> Seq<char> {
    if count > 1 {
        word + seq!['s']
    } else {
        word
    }
}

/// "h hour(s), m minute(s)" of `convert_to_text_time`.
pub open spec fn hours_minutes_text(seconds: int) -> Seq<char> {
    let h = trunc_div(seconds, 3600);
    let m = trunc_div(trunc_rem(seconds, 3600), 60);
    decimal(h) + plural(" hour"@, h) + ", "@ + decimal(m) + plural(" minute"@, m)
}

/// "m:ss", the seconds rendered to at least two characters with '0' in front.
pub open spec fn clock_text(seconds: int) -> Seq<char> {
    decimal(trunc_div(seconds, 60)) + seq![':'] + pad2(decimal(trunc_rem(seconds, 60)))
}

pub(crate) proof fn lemma_trunc_div_bounds(a: int, b: int)
    requires
        b > 0,
    ensures
        a >= 0 ==> 0 <= trunc_div(a, b) <= a,
        a < 0 ==> a <= trunc_div(a, b) <= 0,
        a >= 0 ==> 0 <= trunc_rem(a, b) < b,
        a < 0 ==> -b < trunc_rem(a, b) <= 0,
{
    if a >= 0 {
        assert(0 <= a / b <= a) by (nonlinear_arith)
            requires
                a >= 0,
                b > 0,
        ;
        assert(0 <= a - b * (a / b) < b) by (nonlinear_arith)
            requires
                a >= 0,
                b > 0,
        ;
    } else {
        let c = -a;
        assert(0 <= c / b <= c) by (nonlinear_arith)
            requires
                c > 0,
                b > 0,
        ;
        assert(0 <= c - b * (c / b) < b) by (nonlinear_arith)
            requires
                c > 0,
                b > 0,
        ;
        assert(b * (-(c / b)) == -(b * (c / b))) by (nonlinear_arith);
    }
}

/// Rust's `/` and `%` on an `i64` by a positive constant.
pub(crate) fn div_rem_i64(a: i64, b: i64) -> (r: (i64, i64))
    requires
        b > 0,
    ensures
        r.0 == trunc_div(a as int, b as int),
        r.1 == trunc_rem(a as int, b as int),
{
    proof {
        lemma_trunc_div_bounds(a as int, b as int);
    }
    let q = a / b;
    let r = a - b * q;
    (q, r)
}

/// Renders a number padded to two characters, as `{:0>2}` does.
fn padded2(n: i64) -> (s: String)
    ensures
        s@ == pad2(decimal(n as int)),
{
    let d = int_to_string(n);
    if d.unicode_len() < 2 {
        let mut s = String::from_str("0");
        proof {
            reveal_strlit("0");
        }
        s.append(d.as_str());
        s
    } else {
        d
    }
}

/// The total duration of a list of songs, in seconds.
pub fn total_duration(songs: &[Song]) -> (total: i32)
    requires
        running_sums_fit(songs@),
    ensures
        total == duration_sum(songs@, songs@.len() as int),
{
    let mut total_duration: i32 = 0;
    let mut i: usize = 0;
    while i < songs.len()
        invariant
            i <= songs@.len(),
            running_sums_fit(songs@),
            total_duration == duration_sum(songs@, i as int),
        decreases songs@.len() - i,
    {
        assert(i32::MIN <= duration_sum(songs@, i + 1) <= i32::MAX);
        total_duration = total_duration + songs[i].duration;
        i = i + 1;
    }
    total_duration
}

/// Renders seconds as minutes and seconds, "m:ss".
pub fn convert_seconds(seconds: i32) -> (s: String)
    ensures
        s@ == minutes_seconds(seconds as int),
{
    let (minutes, secs) = div_rem_i64(seconds as i64, 60);
    let mut s = int_to_string(minutes);
    s.append(":");
    let secs_text = int_to_string(secs);
    if secs < 10 {
        s.append("0");
    }
    s.append(secs_text.as_str());
    proof {
        reveal_strlit(":");
        reveal_strlit("0");
    }
    s
}

/// Renders seconds as whole hours and minutes, "h hour(s), m minute(s)",
/// with the plural "s" when the count is above one.
pub fn convert_to_text_time(seconds: i32) -> (s: String)
    ensures
        s@ == hours_minutes_text(seconds as int),
{
    proof {
        lemma_trunc_div_bounds(seconds as int, 3600);
    }
    let (hours, rest) = div_rem_i64(seconds as i64, 3600);
    let (minutes, _) = div_rem_i64(rest, 60);
    let mut s = int_to_string(hours);
    if hours > 1 {
        s.append(" hours");
    } else {
        s.append(" hour");
    }
    s.append(", ");
    let m = int_to_string(minutes);
    s.append(m.as_str());
    if minutes > 1 {
        s.append(" minutes");
    } else {
        s.append(" minute");
    }
    proof {
        reveal_strlit(" hours");
        reveal_strlit(" hour");
        reveal_strlit(", ");
        reveal_strlit(" minutes");
        reveal_strlit(" minute");
        assert(" hours"@ =~= " hour"@ + seq!['s']);
        assert(" minutes"@ =~= " minute"@ + seq!['s']);
    }
    s
}

/// Renders seconds as "m:ss", as `format!("{}:{:02}", s / 60, s % 60)` does.
pub fn clock(seconds: i64) -> (s: String)
    ensures
        s@ == clock_text(seconds as int),
{
    let (minutes, secs) = div_rem_i64(seconds, 60);
    let mut s = int_to_string(minutes);
    s.append(":");
    proof {
        reveal_strlit(":");
    }
    let secs_text = padded2(secs);
    s.append(secs_text.as_str());
    s
}

/// The play position of the player, "m:ss / m:ss": the elapsed and the total
/// time of the current song.
pub fn play_duration(elapsed_secs: i64, total_secs: i64) -> (s: String)
    ensures
        s@ == clock_text(elapsed_secs as int) + " / "@ + clock_text(total_secs as int),
{
    let mut s = clock(elapsed_secs);
    s.append(" / ");
    let total = clock(total_secs);
    s.append(total.as_str());
    s
}

} // verus!
