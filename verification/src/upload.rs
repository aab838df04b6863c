//! The song upload form: its artist field holds a comma-separated list in
//! which every entry but the last has been replaced by an artist id, and the
//! last entry is what the user is still typing.

use vstd::prelude::*;
use crate::text::{decimal, int_to_string};

verus! {

/// The index of the last ',' among the first `n` characters of `s`, or -1
/// when there is none.
pub open spec fn last_comma_before(s: Seq<char>, n: int) -> int
    decreases n,
{
    if n <= 0 {
        -1
    } else if s[n - 1] == ',' {
        n - 1
    } else {
        last_comma_before(s, n - 1)
    }
}

/// The index of the last ',' in `s`, or -1 when there is none.
pub open spec fn last_comma(s: Seq<char>) -> int {
    last_comma_before(s, s.len() as int)
}

/// The entry being typed: what follows the last ',' (the whole text when it
/// has none).
pub open spec fn entry_being_typed(s: Seq<char>) -> Seq<char> {
    s.subrange(last_comma(s) + 1, s.len() as int)
}

/// The entries already chosen, each with its ',' after it: everything up to
/// and including the last ','.
pub open spec fn entries_chosen(s: Seq<char>) -> Seq<char> {
    s.subrange(0, last_comma(s) + 1)
}

/// The text that stands for an optional id: its decimal digits, or "None".
pub open spec fn id_text_of(id: Option<i32>) -> Seq<char> {
    match id {
        Some(v) => decimal(v as int),
        None => "None"@,
    }
}

proof fn lemma_last_comma_bounds(s: Seq<char>, n: int)
    requires
        0 <= n <= s.len(),
    ensures
        -1 <= last_comma_before(s, n) < n,
        last_comma_before(s, n) >= 0 ==> s[last_comma_before(s, n)] == ',',
    decreases n,
{
    if n > 0 {
        lemma_last_comma_bounds(s, n - 1);
    }
}

/// The index of the last ',' in the text, if there is one.
fn find_last_comma(text: &str) -> (r: Option<usize>)
    ensures
        match r {
            Some(i) => i == last_comma(text@),
            None => last_comma(text@) == -1,
        },
        r is Some ==> r->0 < text@.len(),
        text@.len() <= usize::MAX,
{
    let n = text.unicode_len();
    let mut last: Option<usize> = None;
    let mut i: usize = 0;
    while i < n
        invariant
            n == text@.len(),
            0 <= i <= n,
            match last {
                Some(k) => k == last_comma_before(text@, i as int) && k < i,
                None => last_comma_before(text@, i as int) == -1,
            },
        decreases n - i,
    {
        if text.get_char(i) == ',' {
            last = Some(i);
        }
        i = i + 1;
    }
    last
}

/// What the artist search looks for: the entry being typed.
pub fn artist_search_term(input: &str) -> (term: String)
    ensures
        term@ == entry_being_typed(input@),
{
    proof {
        lemma_last_comma_bounds(input@, input@.len() as int);
    }
    let n = input.unicode_len();
    let from = match find_last_comma(input) {
        Some(k) => k + 1,
        None => 0,
    };
    String::from_str(input.substring_char(from, n))
}

/// The text that stands for an optional id in a form field.
pub fn id_text(id: Option<i32>) -> (s: String)
    ensures
        s@ == id_text_of(id),
{
    match id {
        Some(v) => int_to_string(v as i64),
        None => String::from_str("None"),
    }
}

/// The artist field after the user picks an artist from the search results:
/// the entry being typed is replaced by the artist's id and a ','.
pub fn add_artist_id(input: &str, id: Option<i32>) -> (s: String)
    ensures
        s@ == entries_chosen(input@) + id_text_of(id) + ","@,
{
    proof {
        lemma_last_comma_bounds(input@, input@.len() as int);
    }
    let to = match find_last_comma(input) {
        Some(k) => k + 1,
        None => 0,
    };
    let mut s = String::from_str(input.substring_char(0, to));
    let t = id_text(id);
    s.append(t.as_str());
    s.append(",");
    proof {
        reveal_strlit(",");
    }
    s
}

/// The error that the upload form shows after the server answered: none
/// when the upload succeeded.
pub fn upload_error(response_ok: bool) -> (e: Option<String>)
    ensures
        response_ok ==> e is None,
        !response_ok ==> e is Some && e->0@ == "Error uploading song"@,
{
    if response_ok {
        None
    } else {
        Some(String::from_str("Error uploading song"))
    }
}

/// The artist field is always the entries already chosen followed by the
/// entry being typed; and once an artist is picked, the field holds the
/// earlier picks and the new id, all chosen, with an empty entry being
/// typed.
pub proof fn law_pick_completes_entry(input: Seq<char>, id: Option<i32>)
    ensures
        entries_chosen(input) + entry_being_typed(input) == input,
        ({
            let picked = entries_chosen(input) + id_text_of(id) + ","@;
            &&& entries_chosen(picked) == picked
            &&& entry_being_typed(picked) == Seq::<char>::empty()
        }),
{
    lemma_last_comma_bounds(input, input.len() as int);
    assert(entries_chosen(input) + entry_being_typed(input) =~= input);
    let picked = entries_chosen(input) + id_text_of(id) + ","@;
    reveal_strlit(",");
    assert(picked[picked.len() - 1] == ',');
    assert(last_comma(picked) == picked.len() - 1);
    assert(entries_chosen(picked) =~= picked);
    assert(entry_being_typed(picked) =~= Seq::<char>::empty());
}

} // verus!
