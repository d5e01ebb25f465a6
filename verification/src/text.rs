//! The text of configuration values.
//!
//! Every value reaches the host as a string: a boolean as `true` or `false`, an
//! unsigned number in decimal, a string as it is, and a list of strings as its
//! items with a separator between them.

use vstd::prelude::*;

verus! {

/// The text of a boolean.
pub open spec fn bool_text(b: bool) -> Seq<char> {
    if b {
        "true"@
    } else {
        "false"@
    }
}

/// The one character that writes the digit `d`, for `d` below ten.
pub open spec fn digit_text(d: nat) -> Seq<char> {
    if d == 0 {
        "0"@
    } else if d == 1 {
        "1"@
    } else if d == 2 {
        "2"@
    } else if d == 3 {
        "3"@
    } else if d == 4 {
        "4"@
    } else if d == 5 {
        "5"@
    } else if d == 6 {
        "6"@
    } else if d == 7 {
        "7"@
    } else if d == 8 {
        "8"@
    } else {
        "9"@
    }
}

/// The decimal text of `n`: its digits, the most significant first, and no
/// leading zero but for `0` itself.
pub open spec fn decimal(n: nat) -> Seq<char>
    decreases n,
{
    if n < 10 {
        digit_text(n)
    } else {
        decimal(n / 10) + digit_text(n % 10)
    }
}

/// The items of `parts` in order, with `sep` between each two neighbours.
pub open spec fn joined(parts: Seq<Seq<char>>, sep: Seq<char>) -> Seq<char>
    decreases parts.len(),
{
    if parts.len() == 0 {
        Seq::empty()
    } else if parts.len() == 1 {
        parts[0]
    } else {
        joined(parts.drop_last(), sep) + sep + parts.last()
    }
}

/// Writes a boolean as `true` or `false`.
pub fn bool_to_string(b: bool) -> (r: String)
    ensures
        r@ == bool_text(b),
{
    if b {
        String::from_str("true")
    } else {
        String::from_str("false")
    }
}

fn digit_str(d: usize) -> (r: &'static str)
    requires
        d < 10,
    ensures
        r@ == digit_text(d as nat),
{
    if d == 0 {
        "0"
    } else if d == 1 {
        "1"
    } else if d == 2 {
        "2"
    } else if d == 3 {
        "3"
    } else if d == 4 {
        "4"
    } else if d == 5 {
        "5"
    } else if d == 6 {
        "6"
    } else if d == 7 {
        "7"
    } else if d == 8 {
        "8"
    } else {
        "9"
    }
}

/// Writes an unsigned number in decimal.
pub fn usize_to_string(n: usize) -> (r: String)
    ensures
        r@ == decimal(n as nat),
    decreases n,
{
    if n < 10 {
        String::from_str(digit_str(n))
    } else {
        let mut r = usize_to_string(n / 10);
        r.append(digit_str(n % 10));
        r
    }
}

/// Writes a list of strings as one string, `sep` between the items.
pub fn join(parts: &Vec<String>, sep: &str) -> (r: String)
    ensures
        r@ == joined(parts.deep_view(), sep@),
{
    let ghost all = parts.deep_view();
    let mut r = String::new();
    let mut i: usize = 0;
    while i < parts.len()
        invariant
            i <= parts.len(),
            all == parts.deep_view(),
            r@ == joined(all.take(i as int), sep@),
        decreases parts.len() - i,
    {
        if i > 0 {
            r.append(sep);
        }
        r.append(parts[i].as_str());
        proof {
            let next = all.take(i + 1);
            assert(next.drop_last() =~= all.take(i as int));
            assert(next.last() == parts[i as int]@);
            assert(r@ =~= joined(next, sep@));
        }
        i += 1;
    }
    proof {
        assert(all.take(parts.len() as int) =~= all);
    }
    r
}

/// The debug rendering of a string: the string between double quotes, with an
/// escape in place of each character that would not read as itself there.
pub uninterp spec fn debug_text(s: Seq<char>) -> Seq<char>;

/// The rendering of a list whose items are already rendered: the items with
/// a comma and a space between them, in square brackets.
pub open spec fn bracketed(items: Seq<Seq<char>>) -> Seq<char> {
    "["@ + joined(items, ", "@) + "]"@
}

/// The debug rendering of each item of a list.
pub open spec fn debug_texts(items: Seq<Seq<char>>) -> Seq<Seq<char>> {
    Seq::new(items.len(), |i: int| debug_text(items[i]))
}

/// The debug rendering of a list of strings.
pub open spec fn debug_list_text(items: Seq<Seq<char>>) -> Seq<char> {
    bracketed(debug_texts(items))
}

/// The debug rendering of a string, as `format!("{:?}", s)` gives it, that is
/// as std's `Debug` for `str` writes it. Trusted, not proved: that the
/// rendering depends on the characters of the string and on nothing else. What
/// the rendering is, is left to std.
#[verifier::external_body]
fn debug_string(s: &str) -> (r: String)
    ensures
        r@ == debug_text(s@),
{
    format!("{:?}", s)
}

/// Writes a list of rendered items in square brackets, a comma and a space
/// between the items.
pub fn bracket(items: &Vec<String>) -> (r: String)
    ensures
        r@ == bracketed(items.deep_view()),
{
    let mut r = String::from_str("[");
    r.append(join(items, ", ").as_str());
    r.append("]");
    r
}

/// Writes the debug rendering of a list of strings.
pub fn debug_list(items: &Vec<String>) -> (r: String)
    ensures
        r@ == debug_list_text(items.deep_view()),
{
    let ghost all = items.deep_view();
    let mut rendered: Vec<String> = Vec::new();
    let mut i: usize = 0;
    while i < items.len()
        invariant
            i <= items.len(),
            all == items.deep_view(),
            all.len() == items.len(),
            rendered.len() == i,
            rendered.deep_view() == debug_texts(all.take(i as int)),
        decreases items.len() - i,
    {
        let ghost before = rendered.deep_view();
        let item = debug_string(items[i].as_str());
        rendered.push(item);
        proof {
            let after = rendered.deep_view();
            let next = debug_texts(all.take(i + 1));
            assert(all[i as int] == items[i as int]@);
            assert(after.len() == next.len());
            assert forall|j: int| 0 <= j < after.len() implies after[j] == next[j] by {
                if j < i {
                    assert(after[j] == before[j]);
                    assert(all.take(i as int)[j] == all.take(i + 1)[j]);
                } else {
                    assert(after[j] == item@);
                }
            }
            assert(after =~= next);
        }
        i += 1;
    }
    proof {
        assert(all.take(items.len() as int) =~= all);
    }
    bracket(&rendered)
}

} // verus!
