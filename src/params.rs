//! Query parameters and their textual rendering.
use vstd::prelude::*;

verus! {

/// One query parameter, a key and its rendered value.
#[derive(Clone, Debug)]
pub struct Param {
    pub key: String,
    pub value: String,
}

impl View for Param {
    type V = (Seq<char>, Seq<char>);

    open spec fn view(&self) -> (Seq<char>, Seq<char>) {
        (self.key@, self.value@)
    }
}

/// What a list of parameters sends: the key and value of each, in order.
pub open spec fn params_view(ps: Seq<Param>) -> Seq<(Seq<char>, Seq<char>)> {
    ps.map_values(|p: Param| p@)
}

/// The character of a decimal digit.
pub open spec fn digit_char(d: nat) -> char {
    if d == 0 {
        '0'
    } else if d == 1 {
        '1'
    } else if d == 2 {
        '2'
    } else if d == 3 {
        '3'
    } else if d == 4 {
        '4'
    } else if d == 5 {
        '5'
    } else if d == 6 {
        '6'
    } else if d == 7 {
        '7'
    } else if d == 8 {
        '8'
    } else {
        '9'
    }
}

/// The decimal digits of a natural number, most significant first, without
/// leading zeros.
pub open spec fn digits_of(n: nat) -> Seq<char>
    decreases n,
{
    if n < 10 {
        seq![digit_char(n)]
    } else {
        digits_of(n / 10).push(digit_char(n % 10))
    }
}

/// The decimal rendering of an integer, with a leading `-` when negative.
pub open spec fn decimal(n: int) -> Seq<char> {
    if n < 0 {
        seq!['-'] + digits_of((-n) as nat)
    } else {
        digits_of(n as nat)
    }
}

/// The rendering of a boolean flag.
pub open spec fn bool_text(b: bool) -> Seq<char> {
    if b {
        "true"@
    } else {
        "false"@
    }
}

/// Parts joined with a comma between each two.
pub open spec fn comma_joined(parts: Seq<Seq<char>>) -> Seq<char>
    decreases parts.len(),
{
    if parts.len() == 0 {
        Seq::empty()
    } else if parts.len() == 1 {
        parts[0]
    } else {
        comma_joined(parts.drop_last()) + ","@ + parts.last()
    }
}

fn digit_str(d: u64) -> (r: &'static str)
    requires
        d < 10,
    ensures
        r@ == seq![digit_char(d as nat)],
{
    match d {
        0 => {
            proof { reveal_strlit("0"); }
            "0"
        },
        1 => {
            proof { reveal_strlit("1"); }
            "1"
        },
        2 => {
            proof { reveal_strlit("2"); }
            "2"
        },
        3 => {
            proof { reveal_strlit("3"); }
            "3"
        },
        4 => {
            proof { reveal_strlit("4"); }
            "4"
        },
        5 => {
            proof { reveal_strlit("5"); }
            "5"
        },
        6 => {
            proof { reveal_strlit("6"); }
            "6"
        },
        7 => {
            proof { reveal_strlit("7"); }
            "7"
        },
        8 => {
            proof { reveal_strlit("8"); }
            "8"
        },
        _ => {
            proof { reveal_strlit("9"); }
            "9"
        },
    }
}

fn push_digits(n: u64, out: &mut String)
    ensures
        final(out)@ == old(out)@ + digits_of(n as nat),
    decreases n,
{
    if n >= 10 {
        push_digits(n / 10, out);
    }
    out.append(digit_str(n % 10));
    proof {
        if n >= 10 {
            assert(digits_of(n as nat) == digits_of((n / 10) as nat).push(digit_char((n % 10) as nat)));
        }
    }
}

/// Renders an integer in decimal, as a query parameter carries it.
pub fn decimal_string(n: i64) -> (r: String)
    ensures
        r@ == decimal(n as int),
{
    let mut s = String::new();
    if n < 0 {
        let wide: i128 = n as i128;
        let mag: u64 = (0 - wide) as u64;
        s.append("-");
        proof { reveal_strlit("-"); }
        push_digits(mag, &mut s);
    } else {
        push_digits(n as u64, &mut s);
    }
    assert(s@ =~= decimal(n as int));
    s
}

/// Renders a boolean flag as `true` or `false`.
pub fn bool_string(b: bool) -> (r: String)
    ensures
        r@ == bool_text(b),
{
    if b {
        String::from_str("true")
    } else {
        String::from_str("false")
    }
}

/// Builds a parameter from a key and an already rendered value.
pub fn param(key: &str, value: String) -> (r: Param)
    ensures
        r@ == (key@, value@),
{
    Param { key: String::from_str(key), value }
}

/// Appends `part` to `out`, after a comma when `out` already holds parts.
pub(crate) fn push_part(out: &mut String, first: bool, part: &str, ghost_parts: Ghost<Seq<Seq<char>>>)
    requires
        first == (ghost_parts@.len() == 0),
        old(out)@ == comma_joined(ghost_parts@),
    ensures
        final(out)@ == comma_joined(ghost_parts@.push(part@)),
{
    let ghost next = ghost_parts@.push(part@);
    assert(next.drop_last() =~= ghost_parts@);
    if !first {
        out.append(",");
    }
    out.append(part);
}

/// Renders numeric identifiers in decimal, separated by commas.
pub fn join_ids(ids: &[i64]) -> (r: String)
    ensures
        r@ == comma_joined(ids@.map_values(|id: i64| decimal(id as int))),
{
    let mut out = String::new();
    let mut i: usize = 0;
    while i < ids.len()
        invariant
            i <= ids@.len(),
            out@ == comma_joined(ids@.subrange(0, i as int).map_values(|id: i64| decimal(id as int))),
        decreases ids@.len() - i,
    {
        let ghost done = ids@.subrange(0, i as int).map_values(|id: i64| decimal(id as int));
        let text = decimal_string(ids[i]);
        push_part(&mut out, i == 0, text.as_str(), Ghost(done));
        assert(ids@.subrange(0, i + 1).map_values(|id: i64| decimal(id as int)) =~= done.push(text@));
        i = i + 1;
    }
    assert(ids@.subrange(0, ids@.len() as int) =~= ids@);
    out
}

/// Joins names with commas.
pub fn join_names(names: &[&str]) -> (r: String)
    ensures
        r@ == comma_joined(names@.map_values(|n: &str| n@)),
{
    let mut out = String::new();
    let mut i: usize = 0;
    while i < names.len()
        invariant
            i <= names@.len(),
            out@ == comma_joined(names@.subrange(0, i as int).map_values(|n: &str| n@)),
        decreases names@.len() - i,
    {
        let ghost done = names@.subrange(0, i as int).map_values(|n: &str| n@);
        push_part(&mut out, i == 0, names[i], Ghost(done));
        assert(names@.subrange(0, i + 1).map_values(|n: &str| n@) =~= done.push(names@[i as int]@));
        i = i + 1;
    }
    assert(names@.subrange(0, names@.len() as int) =~= names@);
    out
}

} // verus!
