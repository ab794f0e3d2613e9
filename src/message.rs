use vstd::prelude::*;

verus! {

/// The decimal digit for `d < 10`.
pub open spec fn digit(d: nat) -> char {
    if d == 0 { '0' }
    else if d == 1 { '1' }
    else if d == 2 { '2' }
    else if d == 3 { '3' }
    else if d == 4 { '4' }
    else if d == 5 { '5' }
    else if d == 6 { '6' }
    else if d == 7 { '7' }
    else if d == 8 { '8' }
    else { '9' }
}

/// `n` written in decimal, without leading zeros.
pub open spec fn decimal(n: nat) -> Seq<char>
    decreases n,
{
    if n < 10 {
        seq![digit(n)]
    } else {
        decimal(n / 10).push(digit(n % 10))
    }
}

/// The names joined with `", "` between them.
pub open spec fn joined(names: Seq<Seq<char>>) -> Seq<char>
    decreases names.len(),
{
    if names.len() == 0 {
        Seq::empty()
    } else if names.len() == 1 {
        names[0]
    } else {
        joined(names.drop_last()) + ", "@ + names.last()
    }
}

/// The message for an aggregate whose number of items differs from the one
/// declared.
pub open spec fn length_message(kind: Seq<char>, expected: nat, actual: nat) -> Seq<char> {
    "protocol error: expected a "@ + kind + " of length "@ + decimal(expected) + ", got "@
        + decimal(actual)
}

/// The message for a map with orphaned keys or values.
pub open spec fn jagged_message(keys: nat, values: nat) -> Seq<char> {
    "protocol error: map has "@ + decimal(keys) + " keys and "@ + decimal(values) + " values"@
}

/// The message for a struct whose field names repeat.
pub open spec fn duplicates_message(kind: Seq<char>, dups: Seq<Seq<char>>) -> Seq<char> {
    "protocol error: "@ + kind + " has duplicate field names: "@ + joined(dups)
}

fn digit_text(d: usize) -> (r: &'static str)
    requires
        d < 10,
    ensures
        r@ == seq![digit(d as nat)],
{
    let r = if d == 0 {
        "0"
    } else if d == 1 {
        "1"
    } else if d == 2 {
        "2"
    } else if d == 3 {
        "3"
    } else if d == 4 {
        "4"
    } else if d == 5 {
        "5"
    } else if d == 6 {
        "6"
    } else if d == 7 {
        "7"
    } else if d == 8 {
        "8"
    } else {
        "9"
    };
    proof {
        reveal_strlit("0");
        reveal_strlit("1");
        reveal_strlit("2");
        reveal_strlit("3");
        reveal_strlit("4");
        reveal_strlit("5");
        reveal_strlit("6");
        reveal_strlit("7");
        reveal_strlit("8");
        reveal_strlit("9");
    }
    assert(r@ =~= seq![digit(d as nat)]);
    r
}

/// Writes `n` in decimal.
pub fn decimal_text(n: usize) -> (r: String)
    ensures
        r@ == decimal(n as nat),
    decreases n,
{
    if n < 10 {
        String::from_str(digit_text(n))
    } else {
        let mut s = decimal_text(n / 10);
        s.append(digit_text(n % 10));
        s
    }
}

/// Joins the names with `", "` between them.
pub fn joined_text(names: &Vec<&'static str>) -> (r: String)
    ensures
        r@ == joined(names@.map_values(|n: &'static str| n@)),
{
    let ghost views = names@.map_values(|n: &'static str| n@);
    let mut s = String::new();
    let mut i: usize = 0;
    while i < names.len()
        invariant
            i <= names@.len(),
            views == names@.map_values(|n: &'static str| n@),
            s@ == joined(views.take(i as int)),
        decreases names@.len() - i,
    {
        if i > 0 {
            s.append(", ");
        }
        s.append(names[i]);
        proof {
            let next = views.take(i + 1 as int);
            assert(next.drop_last() =~= views.take(i as int));
            assert(s@ =~= joined(next));
        }
        i += 1;
    }
    assert(views.take(i as int) =~= views);
    s
}

/// Writes [`length_message`].
pub fn length_text(kind: &str, expected: usize, actual: usize) -> (r: String)
    ensures
        r@ == length_message(kind@, expected as nat, actual as nat),
{
    let mut s = String::from_str("protocol error: expected a ");
    s.append(kind);
    s.append(" of length ");
    let e = decimal_text(expected);
    s.append(e.as_str());
    s.append(", got ");
    let a = decimal_text(actual);
    s.append(a.as_str());
    s
}

/// Writes [`jagged_message`].
pub fn jagged_text(keys: usize, values: usize) -> (r: String)
    ensures
        r@ == jagged_message(keys as nat, values as nat),
{
    let mut s = String::from_str("protocol error: map has ");
    let k = decimal_text(keys);
    s.append(k.as_str());
    s.append(" keys and ");
    let v = decimal_text(values);
    s.append(v.as_str());
    s.append(" values");
    s
}

/// Writes [`duplicates_message`].
pub fn duplicates_text(kind: &str, dups: &Vec<&'static str>) -> (r: String)
    ensures
        r@ == duplicates_message(kind@, dups@.map_values(|n: &'static str| n@)),
{
    let mut s = String::from_str("protocol error: ");
    s.append(kind);
    s.append(" has duplicate field names: ");
    let j = joined_text(dups);
    s.append(j.as_str());
    s
}

} // verus!
