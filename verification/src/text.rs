use vstd::prelude::*;

verus! {

/// The text of an optional string.
pub open spec fn opt_text(s: Option<String>) -> Option<Seq<char>> {
    match s {
        Some(t) => Some(t@),
        None => None,
    }
}

/// The decimal digit character for `d < 10`.
pub open spec fn digit_char(d: nat) -> char {
    if d == 0 { '0' }
    else if d == 1 { '1' }
    else if d == 2 { '2' }
    else if d == 3 { '3' }
    else if d == 4 { '4' }
    else if d == 5 { '5' }
    else if d == 6 { '6' }
    else if d == 7 { '7' }
    else if d == 8 { '8' }
    else { '9' }
}

/// The decimal notation of `n`, most significant digit first, without leading zeros.
pub open spec fn decimal(n: nat) -> Seq<char>
    decreases n,
{
    if n < 10 {
        seq![digit_char(n)]
    } else {
        decimal(n / 10).push(digit_char(n % 10))
    }
}

fn digit_str(d: u64) -> (s: &'static str)
    requires
        d < 10,
    ensures
        s@ == seq![digit_char(d as nat)],
{
    if d == 0 {
        proof { reveal_strlit("0"); }
        "0"
    } else if d == 1 {
        proof { reveal_strlit("1"); }
        "1"
    } else if d == 2 {
        proof { reveal_strlit("2"); }
        "2"
    } else if d == 3 {
        proof { reveal_strlit("3"); }
        "3"
    } else if d == 4 {
        proof { reveal_strlit("4"); }
        "4"
    } else if d == 5 {
        proof { reveal_strlit("5"); }
        "5"
    } else if d == 6 {
        proof { reveal_strlit("6"); }
        "6"
    } else if d == 7 {
        proof { reveal_strlit("7"); }
        "7"
    } else if d == 8 {
        proof { reveal_strlit("8"); }
        "8"
    } else {
        proof { reveal_strlit("9"); }
        "9"
    }
}

/// Renders `n` in decimal, as `u64::to_string` does.
pub fn decimal_string(n: u64) -> (s: String)
    ensures
        s@ == decimal(n as nat),
    decreases n,
{
    if n < 10 {
        String::from_str(digit_str(n))
    } else {
        let mut s = decimal_string(n / 10);
        s.append(digit_str(n % 10));
        s
    }
}


/// A byte that an HTTP header value may hold when it is read as text:
/// visible ASCII or a horizontal tab.
pub open spec fn is_visible_ascii(b: u8) -> bool {
    (32 <= b && b < 127) || b == 9
}

/// Whether every byte is visible ASCII.
pub open spec fn all_visible_ascii(bytes: Seq<u8>) -> bool {
    forall|i: int| 0 <= i < bytes.len() ==> is_visible_ascii(#[trigger] bytes[i])
}

/// The characters that ASCII bytes stand for.
pub open spec fn ascii_text(bytes: Seq<u8>) -> Seq<char> {
    bytes.map_values(|b: u8| b as char)
}

/// The bytes before the first occurrence of `sep` (all of them when there is none).
pub open spec fn before_first(bytes: Seq<u8>, sep: u8) -> Seq<u8>
    decreases bytes.len(),
{
    if bytes.len() == 0 {
        Seq::empty()
    } else if bytes[0] == sep {
        Seq::empty()
    } else {
        seq![bytes[0]] + before_first(bytes.drop_first(), sep)
    }
}

/// `String::from_utf8` on ASCII bytes: ASCII is valid UTF-8 in which every
/// byte encodes the character of the same number.
#[verifier::external_body]
fn ascii_to_string(bytes: Vec<u8>) -> (s: String)
    requires
        forall|i: int| 0 <= i < bytes@.len() ==> bytes@[i] < 128,
    ensures
        s@ == ascii_text(bytes@),
{
    String::from_utf8(bytes).unwrap_or_default()
}

/// Reads an HTTP header value as text and keeps what precedes its first `@`,
/// as `HeaderValue::to_str` followed by `split('@').next()` does, with an
/// empty text for a value that is not visible ASCII.
pub fn header_text_before_at(value: &Vec<u8>) -> (s: String)
    ensures
        s@ == if all_visible_ascii(value@) {
            ascii_text(before_first(value@, 64))
        } else {
            Seq::empty()
        },
{
    let mut i: usize = 0;
    while i < value.len()
        invariant
            i <= value@.len(),
            forall|j: int| 0 <= j < i ==> is_visible_ascii(#[trigger] value@[j]),
        decreases value@.len() - i,
    {
        let b = value[i];
        if !((32 <= b && b < 127) || b == 9) {
            return String::new();
        }
        i = i + 1;
    }
    let mut kept: Vec<u8> = Vec::new();
    let mut j: usize = 0;
    assert(value@.skip(0) =~= value@);
    while j < value.len() && value[j] != 64
        invariant
            j <= value@.len(),
            all_visible_ascii(value@),
            forall|t: int| 0 <= t < j ==> value@[t] != 64,
            kept@ == value@.take(j as int),
            before_first(value@, 64) == kept@ + before_first(value@.skip(j as int), 64),
        decreases value@.len() - j,
    {
        assert(value@.skip(j as int).drop_first() =~= value@.skip(j + 1));
        assert(value@.skip(j as int)[0] == value@[j as int]);
        kept.push(value[j]);
        assert(kept@ =~= value@.take(j + 1));
        j = j + 1;
    }
    if j < value.len() {
        assert(value@.skip(j as int)[0] == value@[j as int]);
    }
    assert(before_first(value@, 64) == kept@);
    assert forall|t: int| 0 <= t < kept@.len() implies kept@[t] < 128 by {
        assert(is_visible_ascii(value@[t]));
    }
    ascii_to_string(kept)
}

} // verus!
