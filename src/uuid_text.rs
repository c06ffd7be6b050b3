use vstd::prelude::*;

verus! {

pub open spec fn is_hex_digit(c: char) -> bool {
    ('0' <= c && c <= '9') || ('a' <= c && c <= 'f') || ('A' <= c && c <= 'F')
}

pub open spec fn all_hex(d: Seq<char>) -> bool {
    forall|i: int| 0 <= i < d.len() ==> #[trigger] is_hex_digit(d[i])
}

pub open spec fn hex_value(c: char) -> nat {
    if '0' <= c && c <= '9' {
        (c as int - '0' as int) as nat
    } else if 'a' <= c && c <= 'f' {
        (c as int - 'a' as int + 10) as nat
    } else {
        (c as int - 'A' as int + 10) as nat
    }
}

/// The number that a sequence of hex digits spells, most significant digit first.
pub open spec fn hex_number(d: Seq<char>) -> nat
    decreases d.len(),
{
    if d.len() == 0 {
        0
    } else {
        hex_number(d.drop_last()) * 16 + hex_value(d.last())
    }
}

pub open spec fn lower_digit(n: nat) -> char {
    if n < 10 {
        (n + '0' as int) as char
    } else {
        (n - 10 + 'a' as int) as char
    }
}

/// The `n` lowest hex digits of `v` in lower case, most significant first.
pub open spec fn lower_hex(v: nat, n: nat) -> Seq<char>
    decreases n,
{
    if n == 0 {
        Seq::empty()
    } else {
        lower_hex(v / 16, (n - 1) as nat).push(lower_digit(v % 16))
    }
}

/// ASCII lower case of one character.
pub open spec fn fold_case(c: char) -> char {
    if 'A' <= c && c <= 'Z' {
        (c as int + 32) as char
    } else {
        c
    }
}

pub open spec fn fold_case_text(s: Seq<char>) -> Seq<char> {
    s.map_values(|c: char| fold_case(c))
}

/// Thirty-six characters with hyphens at 8, 13, 18 and 23.
pub open spec fn is_hyphenated_layout(s: Seq<char>) -> bool {
    &&& s.len() == 36
    &&& s[8] == '-'
    &&& s[13] == '-'
    &&& s[18] == '-'
    &&& s[23] == '-'
}

pub open spec fn dehyphenate(s: Seq<char>) -> Seq<char> {
    s.subrange(0, 8) + s.subrange(9, 13) + s.subrange(14, 18) + s.subrange(19, 23) + s.subrange(24, 36)
}

pub open spec fn hyphenate(d: Seq<char>) -> Seq<char> {
    d.subrange(0, 8) + seq!['-'] + d.subrange(8, 12) + seq!['-'] + d.subrange(12, 16) + seq!['-']
        + d.subrange(16, 20) + seq!['-'] + d.subrange(20, 32)
}

pub open spec fn urn_prefix() -> Seq<char> {
    seq!['u', 'r', 'n', ':', 'u', 'u', 'i', 'd', ':']
}

pub open spec fn has_urn_prefix(s: Seq<char>) -> bool {
    forall|i: int| 0 <= i < 9 ==> #[trigger] fold_case(s[i]) == urn_prefix()[i]
}

/// The 32 digits of a text in one of the accepted UUID forms: simple (32 digits),
/// hyphenated, braced (`{...}`) or URN (`urn:uuid:...`, prefix in any case).
pub open spec fn uuid_digits(s: Seq<char>) -> Option<Seq<char>> {
    if s.len() == 32 {
        Some(s)
    } else if s.len() == 36 && is_hyphenated_layout(s) {
        Some(dehyphenate(s))
    } else if s.len() == 38 && s[0] == '{' && s[37] == '}' && is_hyphenated_layout(s.subrange(1, 37)) {
        Some(dehyphenate(s.subrange(1, 37)))
    } else if s.len() == 45 && has_urn_prefix(s) && is_hyphenated_layout(s.subrange(9, 45)) {
        Some(dehyphenate(s.subrange(9, 45)))
    } else {
        None
    }
}

/// The 128-bit value of a UUID text, if it is one.
pub open spec fn uuid_value_of_text(s: Seq<char>) -> Option<u128> {
    match uuid_digits(s) {
        Some(d) => if all_hex(d) {
            Some(hex_number(d) as u128)
        } else {
            None
        },
        None => None,
    }
}

/// The canonical text of a UUID: lower case, hyphenated.
pub open spec fn uuid_text(v: u128) -> Seq<char> {
    hyphenate(lower_hex(v as nat, 32))
}

pub open spec fn pow16(n: nat) -> nat
    decreases n,
{
    if n == 0 {
        1
    } else {
        16 * pow16((n - 1) as nat)
    }
}

proof fn lemma_hex_number_bound(d: Seq<char>)
    requires
        all_hex(d),
    ensures
        hex_number(d) < pow16(d.len()),
    decreases d.len(),
{
    if d.len() > 0 {
        let init = d.drop_last();
        assert(all_hex(init)) by {
            assert forall|i: int| 0 <= i < init.len() implies #[trigger] is_hex_digit(init[i]) by {
                assert(is_hex_digit(d[i]));
            }
        }
        lemma_hex_number_bound(init);
        assert(is_hex_digit(d[d.len() - 1]));
        let a = hex_number(init);
        let b = hex_value(d.last());
        let p = pow16(init.len());
        assert(a * 16 + b < 16 * p) by (nonlinear_arith)
            requires
                a < p,
                b < 16,
        ;
    }
}

proof fn lemma_digit_fold(c: char)
    requires
        is_hex_digit(c),
    ensures
        hex_value(c) < 16,
        lower_digit(hex_value(c)) == fold_case(c),
{
}

proof fn lemma_lower_hex_of_digits(d: Seq<char>)
    requires
        all_hex(d),
    ensures
        lower_hex(hex_number(d), d.len()) == fold_case_text(d),
    decreases d.len(),
{
    if d.len() == 0 {
        assert(fold_case_text(d) =~= Seq::<char>::empty());
    } else {
        let init = d.drop_last();
        assert(all_hex(init)) by {
            assert forall|i: int| 0 <= i < init.len() implies #[trigger] is_hex_digit(init[i]) by {
                assert(is_hex_digit(d[i]));
            }
        }
        lemma_lower_hex_of_digits(init);
        assert(is_hex_digit(d[d.len() - 1]));
        lemma_digit_fold(d.last());
        let a = hex_number(init);
        let b = hex_value(d.last());
        assert((a * 16 + b) / 16 == a && (a * 16 + b) % 16 == b) by (nonlinear_arith)
            requires
                b < 16,
        ;
        assert(fold_case_text(d) =~= fold_case_text(init).push(fold_case(d.last())));
    }
}

/// A hyphenated UUID text parses, and the canonical text of its value is the
/// text itself in lower case.
pub proof fn lemma_hyphenated_text_round_trip(u: Seq<char>)
    requires
        is_hyphenated_layout(u),
        all_hex(dehyphenate(u)),
    ensures
        uuid_value_of_text(u) is Some,
        uuid_text(uuid_value_of_text(u)->0) == fold_case_text(u),
{
    let d = dehyphenate(u);
    assert(d.len() == 32);
    lemma_hex_number_bound(d);
    assert(pow16(32) == 0x1_0000_0000_0000_0000_0000_0000_0000_0000) by {
        reveal_with_fuel(pow16, 33);
    }
    lemma_lower_hex_of_digits(d);
    let v = hex_number(d) as u128;
    assert(v as nat == hex_number(d));
    assert(hyphenate(fold_case_text(d)) =~= fold_case_text(u));
}

} // verus!
