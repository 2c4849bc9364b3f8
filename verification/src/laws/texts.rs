//! Numbers and words in text.
use crate::text;
use vstd::arithmetic::div_mod::lemma_breakdown;
use vstd::prelude::*;

verus! {

/// The value of a text of digits in base ten, the digits being those from 48 to 57.
pub open spec fn reads_as(s: Seq<char>, base: nat) -> nat
    decreases s.len(),
{
    if s.len() == 0 {
        0
    } else {
        reads_as(s.drop_last(), base) * base + digit_value(s.last())
    }
}

/// The value of a digit, letters after nine.
pub open spec fn digit_value(c: char) -> nat {
    let n = c as u32;
    if 48 <= n <= 57 {
        (n - 48) as nat
    } else if 97 <= n <= 102 {
        (n - 87) as nat
    } else {
        0
    }
}

/// Whether a text has only digits of a base.
pub open spec fn is_written_in(s: Seq<char>, base: nat) -> bool {
    forall|i: int|
        0 <= i < s.len() ==> (48 <= #[trigger] s[i] as u32 <= 57 || 97 <= s[i] as u32 <= 102)
            && digit_value(s[i]) < base
}

/// Ten times ten, so often.
pub open spec fn power_of_ten(n: nat) -> nat
    decreases n,
{
    if n == 0 {
        1
    } else {
        10 * power_of_ten((n - 1) as nat)
    }
}

proof fn lemma_push(s: Seq<char>, c: char, base: nat)
    ensures
        reads_as(s + seq![c], base) == reads_as(s, base) * base + digit_value(c),
        is_written_in(s, base) && (48 <= c as u32 <= 57 || 97 <= c as u32 <= 102) && digit_value(c)
            < base ==> is_written_in(s + seq![c], base),
{
    let t = s + seq![c];
    assert(t.drop_last() =~= s);
    assert(t.last() == c);
    if is_written_in(s, base) && (48 <= c as u32 <= 57 || 97 <= c as u32 <= 102) && digit_value(c)
        < base {
        assert forall|i: int| 0 <= i < t.len() implies (48 <= #[trigger] t[i] as u32 <= 57 || 97
            <= t[i] as u32 <= 102) && digit_value(t[i]) < base by {
            if i < s.len() {
                assert(t[i] == s[i]);
            }
        }
    }
}

proof fn lemma_empty(base: nat)
    ensures
        reads_as(Seq::<char>::empty(), base) == 0,
        is_written_in(Seq::<char>::empty(), base),
{
}

proof fn lemma_decimal(n: nat)
    ensures
        is_written_in(text::decimal(n), 10),
        reads_as(text::decimal(n), 10) == n,
        text::decimal(n).len() > 0,
        n > 0 ==> text::decimal(n)[0] != '0',
    decreases n,
{
    lemma_empty(10);
    if n < 10 {
        lemma_push(Seq::empty(), text::digit_char(n), 10);
        assert(Seq::<char>::empty() + seq![text::digit_char(n)] =~= text::decimal(n));
    } else {
        lemma_decimal(n / 10);
        lemma_push(text::decimal(n / 10), text::digit_char(n % 10), 10);
        assert(text::decimal(n)[0] == text::decimal(n / 10)[0]);
    }
}

proof fn lemma_hexadecimal(n: nat)
    ensures
        is_written_in(text::hexadecimal(n), 16),
        reads_as(text::hexadecimal(n), 16) == n,
        text::hexadecimal(n).len() > 0,
        n > 0 ==> text::hexadecimal(n)[0] != '0',
    decreases n,
{
    lemma_empty(16);
    if n < 16 {
        lemma_push(Seq::empty(), text::hex_char(n), 16);
        assert(Seq::<char>::empty() + seq![text::hex_char(n)] =~= text::hexadecimal(n));
    } else {
        lemma_hexadecimal(n / 16);
        lemma_push(text::hexadecimal(n / 16), text::hex_char(n % 16), 16);
        assert(text::hexadecimal(n)[0] == text::hexadecimal(n / 16)[0]);
    }
}

proof fn lemma_padded(n: nat, width: nat)
    ensures
        is_written_in(text::padded_decimal(n, width), 10),
        text::padded_decimal(n, width).len() == width,
        power_of_ten(width) > 0,
        reads_as(text::padded_decimal(n, width), 10) == n % power_of_ten(width),
    decreases width,
{
    lemma_empty(10);
    if width > 0 {
        let w = (width - 1) as nat;
        lemma_padded(n / 10, w);
        lemma_push(text::padded_decimal(n / 10, w), text::digit_char(n % 10), 10);
        lemma_breakdown(n as int, 10, power_of_ten(w) as int);
    }
}

/// A number that was appended reads back as that number, in base ten without leading zeros, and what
/// stood before it is untouched.
pub proof fn numbers_are_written_in_base_ten(out: &mut String, n: u64)
    requires
        call_ensures(text::append_decimal, (out, n), ()),
    ensures
        final(out)@.len() > old(out)@.len(),
        final(out)@.subrange(0, old(out)@.len() as int) == old(out)@,
        ({
            let added = final(out)@.subrange(old(out)@.len() as int, final(out)@.len() as int);
            is_written_in(added, 10) && reads_as(added, 10) == n && (added[0] == '0' ==> n == 0
                && added.len() == 1)
        }),
{
    lemma_decimal(n as nat);
    lemma_zero();
    let added = final(out)@.subrange(old(out)@.len() as int, final(out)@.len() as int);
    assert(added =~= text::decimal(n as nat));
    assert(final(out)@.subrange(0, old(out)@.len() as int) =~= old(out)@);
}

proof fn lemma_zero()
    ensures
        text::decimal(0).len() == 1,
        text::hexadecimal(0).len() == 1,
{
}

/// A negative number is a minus sign and the number without it.
pub proof fn negative_numbers_have_a_sign(out: &mut String, n: i64)
    requires
        call_ensures(text::append_signed, (out, n), ()),
    ensures
        final(out)@.len() > old(out)@.len(),
        ({
            let added = final(out)@.subrange(old(out)@.len() as int, final(out)@.len() as int);
            if n < 0 {
                added[0] == '-' && reads_as(added.subrange(1, added.len() as int), 10) == -n
                    && is_written_in(added.subrange(1, added.len() as int), 10)
            } else {
                reads_as(added, 10) == n && is_written_in(added, 10)
            }
        }),
{
    let added = final(out)@.subrange(old(out)@.len() as int, final(out)@.len() as int);
    assert(added =~= text::signed_decimal(n as int));
    if n < 0 {
        lemma_decimal((-n) as nat);
        assert(added.subrange(1, added.len() as int) =~= text::decimal((-n) as nat));
    } else {
        lemma_decimal(n as nat);
    }
}

/// A padded number has so many digits, and is the number if that fits.
pub proof fn padded_numbers_have_a_width(out: &mut String, n: u64, width: usize)
    requires
        call_ensures(text::append_padded, (out, n, width), ()),
    ensures
        final(out)@.len() == old(out)@.len() + width,
        ({
            let added = final(out)@.subrange(old(out)@.len() as int, final(out)@.len() as int);
            is_written_in(added, 10) && (n < power_of_ten(width as nat) ==> reads_as(added, 10)
                == n)
        }),
{
    lemma_padded(n as nat, width as nat);
    let added = final(out)@.subrange(old(out)@.len() as int, final(out)@.len() as int);
    assert(added =~= text::padded_decimal(n as nat, width as nat));
    if n < power_of_ten(width as nat) {
        vstd::arithmetic::div_mod::lemma_small_mod(n as nat, power_of_ten(width as nat));
    }
}

/// A number in base sixteen reads back as that number, without leading zeros.
pub proof fn numbers_are_written_in_base_sixteen(out: &mut String, n: u64)
    requires
        call_ensures(text::append_hex, (out, n), ()),
    ensures
        final(out)@.len() > old(out)@.len(),
        ({
            let added = final(out)@.subrange(old(out)@.len() as int, final(out)@.len() as int);
            is_written_in(added, 16) && reads_as(added, 16) == n && (added[0] == '0' ==> n == 0
                && added.len() == 1)
        }),
{
    lemma_hexadecimal(n as nat);
    lemma_zero();
    let added = final(out)@.subrange(old(out)@.len() as int, final(out)@.len() as int);
    assert(added =~= text::hexadecimal(n as nat));
}

proof fn lemma_numeral(s: Seq<char>)
    requires
        text::all_digits(s),
    ensures
        text::numeral(s) == reads_as(s, 10),
    decreases s.len(),
{
    if s.len() > 0 {
        assert(text::is_digit(s[s.len() - 1]));
        assert forall|i: int| 0 <= i < s.drop_last().len() implies text::is_digit(
            #[trigger] s.drop_last()[i],
        ) by {
            assert(text::is_digit(s[i]));
        }
        lemma_numeral(s.drop_last());
    }
}

/// Digits are read as the number they write, unless it is too large.
pub proof fn digits_are_read_back(chars: &Vec<char>, from: usize, to: usize, n: Option<u64>)
    requires
        call_ensures(text::parse_digits, (chars, from, to), n),
        text::all_digits(chars@.subrange(from as int, to as int)),
    ensures
        n matches Some(value) ==> value == reads_as(chars@.subrange(from as int, to as int), 10),
        n is None ==> reads_as(chars@.subrange(from as int, to as int), 10) > u64::MAX,
{
    lemma_numeral(chars@.subrange(from as int, to as int));
}

/// Whether a text is all white space.
pub open spec fn is_blank(s: Seq<char>) -> bool {
    forall|i: int| 0 <= i < s.len() ==> is_white(#[trigger] s[i])
}

/// White space: the controls from tab to carriage return, the space, and the spaces of Unicode.
pub open spec fn is_white(c: char) -> bool {
    let n = c as u32;
    (9 <= n <= 13) || n == 32 || n == 133 || n == 160 || n == 5760 || (8192 <= n <= 8202) || n
        == 8232 || n == 8233 || n == 8239 || n == 8287 || n == 12288
}

/// White space is told from other characters.
pub proof fn white_space_is_known(c: char, r: bool)
    requires
        call_ensures(text::is_whitespace, (c, ), r),
    ensures
        r <==> is_white(c),
{
}

proof fn lemma_strip_front(before: Seq<char>, rest: Seq<char>)
    requires
        is_blank(before),
        rest.len() > 0 ==> !is_white(rest[0]),
    ensures
        text::trim_start(before + rest) == rest,
    decreases before.len(),
{
    if before.len() == 0 {
        assert(before + rest =~= rest);
    } else {
        let fewer = before.subrange(1, before.len() as int);
        assert(is_white(before[0]));
        assert forall|i: int| 0 <= i < fewer.len() implies is_white(#[trigger] fewer[i]) by {
            assert(fewer[i] == before[i + 1]);
        }
        lemma_strip_front(fewer, rest);
        assert((before + rest).subrange(1, (before + rest).len() as int) =~= fewer + rest);
    }
}

proof fn lemma_strip_back(rest: Seq<char>, after: Seq<char>)
    requires
        is_blank(after),
        rest.len() > 0 ==> !is_white(rest.last()),
    ensures
        text::trim_end(rest + after) == rest,
    decreases after.len(),
{
    if after.len() == 0 {
        assert(rest + after =~= rest);
    } else {
        let fewer = after.subrange(0, after.len() - 1);
        assert(is_white(after[after.len() - 1]));
        assert forall|i: int| 0 <= i < fewer.len() implies is_white(#[trigger] fewer[i]) by {
            assert(fewer[i] == after[i]);
        }
        lemma_strip_back(rest, fewer);
        assert((rest + after).subrange(0, (rest + after).len() - 1) =~= rest + fewer);
    }
}

/// Trimming takes the white space off both ends, and nothing else.
pub proof fn trimming_takes_the_ends_off(
    s: &str,
    r: &str,
    before: Seq<char>,
    core: Seq<char>,
    after: Seq<char>,
)
    requires
        call_ensures(text::trim, (s, ), r),
        s@ == before + core + after,
        is_blank(before),
        is_blank(after),
        core.len() > 0,
        !is_white(core[0]),
        !is_white(core.last()),
    ensures
        r@ == core,
{
    assert(s@ =~= before + (core + after));
    assert((core + after)[0] == core[0]);
    lemma_strip_front(before, core + after);
    lemma_strip_back(core, after);
}

/// Of a blank text trimming leaves nothing.
pub proof fn trimming_a_blank_leaves_nothing(s: &str, r: &str)
    requires
        call_ensures(text::trim, (s, ), r),
        is_blank(s@),
    ensures
        r@.len() == 0,
{
    assert(s@ =~= s@ + Seq::<char>::empty());
    lemma_strip_front(s@, Seq::empty());
}

/// A text contains another exactly if that one stands somewhere in it.
pub proof fn containing_is_standing_in(
    whole: &str,
    part: &str,
    r: bool,
    before: Seq<char>,
    after: Seq<char>,
)
    requires
        call_ensures(text::contains, (whole, part), r),
    ensures
        whole@ == before + part@ + after ==> r,
        r ==> exists|i: int|
            0 <= i <= whole@.len() - part@.len() && #[trigger] whole@.subrange(
                i,
                i + part@.len(),
            ) == part@,
        part@.len() > whole@.len() ==> !r,
{
    if whole@ == before + part@ + after {
        let i = before.len() as int;
        assert(whole@.subrange(i, i + part@.len()) =~= part@);
        assert(text::occurs_at(whole@, part@, i));
    }
    if r {
        let i = choose|i: int| #[trigger] text::occurs_at(whole@, part@, i);
        assert(whole@.subrange(i, i + part@.len()) == part@);
    }
}

/// Texts are the same exactly if they have the same characters.
pub proof fn same_texts_have_the_same_characters(a: &str, b: &str, r: bool)
    requires
        call_ensures(text::same_text, (a, b), r),
    ensures
        r <==> a@.len() == b@.len() && forall|i: int| 0 <= i < a@.len() ==> a@[i]
            == #[trigger] b@[i],
{
    if a@.len() == b@.len() && forall|i: int| 0 <= i < a@.len() ==> a@[i] == #[trigger] b@[i] {
        assert(a@ =~= b@);
    }
}

} // verus!
