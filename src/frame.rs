use vstd::prelude::*;
use vstd::string::*;
use crate::text::{text_of_bytes, utf8_lossy};

verus! {

/// Delay, in seconds, used when a frame carries a delay that is not a number.
pub const DEFAULT_DELAY: u64 = 3;

/// One request to show a title and a message for `delay` seconds.
pub struct NotificationUpdate {
    pub title: String,
    pub message: String,
    pub delay: u64,
}

/// What a `NotificationUpdate` holds, as mathematical values.
pub struct UpdateModel {
    pub title: Seq<char>,
    pub message: Seq<char>,
    pub delay: u64,
}

impl View for NotificationUpdate {
    type V = UpdateModel;

    open spec fn view(&self) -> UpdateModel {
        UpdateModel { title: self.title@, message: self.message@, delay: self.delay }
    }
}

/// Whether the field separator `|+|` starts at index `i` of `s`.
pub open spec fn sep_at(s: Seq<char>, i: int) -> bool {
    0 <= i && i + 3 <= s.len() && s[i] == '|' && s[i + 1] == '+' && s[i + 2] == '|'
}

/// No separator starts at an index in `[lo, hi)`.
pub open spec fn no_sep_in(s: Seq<char>, lo: int, hi: int) -> bool {
    forall|j: int| lo <= j < hi ==> !#[trigger] sep_at(s, j)
}

/// The fields of `s` between separators, scanned from the left: what
/// `str::split("|+|")` yields.
pub open spec fn split_fields(s: Seq<char>) -> Seq<Seq<char>>
    decreases s.len(),
{
    if s.len() == 0 {
        seq![s]
    } else if sep_at(s, 0) {
        seq![Seq::empty()] + split_fields(s.subrange(3, s.len() as int))
    } else {
        let rest = split_fields(s.drop_first());
        rest.update(0, seq![s[0]] + rest[0])
    }
}

/// `s` with every newline taken out.
pub open spec fn strip_newlines(s: Seq<char>) -> Seq<char>
    decreases s.len(),
{
    if s.len() == 0 {
        s
    } else if s.last() == '\n' {
        strip_newlines(s.drop_last())
    } else {
        strip_newlines(s.drop_last()).push(s.last())
    }
}

/// What a frame decodes to: its first three fields with newlines taken out,
/// the third read as the delay; nothing where it has fewer than three fields.
pub open spec fn decode_spec(text: Seq<char>) -> Option<UpdateModel> {
    let parts = split_fields(text);
    if parts.len() >= 3 {
        Some(
            UpdateModel {
                title: strip_newlines(parts[0]),
                message: strip_newlines(parts[1]),
                delay: delay_of(strip_newlines(parts[2])),
            },
        )
    } else {
        None
    }
}

proof fn lemma_split_without_sep(s: Seq<char>)
    requires
        no_sep_in(s, 0, s.len() as int),
    ensures
        split_fields(s) == seq![s],
    decreases s.len(),
{
    if s.len() > 0 {
        let t = s.drop_first();
        assert forall|j: int| 0 <= j < t.len() implies !#[trigger] sep_at(t, j) by {
            assert(!sep_at(s, j + 1));
        }
        lemma_split_without_sep(t);
        assert(!sep_at(s, 0));
        assert(seq![s[0]] + t =~= s);
        assert(seq![t].update(0, seq![s[0]] + t) =~= seq![s]);
    }
}

proof fn lemma_split_at_first(s: Seq<char>, i: int)
    requires
        sep_at(s, i),
        no_sep_in(s, 0, i),
    ensures
        split_fields(s) == seq![s.subrange(0, i)] + split_fields(s.subrange(i + 3, s.len() as int)),
    decreases i,
{
    if i == 0 {
        assert(s.subrange(0, 0) =~= Seq::<char>::empty());
    } else {
        let t = s.drop_first();
        assert(sep_at(t, i - 1));
        assert forall|j: int| 0 <= j < i - 1 implies !#[trigger] sep_at(t, j) by {
            assert(!sep_at(s, j + 1));
        }
        lemma_split_at_first(t, i - 1);
        assert(!sep_at(s, 0));
        assert(t.subrange(i + 2, t.len() as int) =~= s.subrange(i + 3, s.len() as int));
        assert(seq![s[0]] + t.subrange(0, i - 1) =~= s.subrange(0, i));
        let tail = split_fields(s.subrange(i + 3, s.len() as int));
        assert((seq![t.subrange(0, i - 1)] + tail).update(0, seq![s[0]] + t.subrange(0, i - 1))
            =~= seq![s.subrange(0, i)] + tail);
    }
}

/// Index of the first separator at or after `from`.
fn find_sep(s: &str, n: usize, from: usize) -> (r: Option<usize>)
    requires
        n == s@.len(),
        from <= n,
    ensures
        match r {
            Some(i) => from <= i && sep_at(s@, i as int) && no_sep_in(s@, from as int, i as int),
            None => no_sep_in(s@, from as int, n as int),
        },
{
    let mut i: usize = from;
    while i < n
        invariant
            from <= i <= n,
            n == s@.len(),
            no_sep_in(s@, from as int, i as int),
        decreases n - i,
    {
        if n - i >= 3 && s.get_char(i) == '|' && s.get_char(i + 1) == '+' && s.get_char(i + 2)
            == '|' {
            return Some(i);
        }
        i = i + 1;
    }
    None
}

/// `s` with every newline taken out.
fn without_newlines(s: &str) -> (r: String)
    ensures
        r@ == strip_newlines(s@),
{
    let n = s.unicode_len();
    let mut out = String::new();
    let mut i: usize = 0;
    while i < n
        invariant
            i <= n,
            n == s@.len(),
            out@ == strip_newlines(s@.subrange(0, i as int)),
        decreases n - i,
    {
        let c = s.get_char(i);
        proof {
            assert(s@.subrange(0, i + 1).drop_last() =~= s@.subrange(0, i as int));
        }
        if c != '\n' {
            let one = s.substring_char(i, i + 1);
            out.append(one);
            assert(one@ =~= seq![c]);
        }
        i = i + 1;
    }
    assert(s@.subrange(0, n as int) =~= s@);
    out
}

/// Reads one frame: `title|+|message|+|delay`. Newlines inside a field are
/// dropped; a delay that is not a number becomes `DEFAULT_DELAY`. A frame with
/// fewer than three fields yields nothing; fields after the third are ignored.
pub fn decode_frame(text: &str) -> (r: Option<NotificationUpdate>)
    ensures
        r is Some <==> decode_spec(text@) is Some,
        r is Some ==> r->0@ == decode_spec(text@)->0,
{
    let ghost s = text@;
    let n = text.unicode_len();
    let a = match find_sep(text, n, 0) {
        Some(a) => a,
        None => {
            proof {
                lemma_split_without_sep(s);
            }
            return None;
        },
    };
    proof {
        lemma_split_at_first(s, a as int);
    }
    let ghost s1 = s.subrange(a + 3, n as int);
    let b = match find_sep(text, n, a + 3) {
        Some(b) => b,
        None => {
            proof {
                assert forall|j: int| 0 <= j < s1.len() implies !#[trigger] sep_at(s1, j) by {
                    assert(!sep_at(s, j + a + 3));
                }
                lemma_split_without_sep(s1);
            }
            return None;
        },
    };
    let ghost s2 = s.subrange(b + 3, n as int);
    proof {
        assert(sep_at(s1, b - a - 3));
        assert forall|j: int| 0 <= j < b - a - 3 implies !#[trigger] sep_at(s1, j) by {
            assert(!sep_at(s, j + a + 3));
        }
        lemma_split_at_first(s1, b - a - 3);
        assert(s1.subrange(b - a, s1.len() as int) =~= s2);
        assert(s1.subrange(0, b - a - 3) =~= s.subrange(a + 3, b as int));
    }
    let end = match find_sep(text, n, b + 3) {
        Some(c) => {
            proof {
                assert(sep_at(s2, c - b - 3));
                assert forall|j: int| 0 <= j < c - b - 3 implies !#[trigger] sep_at(s2, j) by {
                    assert(!sep_at(s, j + b + 3));
                }
                lemma_split_at_first(s2, c - b - 3);
                assert(s2.subrange(0, c - b - 3) =~= s.subrange(b + 3, c as int));
            }
            c
        },
        None => {
            proof {
                assert forall|j: int| 0 <= j < s2.len() implies !#[trigger] sep_at(s2, j) by {
                    assert(!sep_at(s, j + b + 3));
                }
                lemma_split_without_sep(s2);
                assert(s2 =~= s.subrange(b + 3, n as int));
            }
            n
        },
    };
    let title = without_newlines(text.substring_char(0, a));
    let message = without_newlines(text.substring_char(a + 3, b));
    let third = without_newlines(text.substring_char(b + 3, end));
    let delay = match parse_delay(third.as_str()) {
        Some(d) => d,
        None => DEFAULT_DELAY,
    };
    Some(NotificationUpdate { title, message, delay })
}

pub open spec fn is_digit(c: char) -> bool {
    48 <= c as int <= 57
}

pub open spec fn digit_value(c: char) -> nat {
    (c as int - 48) as nat
}

pub open spec fn digit_char(d: nat) -> char {
    (d + 48) as char
}

/// The number written by a sequence of decimal digits.
pub open spec fn digits_value(d: Seq<char>) -> nat
    decreases d.len(),
{
    if d.len() == 0 {
        0
    } else {
        digits_value(d.drop_last()) * 10 + digit_value(d.last())
    }
}

pub open spec fn all_digits(d: Seq<char>) -> bool {
    forall|i: int| 0 <= i < d.len() ==> is_digit(#[trigger] d[i])
}

/// The digits of a string that parses as an unsigned number: all of it but
/// one optional leading plus sign.
pub open spec fn unsigned_digits(s: Seq<char>) -> Seq<char> {
    if s.len() > 0 && s[0] == '+' {
        s.drop_first()
    } else {
        s
    }
}

/// An optional `+`, then one or more decimal digits whose value fits in `u64`.
pub open spec fn parse_u64(s: Seq<char>) -> Option<u64> {
    let d = unsigned_digits(s);
    if d.len() > 0 && all_digits(d) && digits_value(d) <= u64::MAX {
        Some(digits_value(d) as u64)
    } else {
        None
    }
}

/// The delay a frame's third field stands for.
pub open spec fn delay_of(s: Seq<char>) -> u64 {
    match parse_u64(s) {
        Some(v) => v,
        None => DEFAULT_DELAY,
    }
}

proof fn lemma_digits_value_grows(d: Seq<char>, i: int)
    requires
        0 <= i <= d.len(),
    ensures
        digits_value(d.subrange(0, i)) <= digits_value(d),
    decreases d.len(),
{
    if i < d.len() {
        lemma_digits_value_grows(d.drop_last(), i);
        assert(d.drop_last().subrange(0, i) =~= d.subrange(0, i));
    } else {
        assert(d.subrange(0, i) =~= d);
    }
}

/// Reads a delay field: the number it writes, or `None` where it writes none
/// that fits in `u64`.
pub fn parse_delay(s: &str) -> (r: Option<u64>)
    ensures
        r == parse_u64(s@),
{
    let n = s.unicode_len();
    let mut start: usize = 0;
    if n > 0 && s.get_char(0) == '+' {
        start = 1;
    }
    let ghost d = unsigned_digits(s@);
    assert(d =~= s@.subrange(start as int, n as int));
    if start == n {
        return None;
    }
    let mut value: u64 = 0;
    let mut i: usize = start;
    while i < n
        invariant
            start <= i <= n,
            n == s@.len(),
            d =~= s@.subrange(start as int, n as int),
            d == unsigned_digits(s@),
            forall|k: int| 0 <= k < i - start ==> is_digit(#[trigger] d[k]),
            value as nat == digits_value(d.subrange(0, i - start)),
        decreases n - i,
    {
        let c = s.get_char(i);
        let cv = c as u32;
        assert(d[i - start] == c);
        if cv < 48 || cv > 57 {
            assert(!is_digit(d[i - start]));
            assert(!all_digits(d));
            return None;
        }
        let dg = (cv - 48) as u64;
        proof {
            let p = d.subrange(0, i + 1 - start);
            assert(p.drop_last() =~= d.subrange(0, i - start));
            assert(p.last() == c);
            assert(digits_value(p) == value * 10 + dg);
        }
        if value > (u64::MAX - dg) / 10 {
            proof {
                lemma_digits_value_grows(d, i + 1 - start);
            }
            assert(digits_value(d.subrange(0, i + 1 - start)) > u64::MAX) by (nonlinear_arith)
                requires
                    value > (u64::MAX - dg) / 10,
                    digits_value(d.subrange(0, i + 1 - start)) == value * 10 + dg,
            ;
            return None;
        }
        value = value * 10 + dg;
        i = i + 1;
    }
    assert(d.subrange(0, n - start) =~= d);
    Some(value)
}

/// Reads one frame as it came off the endpoint: the bytes are taken as UTF-8,
/// invalid sequences replaced, and the text decoded as `decode_frame` does.
pub fn decode_received(buf: &[u8]) -> (r: Option<NotificationUpdate>)
    ensures
        r is Some <==> decode_spec(utf8_lossy(buf@)) is Some,
        r is Some ==> r->0@ == decode_spec(utf8_lossy(buf@))->0,
{
    let text = text_of_bytes(buf);
    decode_frame(text.as_str())
}

/// The decimal digits of `n`, most significant first, without leading zeros.
pub open spec fn decimal(n: nat) -> Seq<char>
    decreases n,
{
    if n < 10 {
        seq![digit_char(n)]
    } else {
        decimal(n / 10).push(digit_char(n % 10))
    }
}

/// The frame that carries `u`.
pub open spec fn encode_spec(u: UpdateModel) -> Seq<char> {
    u.title + sep_chars() + u.message + sep_chars() + decimal(u.delay as nat)
}

pub open spec fn sep_chars() -> Seq<char> {
    seq!['|', '+', '|']
}

/// A field that survives a frame unchanged: no `|`, no newline.
pub open spec fn plain_field(s: Seq<char>) -> bool {
    forall|i: int| 0 <= i < s.len() ==> (#[trigger] s[i] != '|' && s[i] != '\n')
}

proof fn lemma_decimal(n: nat)
    ensures
        decimal(n).len() > 0,
        all_digits(decimal(n)),
        digits_value(decimal(n)) == n,
    decreases n,
{
    let d = decimal(n);
    assert(digit_value(digit_char(n % 10)) == n % 10);
    if n >= 10 {
        lemma_decimal(n / 10);
        assert(d.drop_last() =~= decimal(n / 10));
        assert(digits_value(d) == digits_value(decimal(n / 10)) * 10 + n % 10);
        assert((n / 10) * 10 + n % 10 == n);
        assert forall|i: int| 0 <= i < d.len() implies is_digit(#[trigger] d[i]) by {
            if i < d.len() - 1 {
                assert(d[i] == decimal(n / 10)[i]);
            }
        }
    } else {
        assert(d.drop_last() =~= Seq::<char>::empty());
        assert(digits_value(Seq::<char>::empty()) == 0);
        assert(is_digit(d[0]));
    }
}

proof fn lemma_strip_plain(s: Seq<char>)
    requires
        plain_field(s) || all_digits(s),
    ensures
        strip_newlines(s) == s,
    decreases s.len(),
{
    if s.len() > 0 {
        let t = s.drop_last();
        assert(s[s.len() - 1] != '\n');
        if plain_field(s) {
            assert(plain_field(t));
        } else {
            assert(all_digits(t));
        }
        lemma_strip_plain(t);
        assert(t.push(s.last()) =~= s);
    }
}

proof fn lemma_three_fields(t: Seq<char>, m: Seq<char>, d: Seq<char>)
    requires
        plain_field(t),
        plain_field(m),
        forall|i: int| 0 <= i < d.len() ==> #[trigger] d[i] != '|',
    ensures
        split_fields(t + sep_chars() + m + sep_chars() + d) == seq![t, m, d],
{
    let s = t + sep_chars() + m + sep_chars() + d;
    let s1 = m + sep_chars() + d;
    let tl = t.len() as int;
    let ml = m.len() as int;
    assert(sep_at(s, tl));
    assert forall|j: int| 0 <= j < tl implies !#[trigger] sep_at(s, j) by {
        assert(s[j] == t[j]);
    }
    lemma_split_at_first(s, tl);
    assert(s.subrange(0, tl) =~= t);
    assert(s.subrange(tl + 3, s.len() as int) =~= s1);
    assert(sep_at(s1, ml));
    assert forall|j: int| 0 <= j < ml implies !#[trigger] sep_at(s1, j) by {
        assert(s1[j] == m[j]);
    }
    lemma_split_at_first(s1, ml);
    assert(s1.subrange(0, ml) =~= m);
    assert(s1.subrange(ml + 3, s1.len() as int) =~= d);
    assert forall|j: int| 0 <= j < d.len() implies !#[trigger] sep_at(d, j) by {
        assert(d[j] != '|');
    }
    lemma_split_without_sep(d);
    assert(seq![t] + (seq![m] + seq![d]) =~= seq![t, m, d]);
}

/// A frame written for an update reads back as that update, wherever its title
/// and message hold neither `|` nor a newline.
pub proof fn lemma_frame_round_trip(u: UpdateModel)
    requires
        plain_field(u.title),
        plain_field(u.message),
    ensures
        decode_spec(encode_spec(u)) == Some(u),
{
    let d = decimal(u.delay as nat);
    lemma_decimal(u.delay as nat);
    assert forall|i: int| 0 <= i < d.len() implies #[trigger] d[i] != '|' by {
        assert(is_digit(d[i]));
    }
    lemma_three_fields(u.title, u.message, d);
    lemma_strip_plain(u.title);
    lemma_strip_plain(u.message);
    lemma_strip_plain(d);
    assert(is_digit(d[0]));
    assert(unsigned_digits(d) == d);
}

/// A frame whose delay field is not a number (once newlines are taken out)
/// still decodes, with its title and message and the default delay.
pub proof fn lemma_bad_delay_defaults(title: Seq<char>, message: Seq<char>, delay_text: Seq<char>)
    requires
        plain_field(title),
        plain_field(message),
        forall|i: int| 0 <= i < delay_text.len() ==> #[trigger] delay_text[i] != '|',
        parse_u64(strip_newlines(delay_text)) is None,
    ensures
        decode_spec(title + sep_chars() + message + sep_chars() + delay_text) == Some(
            UpdateModel { title, message, delay: DEFAULT_DELAY },
        ),
{
    lemma_three_fields(title, message, delay_text);
    lemma_strip_plain(title);
    lemma_strip_plain(message);
}

pub(crate) fn append_decimal(out: &mut String, n: u64)
    ensures
        final(out)@ == old(out)@ + decimal(n as nat),
    decreases n,
{
    if n >= 10 {
        append_decimal(out, n / 10);
    }
    let digits = "0123456789";
    proof {
        reveal_strlit("0123456789");
    }
    let d = (n % 10) as usize;
    let one = digits.substring_char(d, d + 1);
    assert(one@ =~= seq![digit_char(n as nat % 10)]);
    out.append(one);
    assert(out@ =~= old(out)@ + decimal(n as nat));
}

/// Writes the frame that a running window reads back as this title, message
/// and delay.
pub fn encode_frame(title: &str, message: &str, delay: u64) -> (r: String)
    ensures
        r@ == encode_spec(UpdateModel { title: title@, message: message@, delay }),
{
    let separator = "|+|";
    proof {
        reveal_strlit("|+|");
    }
    let mut out = String::from_str(title);
    out.append(separator);
    out.append(message);
    out.append(separator);
    append_decimal(&mut out, delay);
    assert(out@ =~= encode_spec(UpdateModel { title: title@, message: message@, delay }));
    out
}

} // verus!
