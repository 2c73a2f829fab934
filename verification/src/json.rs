//! Texts and numbers in JSON, and how one after the other is told apart.

use vstd::prelude::*;

verus! {

/// The digit for `n`, below 16, in lower-case hexadecimal.
pub open spec fn hex_digit(n: int) -> char {
    if n < 10 {
        (n + '0' as int) as char
    } else {
        (n - 10 + 'a' as int) as char
    }
}

/// A character inside a JSON string: as it is, or as an escape where JSON asks for one.
pub open spec fn json_char(c: char) -> Seq<char> {
    if c == '"' {
        seq!['\\', '"']
    } else if c == '\\' {
        seq!['\\', '\\']
    } else if c == '\u{8}' {
        seq!['\\', 'b']
    } else if c == '\t' {
        seq!['\\', 't']
    } else if c == '\n' {
        seq!['\\', 'n']
    } else if c == '\u{c}' {
        seq!['\\', 'f']
    } else if c == '\r' {
        seq!['\\', 'r']
    } else if c <= '\u{1f}' {
        seq!['\\', 'u', '0', '0', hex_digit(c as int / 16), hex_digit(c as int % 16)]
    } else {
        seq![c]
    }
}

/// A text inside a JSON string.
pub open spec fn json_chars(s: Seq<char>) -> Seq<char>
    decreases s.len(),
{
    if s.len() == 0 {
        Seq::empty()
    } else {
        json_char(s.first()) + json_chars(s.drop_first())
    }
}

/// A text as a JSON string.
pub open spec fn json_string(s: Seq<char>) -> Seq<char> {
    seq!['"'] + json_chars(s) + seq!['"']
}

/// A number in decimal digits.
pub open spec fn decimal(n: nat) -> Seq<char>
    decreases n,
{
    let digit = seq![((n % 10) + '0' as int) as char];
    if n < 10 {
        digit
    } else {
        decimal(n / 10) + digit
    }
}

/// An optional text in JSON.
pub open spec fn json_optional_string(o: Option<Seq<char>>) -> Seq<char> {
    match o {
        Some(s) => json_string(s),
        None => "null"@,
    }
}

/// An optional number in JSON.
pub open spec fn json_optional_number(o: Option<u16>) -> Seq<char> {
    match o {
        Some(n) => decimal(n as nat),
        None => "null"@,
    }
}

/// Two equal texts fall into equal parts where they are cut at the same place.
pub proof fn lemma_cut(p: Seq<char>, q: Seq<char>, x: Seq<char>, y: Seq<char>)
    requires
        p.len() == q.len(),
        p + x == q + y,
    ensures
        p == q,
        x == y,
{
    assert(p =~= (p + x).take(p.len() as int));
    assert(q =~= (q + y).take(q.len() as int));
    assert(x =~= (p + x).skip(p.len() as int));
    assert(y =~= (q + y).skip(q.len() as int));
}

proof fn lemma_json_char(c: char, d: char, x: Seq<char>, y: Seq<char>)
    requires
        json_char(c) + x == json_char(d) + y,
    ensures
        c == d,
        x == y,
{
    let t = json_char(c) + x;
    assert(t[0] == json_char(c)[0] && t[0] == json_char(d)[0]);
    if json_char(c).len() > 1 && json_char(d).len() > 1 {
        assert(t[1] == json_char(c)[1] && t[1] == json_char(d)[1]);
        if t[1] == 'u' {
            assert(t[4] == json_char(c)[4] && t[4] == json_char(d)[4]);
            assert(t[5] == json_char(c)[5] && t[5] == json_char(d)[5]);
        }
    }
    assert(c == d);
    lemma_cut(json_char(c), json_char(d), x, y);
}

proof fn lemma_json_chars(s: Seq<char>, t: Seq<char>, x: Seq<char>, y: Seq<char>)
    requires
        json_chars(s) + (seq!['"'] + x) == json_chars(t) + (seq!['"'] + y),
    ensures
        s == t,
        x == y,
    decreases s.len(),
{
    let all = json_chars(s) + (seq!['"'] + x);
    if s.len() == 0 || t.len() == 0 {
        if s.len() > 0 {
            assert(all[0] == json_char(s.first())[0]);
        }
        if t.len() > 0 {
            assert(all[0] == json_char(t.first())[0]);
        }
        assert(s =~= t);
        assert(json_chars(s) =~= json_chars(t));
        lemma_cut(json_chars(s), json_chars(t), seq!['"'] + x, seq!['"'] + y);
        lemma_cut(seq!['"'], seq!['"'], x, y);
    } else {
        let (a, b) = (s.drop_first(), t.drop_first());
        assert(all =~= json_char(s.first()) + (json_chars(a) + (seq!['"'] + x)));
        assert(all =~= json_char(t.first()) + (json_chars(b) + (seq!['"'] + y)));
        lemma_json_char(
            s.first(),
            t.first(),
            json_chars(a) + (seq!['"'] + x),
            json_chars(b) + (seq!['"'] + y),
        );
        lemma_json_chars(a, b, x, y);
        assert(s =~= seq![s.first()] + a);
        assert(t =~= seq![t.first()] + b);
    }
}

/// A JSON string says itself where it ends.
pub proof fn lemma_json_string(s: Seq<char>, t: Seq<char>, x: Seq<char>, y: Seq<char>)
    requires
        json_string(s) + x == json_string(t) + y,
    ensures
        s == t,
        x == y,
{
    assert(json_string(s) + x =~= seq!['"'] + (json_chars(s) + (seq!['"'] + x)));
    assert(json_string(t) + y =~= seq!['"'] + (json_chars(t) + (seq!['"'] + y)));
    lemma_cut(
        seq!['"'],
        seq!['"'],
        json_chars(s) + (seq!['"'] + x),
        json_chars(t) + (seq!['"'] + y),
    );
    lemma_json_chars(s, t, x, y);
}

/// An optional text in JSON says itself where it ends.
pub proof fn lemma_json_optional_string(
    s: Option<Seq<char>>,
    t: Option<Seq<char>>,
    x: Seq<char>,
    y: Seq<char>,
)
    requires
        json_optional_string(s) + x == json_optional_string(t) + y,
    ensures
        s == t,
        x == y,
{
    reveal_strlit("null");
    let all = json_optional_string(s) + x;
    assert(all[0] == json_optional_string(s)[0] && all[0] == json_optional_string(t)[0]);
    match (s, t) {
        (Some(a), Some(b)) => lemma_json_string(a, b, x, y),
        (None, None) => lemma_cut("null"@, "null"@, x, y),
        _ => {},
    }
}

proof fn lemma_decimal_digits(n: nat)
    ensures
        decimal(n).len() > 0,
        forall|i: int| 0 <= i < decimal(n).len() ==> '0' <= #[trigger] decimal(n)[i] <= '9',
    decreases n,
{
    if n >= 10 {
        lemma_decimal_digits(n / 10);
    }
}

proof fn lemma_decimal(m: nat, n: nat)
    requires
        decimal(m) == decimal(n),
    ensures
        m == n,
    decreases m,
{
    lemma_decimal_digits(m / 10);
    lemma_decimal_digits(n / 10);
    assert(decimal(m).last() == ((m % 10) + '0' as int) as char);
    assert(decimal(n).last() == ((n % 10) + '0' as int) as char);
    if m >= 10 && n >= 10 {
        assert(decimal(m).drop_last() =~= decimal(m / 10));
        assert(decimal(n).drop_last() =~= decimal(n / 10));
        lemma_decimal(m / 10, n / 10);
    }
}

/// A number in JSON ends where a comma follows.
pub proof fn lemma_json_optional_number(m: Option<u16>, n: Option<u16>, x: Seq<char>, y: Seq<char>)
    requires
        json_optional_number(m) + x == json_optional_number(n) + y,
        x.len() > 0 && x[0] == ',',
        y.len() > 0 && y[0] == ',',
    ensures
        m == n,
        x == y,
{
    reveal_strlit("null");
    let (p, q) = (json_optional_number(m), json_optional_number(n));
    let all = p + x;
    if m is Some {
        lemma_decimal_digits(m->0 as nat);
    }
    if n is Some {
        lemma_decimal_digits(n->0 as nat);
    }
    assert(all[0] == p[0] && all[0] == q[0]);
    assert(all[p.len() as int] == ',' && all[q.len() as int] == ',');
    if p.len() < q.len() {
        assert(all[p.len() as int] == q[p.len() as int]);
    }
    if q.len() < p.len() {
        assert(all[q.len() as int] == p[q.len() as int]);
    }
    lemma_cut(p, q, x, y);
    if m is Some && n is Some {
        lemma_decimal(m->0 as nat, n->0 as nat);
    }
}

/// It does not matter which of three texts are put together first.
pub proof fn lemma_regrouped(a: Seq<char>, b: Seq<char>, c: Seq<char>)
    ensures
        a + b + c == a + (b + c),
{
    assert(a + b + c =~= a + (b + c));
}

/// What a digit of a number in hexadecimal counts.
pub open spec fn hex_value(c: char) -> int {
    if c <= '9' {
        c as int - '0' as int
    } else {
        c as int - 'a' as int + 10
    }
}

/// The text that stands between the quotes of a JSON string, with its escapes read as JSON reads
/// them.
pub open spec fn unescaped(t: Seq<char>) -> Seq<char>
    decreases t.len(),
{
    if t.len() == 0 {
        Seq::empty()
    } else if t[0] != '\\' {
        seq![t[0]] + unescaped(t.skip(1))
    } else if t.len() >= 6 && t[1] == 'u' {
        let code = hex_value(t[2]) * 4096 + hex_value(t[3]) * 256 + hex_value(t[4]) * 16
            + hex_value(t[5]);
        seq![code as char] + unescaped(t.skip(6))
    } else if t.len() >= 2 {
        let c = match t[1] {
            'b' => '\u{8}',
            't' => '\u{9}',
            'n' => '\u{a}',
            'f' => '\u{c}',
            'r' => '\u{d}',
            c => c,
        };
        seq![c] + unescaped(t.skip(2))
    } else {
        Seq::empty()
    }
}

proof fn lemma_json_char_shape(c: char)
    ensures
        0 < json_char(c).len() <= 6,
        forall|i: int| 0 <= i < json_char(c).len() ==> #[trigger] json_char(c)[i] >= ' ',
        json_char(c)[0] != '"',
        forall|i: int|
            0 < i < json_char(c).len() && #[trigger] json_char(c)[i] == '"' ==> json_char(c)[i - 1]
                == '\\',
{
}

proof fn lemma_unescaped_char(c: char, rest: Seq<char>)
    ensures
        unescaped(json_char(c) + rest) == seq![c] + unescaped(rest),
{
    let t = json_char(c) + rest;
    let n = json_char(c).len() as int;
    assert(t.skip(n) =~= rest);
    assert forall|i: int| 0 <= i < n implies #[trigger] t[i] == json_char(c)[i] by {}
    assert(t[0] == json_char(c)[0]);
    if n > 1 {
        assert(t[1] == json_char(c)[1]);
        if n == 6 {
            assert(t[2] == '0' && t[3] == '0');
            assert(t[4] == hex_digit(c as int / 16));
            assert(t[5] == hex_digit(c as int % 16));
        }
    }
}

proof fn lemma_json_chars_read_back(s: Seq<char>)
    ensures
        unescaped(json_chars(s)) == s,
        forall|i: int| 0 <= i < json_chars(s).len() ==> #[trigger] json_chars(s)[i] >= ' ',
        forall|i: int|
            0 <= i < json_chars(s).len() && #[trigger] json_chars(s)[i] == '"' ==> i > 0
                && json_chars(s)[i - 1] == '\\',
    decreases s.len(),
{
    if s.len() > 0 {
        let (c, rest) = (s.first(), s.drop_first());
        lemma_json_chars_read_back(rest);
        lemma_unescaped_char(c, json_chars(rest));
        lemma_json_char_shape(c);
        assert(s =~= seq![c] + rest);
        let n = json_char(c).len();
        assert forall|i: int| 0 <= i < json_chars(s).len() implies #[trigger] json_chars(s)[i]
            >= ' ' by {
            if i < n {
                assert(json_chars(s)[i] == json_char(c)[i]);
            } else {
                assert(json_chars(s)[i] == json_chars(rest)[i - n]);
            }
        }
        assert forall|i: int|
            0 <= i < json_chars(s).len() && #[trigger] json_chars(s)[i] == '"' implies i > 0
            && json_chars(s)[i - 1] == '\\' by {
            if i < n {
                assert(json_chars(s)[i] == json_char(c)[i]);
                assert(json_chars(s)[i - 1] == json_char(c)[i - 1]);
            } else {
                assert(json_chars(s)[i] == json_chars(rest)[i - n]);
                assert(json_chars(s)[i - 1] == json_chars(rest)[i - n - 1]);
            }
        }
    }
}

/// A JSON string stands between quotes; what stands there reads back as the text, with no bare
/// quote and no control character in it.
pub proof fn law_json_string_reads_back(s: Seq<char>)
    ensures
        ({
            let t = json_string(s);
            &&& t.len() >= 2 && t.first() == '"' && t.last() == '"'
            &&& unescaped(t.subrange(1, t.len() - 1)) == s
            &&& forall|i: int| 0 <= i < t.len() ==> #[trigger] t[i] >= ' '
            &&& forall|i: int|
                0 < i < t.len() - 1 && #[trigger] t[i] == '"' ==> t[i - 1] == '\\'
        }),
{
    let t = json_string(s);
    lemma_json_chars_read_back(s);
    assert(t.subrange(1, t.len() - 1) =~= json_chars(s));
    assert forall|i: int| 0 <= i < t.len() implies #[trigger] t[i] >= ' ' by {
        if 0 < i < t.len() - 1 {
            assert(t[i] == json_chars(s)[i - 1]);
        }
    }
    assert forall|i: int| 0 < i < t.len() - 1 && #[trigger] t[i] == '"' implies t[i - 1]
        == '\\' by {
        assert(t[i] == json_chars(s)[i - 1]);
        assert(t[i - 1] == json_chars(s)[i - 2]);
    }
}

/// Text that needs no escapes stands in a JSON string as it is.
pub proof fn law_plain_text_stands_as_it_is(s: Seq<char>)
    requires
        forall|i: int|
            0 <= i < s.len() ==> #[trigger] s[i] >= ' ' && s[i] != '"' && s[i] != '\\',
    ensures
        json_string(s) == seq!['"'] + s + seq!['"'],
    decreases s.len(),
{
    if s.len() == 0 {
        assert(s =~= Seq::empty());
    } else {
        let rest = s.drop_first();
        assert forall|i: int| 0 <= i < rest.len() implies #[trigger] rest[i] >= ' ' && rest[i]
            != '"' && rest[i] != '\\' by {
            assert(rest[i] == s[i + 1]);
        }
        law_plain_text_stands_as_it_is(rest);
        assert(json_chars(rest) =~= json_string(rest).subrange(1, json_string(rest).len() - 1));
        assert(rest =~= json_string(rest).subrange(1, json_string(rest).len() - 1));
        assert(json_char(s.first()) =~= seq![s.first()]);
        assert(json_chars(s) =~= s);
    }
}

/// The number that these digits write.
pub open spec fn number_of(digits: Seq<char>) -> int
    decreases digits.len(),
{
    if digits.len() == 0 {
        0
    } else {
        number_of(digits.drop_last()) * 10 + (digits.last() as int - '0' as int)
    }
}

/// A number in decimal is made of digits, does not start with a needless 0, and reads back as the
/// number.
pub proof fn law_decimal_reads_back(n: nat)
    ensures
        number_of(decimal(n)) == n,
        decimal(n).len() > 0,
        forall|i: int| 0 <= i < decimal(n).len() ==> '0' <= #[trigger] decimal(n)[i] <= '9',
        decimal(n)[0] == '0' ==> n == 0,
    decreases n,
{
    lemma_decimal_digits(n);
    assert(decimal(n).last() == ((n % 10) + '0' as int) as char);
    if n >= 10 {
        law_decimal_reads_back(n / 10);
        assert(decimal(n).drop_last() =~= decimal(n / 10));
        assert(decimal(n)[0] == decimal(n / 10)[0]);
    } else {
        assert(decimal(n).drop_last() =~= Seq::empty());
        assert(number_of(Seq::<char>::empty()) == 0);
    }
}

} // verus!
