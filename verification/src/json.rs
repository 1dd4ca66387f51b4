//! Scalar JSON values and a verified codec for the flat configuration
//! format: a single object of string keys and scalar values, printed in
//! pretty form with two-space indentation and stable key order.
use vstd::prelude::*;

verus! {

/// A scalar JSON value of the flat configuration format.
#[derive(Debug, Clone, PartialEq)]
pub enum Json {
    Null,
    Bool(bool),
    Num(u64),
    Str(Vec<char>),
}

/// Mathematical value of a `Json` scalar.
pub enum JsonV {
    Null,
    Bool(bool),
    Num(u64),
    Str(Seq<char>),
}

impl View for Json {
    type V = JsonV;

    open spec fn view(&self) -> JsonV {
        match self {
            Json::Null => JsonV::Null,
            Json::Bool(b) => JsonV::Bool(*b),
            Json::Num(n) => JsonV::Num(*n),
            Json::Str(s) => JsonV::Str(s@),
        }
    }
}

/// Mathematical value of one key/value entry.
pub open spec fn entry_view(e: (Vec<char>, Json)) -> (Seq<char>, JsonV) {
    (e.0@, e.1@)
}

/// Mathematical value of an entry list.
pub open spec fn entries_view(es: Seq<(Vec<char>, Json)>) -> Seq<(Seq<char>, JsonV)>
    decreases es.len(),
{
    if es.len() == 0 {
        Seq::empty()
    } else {
        entries_view(es.drop_last()).push(entry_view(es.last()))
    }
}

pub proof fn lemma_entries_view_index(es: Seq<(Vec<char>, Json)>)
    ensures
        entries_view(es).len() == es.len(),
        forall|i: int| 0 <= i < es.len() ==> entries_view(es)[i] == entry_view(#[trigger] es[i]),
    decreases es.len(),
{
    if es.len() > 0 {
        lemma_entries_view_index(es.drop_last());
        assert(forall|i: int|
            0 <= i < es.len() - 1 ==> #[trigger] es[i] == es.drop_last()[i]);
    }
}

// ---------- printing: spec level ----------

/// How one character is written inside a quoted string.
pub open spec fn esc_char(c: char) -> Seq<char> {
    if c == '"' {
        seq!['\\', '"']
    } else if c == '\\' {
        seq!['\\', '\\']
    } else if c == '\n' {
        seq!['\\', 'n']
    } else if c == '\r' {
        seq!['\\', 'r']
    } else if c == '\t' {
        seq!['\\', 't']
    } else {
        seq![c]
    }
}

/// The escaped body of a quoted string.
pub open spec fn esc(s: Seq<char>) -> Seq<char>
    decreases s.len(),
{
    if s.len() == 0 {
        Seq::empty()
    } else {
        esc_char(s[0]) + esc(s.drop_first())
    }
}

pub open spec fn dec_digit(n: int) -> char {
    if n == 0 {
        '0'
    } else if n == 1 {
        '1'
    } else if n == 2 {
        '2'
    } else if n == 3 {
        '3'
    } else if n == 4 {
        '4'
    } else if n == 5 {
        '5'
    } else if n == 6 {
        '6'
    } else if n == 7 {
        '7'
    } else if n == 8 {
        '8'
    } else {
        '9'
    }
}

/// Decimal representation of a number, most significant digit first.
pub open spec fn dec_rep(n: nat) -> Seq<char>
    decreases n,
{
    if n < 10 {
        seq![dec_digit(n as int)]
    } else {
        dec_rep(n / 10).push(dec_digit((n % 10) as int))
    }
}

pub open spec fn print_str(t: Seq<char>) -> Seq<char> {
    seq!['"'] + esc(t) + seq!['"']
}

pub open spec fn print_val(v: JsonV) -> Seq<char> {
    match v {
        JsonV::Null => seq!['n', 'u', 'l', 'l'],
        JsonV::Bool(b) => if b {
            seq!['t', 'r', 'u', 'e']
        } else {
            seq!['f', 'a', 'l', 's', 'e']
        },
        JsonV::Num(n) => dec_rep(n as nat),
        JsonV::Str(t) => print_str(t),
    }
}

/// One indented `"key": value` line.
pub open spec fn print_item(e: (Seq<char>, JsonV)) -> Seq<char> {
    seq![' ', ' '] + print_str(e.0) + seq![':', ' '] + print_val(e.1)
}

/// The item lines joined with `,\n`.
pub open spec fn print_items(es: Seq<(Seq<char>, JsonV)>) -> Seq<char>
    decreases es.len(),
{
    if es.len() == 0 {
        Seq::empty()
    } else if es.len() == 1 {
        print_item(es[0])
    } else {
        print_item(es[0]) + seq![',', '\n'] + print_items(es.drop_first())
    }
}

/// The whole printed object.
pub open spec fn print_text(es: Seq<(Seq<char>, JsonV)>) -> Seq<char> {
    if es.len() == 0 {
        seq!['{', '}']
    } else {
        seq!['{', '\n'] + print_items(es) + seq!['\n', '}']
    }
}

// ---------- printing: executable level ----------

pub proof fn lemma_esc_app(a: Seq<char>, b: Seq<char>)
    ensures
        esc(a + b) == esc(a) + esc(b),
    decreases a.len(),
{
    if a.len() == 0 {
        assert(a + b =~= b);
        assert(esc(a) + esc(b) =~= esc(b));
    } else {
        assert((a + b).drop_first() =~= a.drop_first() + b);
        lemma_esc_app(a.drop_first(), b);
        assert(esc_char(a[0]) + (esc(a.drop_first()) + esc(b)) =~= (esc_char(a[0]) + esc(
            a.drop_first(),
        )) + esc(b));
        assert((a + b)[0] == a[0]);
    }
}

/// Appends the escaped body of `t` to `out`.
pub fn esc_push(t: &Vec<char>, out: &mut Vec<char>)
    ensures
        final(out)@ == old(out)@ + esc(t@),
{
    let mut i: usize = 0;
    while i < t.len()
        invariant
            i <= t@.len(),
            out@ == old(out)@ + esc(t@.subrange(0, i as int)),
        decreases t@.len() - i,
    {
        let c = t[i];
        if c == '"' {
            out.push('\\');
            out.push('"');
        } else if c == '\\' {
            out.push('\\');
            out.push('\\');
        } else if c == '\n' {
            out.push('\\');
            out.push('n');
        } else if c == '\r' {
            out.push('\\');
            out.push('r');
        } else if c == '\t' {
            out.push('\\');
            out.push('t');
        } else {
            out.push(c);
        }
        proof {
            let pre = t@.subrange(0, i as int);
            assert(t@.subrange(0, i as int + 1) =~= pre + seq![t@[i as int]]);
            lemma_esc_app(pre, seq![t@[i as int]]);
            let single = seq![t@[i as int]];
            assert(single.drop_first() =~= Seq::<char>::empty());
            assert(esc(single) == esc_char(t@[i as int]) + esc(Seq::<char>::empty()));
            assert(esc(single) =~= esc_char(t@[i as int]));
            assert(out@ =~= old(out)@ + esc(t@.subrange(0, i as int + 1)));
        }
        i = i + 1;
    }
    proof {
        assert(t@.subrange(0, t@.len() as int) =~= t@);
    }
}

fn digit_char(d: u64) -> (c: char)
    requires
        d < 10,
    ensures
        c == dec_digit(d as int),
{
    if d == 0 {
        '0'
    } else if d == 1 {
        '1'
    } else if d == 2 {
        '2'
    } else if d == 3 {
        '3'
    } else if d == 4 {
        '4'
    } else if d == 5 {
        '5'
    } else if d == 6 {
        '6'
    } else if d == 7 {
        '7'
    } else if d == 8 {
        '8'
    } else {
        '9'
    }
}

/// Appends the decimal representation of `n` to `out`.
pub fn print_u64(n: u64, out: &mut Vec<char>)
    ensures
        final(out)@ == old(out)@ + dec_rep(n as nat),
    decreases n,
{
    if n < 10 {
        out.push(digit_char(n));
        proof {
            assert(out@ =~= old(out)@ + seq![dec_digit(n as int)]);
        }
    } else {
        print_u64(n / 10, out);
        out.push(digit_char(n % 10));
        proof {
            assert(out@ =~= old(out)@ + dec_rep((n / 10) as nat).push(
                dec_digit((n % 10) as int),
            ));
        }
    }
}

/// Appends the printed form of one scalar value to `out`.
pub fn print_val_x(v: &Json, out: &mut Vec<char>)
    ensures
        final(out)@ == old(out)@ + print_val(v@),
{
    match v {
        Json::Null => {
            out.push('n');
            out.push('u');
            out.push('l');
            out.push('l');
            proof {
                assert(out@ =~= old(out)@ + seq!['n', 'u', 'l', 'l']);
            }
        },
        Json::Bool(b) => {
            if *b {
                out.push('t');
                out.push('r');
                out.push('u');
                out.push('e');
                proof {
                    assert(out@ =~= old(out)@ + seq!['t', 'r', 'u', 'e']);
                }
            } else {
                out.push('f');
                out.push('a');
                out.push('l');
                out.push('s');
                out.push('e');
                proof {
                    assert(out@ =~= old(out)@ + seq!['f', 'a', 'l', 's', 'e']);
                }
            }
        },
        Json::Num(n) => {
            print_u64(*n, out);
        },
        Json::Str(t) => {
            out.push('"');
            esc_push(t, out);
            out.push('"');
            proof {
                assert(out@ =~= old(out)@ + (seq!['"'] + esc(t@) + seq!['"']));
            }
        },
    }
}

/// Appends one indented `"key": value` line to `out`.
pub fn print_item_x(key: &Vec<char>, v: &Json, out: &mut Vec<char>)
    ensures
        final(out)@ == old(out)@ + print_item((key@, v@)),
{
    out.push(' ');
    out.push(' ');
    out.push('"');
    esc_push(key, out);
    out.push('"');
    out.push(':');
    out.push(' ');
    print_val_x(v, out);
    proof {
        assert(out@ =~= old(out)@ + (seq![' ', ' '] + (seq!['"'] + esc(key@) + seq!['"'])
            + seq![':', ' '] + print_val(v@)));
    }
}

pub proof fn lemma_print_items_snoc(es: Seq<(Seq<char>, JsonV)>, e: (Seq<char>, JsonV))
    ensures
        print_items(es.push(e)) == if es.len() == 0 {
            print_item(e)
        } else {
            print_items(es) + seq![',', '\n'] + print_item(e)
        },
    decreases es.len(),
{
    if es.len() == 0 {
        assert(es.push(e)[0] == e);
    } else {
        assert(es.push(e).drop_first() =~= es.drop_first().push(e));
        lemma_print_items_snoc(es.drop_first(), e);
        assert(es.push(e)[0] == es[0]);
        if es.len() == 1 {
            assert(print_items(es.push(e)) == print_item(es[0]) + seq![',', '\n'] + print_item(e));
            assert(print_items(es) == print_item(es[0]));
        } else {
            assert(print_item(es[0]) + seq![',', '\n'] + (print_items(es.drop_first()) + seq![
                ',',
                '\n',
            ] + print_item(e)) =~= (print_item(es[0]) + seq![',', '\n'] + print_items(
                es.drop_first(),
            )) + seq![',', '\n'] + print_item(e));
        }
    }
}

/// Prints a whole object text; mirrors `print_text`.
pub fn print_text_x(es: &Vec<(Vec<char>, Json)>) -> (r: Vec<char>)
    ensures
        r@ == print_text(entries_view(es@)),
{
    proof {
        lemma_entries_view_index(es@);
    }
    let mut out: Vec<char> = Vec::new();
    if es.len() == 0 {
        out.push('{');
        out.push('}');
        proof {
            assert(out@ =~= seq!['{', '}']);
        }
        return out;
    }
    out.push('{');
    out.push('\n');
    let ghost header = out@;
    let mut i: usize = 0;
    while i < es.len()
        invariant
            i <= es@.len(),
            es@.len() > 0,
            header == seq!['{', '\n'],
            out@ == header + print_items(entries_view(es@.subrange(0, i as int))),
        decreases es@.len() - i,
    {
        if i > 0 {
            out.push(',');
            out.push('\n');
        }
        let e = &es[i];
        print_item_x(&e.0, &e.1, &mut out);
        proof {
            let pre = es@.subrange(0, i as int);
            assert(es@.subrange(0, i as int + 1).drop_last() =~= pre);
            assert(entries_view(es@.subrange(0, i as int + 1)) == entries_view(pre).push(
                entry_view(es@[i as int]),
            ));
            lemma_print_items_snoc(entries_view(pre), entry_view(es@[i as int]));
            lemma_entries_view_index(pre);
            assert(out@ =~= header + print_items(entries_view(es@.subrange(0, i as int + 1))));
        }
        i = i + 1;
    }
    out.push('\n');
    out.push('}');
    proof {
        assert(es@.subrange(0, es@.len() as int) =~= es@);
        assert(out@ =~= seq!['{', '\n'] + print_items(entries_view(es@)) + seq!['\n', '}']);
        assert(entries_view(es@).len() == es@.len());
    }
    out
}

// ---------- parsing: spec level ----------

pub open spec fn is_ws(c: char) -> bool {
    c == ' ' || c == '\n' || c == '\t' || c == '\r'
}

pub open spec fn is_digit(c: char) -> bool {
    '0' <= c && c <= '9'
}

pub open spec fn digit_val(c: char) -> int {
    c as u32 - '0' as u32
}

/// First index at or after `i` that holds no whitespace.
pub open spec fn skip_ws(s: Seq<char>, i: int) -> int
    decreases s.len() - i,
{
    if 0 <= i < s.len() && is_ws(s[i]) {
        skip_ws(s, i + 1)
    } else {
        i
    }
}

/// What a backslash escape stands for.
pub open spec fn unesc_char(c: char) -> Option<char> {
    if c == '"' {
        Some('"')
    } else if c == '\\' {
        Some('\\')
    } else if c == 'n' {
        Some('\n')
    } else if c == 'r' {
        Some('\r')
    } else if c == 't' {
        Some('\t')
    } else {
        None
    }
}

/// Scans a quoted string body starting after the opening quote; yields the
/// index after the closing quote and the unescaped contents.
pub open spec fn scan_str(s: Seq<char>, i: int, acc: Seq<char>) -> Option<(int, Seq<char>)>
    decreases s.len() - i,
{
    if i < 0 || i >= s.len() {
        None
    } else if s[i] == '"' {
        Some((i + 1, acc))
    } else if s[i] == '\\' {
        if i + 1 < s.len() {
            match unesc_char(s[i + 1]) {
                Some(u) => scan_str(s, i + 2, acc.push(u)),
                None => None,
            }
        } else {
            None
        }
    } else {
        scan_str(s, i + 1, acc.push(s[i]))
    }
}

/// Scans a run of decimal digits, accumulating their value.
pub open spec fn scan_digits(s: Seq<char>, i: int, acc: int) -> (int, int)
    decreases s.len() - i,
{
    if 0 <= i < s.len() && is_digit(s[i]) {
        scan_digits(s, i + 1, acc * 10 + digit_val(s[i]))
    } else {
        (i, acc)
    }
}

/// Parses one scalar value at `i`; yields the index after it.
pub open spec fn parse_val(s: Seq<char>, i: int) -> Option<(int, JsonV)> {
    if i < 0 || i >= s.len() {
        None
    } else if s[i] == 'n' {
        if i + 4 <= s.len() && s[i + 1] == 'u' && s[i + 2] == 'l' && s[i + 3] == 'l' {
            Some((i + 4, JsonV::Null))
        } else {
            None
        }
    } else if s[i] == 't' {
        if i + 4 <= s.len() && s[i + 1] == 'r' && s[i + 2] == 'u' && s[i + 3] == 'e' {
            Some((i + 4, JsonV::Bool(true)))
        } else {
            None
        }
    } else if s[i] == 'f' {
        if i + 5 <= s.len() && s[i + 1] == 'a' && s[i + 2] == 'l' && s[i + 3] == 's' && s[i + 4]
            == 'e' {
            Some((i + 5, JsonV::Bool(false)))
        } else {
            None
        }
    } else if s[i] == '"' {
        match scan_str(s, i + 1, Seq::empty()) {
            Some((j, t)) => Some((j, JsonV::Str(t))),
            None => None,
        }
    } else if is_digit(s[i]) {
        let (j, n) = scan_digits(s, i, 0);
        if n <= u64::MAX {
            Some((j, JsonV::Num(n as u64)))
        } else {
            None
        }
    } else {
        None
    }
}

pub proof fn lemma_skip_ws_bounds(s: Seq<char>, i: int)
    requires
        0 <= i <= s.len(),
    ensures
        i <= skip_ws(s, i) <= s.len(),
        skip_ws(s, i) < s.len() ==> !is_ws(s[skip_ws(s, i)]),
    decreases s.len() - i,
{
    if i < s.len() && is_ws(s[i]) {
        lemma_skip_ws_bounds(s, i + 1);
    }
}

pub proof fn lemma_scan_str_bounds(s: Seq<char>, i: int, acc: Seq<char>)
    requires
        0 <= i,
    ensures
        match scan_str(s, i, acc) {
            Some((j, _)) => i < j <= s.len(),
            None => true,
        },
    decreases s.len() - i,
{
    if i < s.len() {
        if s[i] == '"' {
        } else if s[i] == '\\' {
            if i + 1 < s.len() {
                match unesc_char(s[i + 1]) {
                    Some(u) => lemma_scan_str_bounds(s, i + 2, acc.push(u)),
                    None => {},
                }
            }
        } else {
            lemma_scan_str_bounds(s, i + 1, acc.push(s[i]));
        }
    }
}

pub proof fn lemma_scan_digits_bounds(s: Seq<char>, i: int, acc: int)
    requires
        0 <= i <= s.len(),
    ensures
        i <= scan_digits(s, i, acc).0 <= s.len(),
        is_digit(s[i]) && i < s.len() ==> scan_digits(s, i, acc).0 > i,
    decreases s.len() - i,
{
    if i < s.len() && is_digit(s[i]) {
        lemma_scan_digits_bounds(s, i + 1, acc * 10 + digit_val(s[i]));
    }
}

pub proof fn lemma_parse_val_bounds(s: Seq<char>, i: int)
    requires
        0 <= i,
    ensures
        match parse_val(s, i) {
            Some((j, _)) => i < j <= s.len(),
            None => true,
        },
{
    if 0 <= i < s.len() {
        if s[i] == '"' {
            lemma_scan_str_bounds(s, i + 1, Seq::empty());
        } else if s[i] == 'n' || s[i] == 't' || s[i] == 'f' {
        } else if is_digit(s[i]) {
            lemma_scan_digits_bounds(s, i, 0);
        }
    }
}

/// Parses the entries of a non-empty object, starting just after `{` or a
/// separating comma; yields the index after the closing `}`.
pub open spec fn parse_entries(s: Seq<char>, i: int, acc: Seq<(Seq<char>, JsonV)>) -> Option<
    (int, Seq<(Seq<char>, JsonV)>),
>
    decreases s.len() - i,
    when 0 <= i
    via parse_entries_decreases
{
    let j = skip_ws(s, i);
    if j >= s.len() || s[j] != '"' {
        None
    } else {
        match scan_str(s, j + 1, Seq::empty()) {
            None => None,
            Some((k, key)) => {
                let m = skip_ws(s, k);
                if m >= s.len() || s[m] != ':' {
                    None
                } else {
                    match parse_val(s, skip_ws(s, m + 1)) {
                        None => None,
                        Some((q, v)) => {
                            let r = skip_ws(s, q);
                            if r >= s.len() {
                                None
                            } else if s[r] == ',' {
                                parse_entries(s, r + 1, acc.push((key, v)))
                            } else if s[r] == '}' {
                                Some((r + 1, acc.push((key, v))))
                            } else {
                                None
                            }
                        },
                    }
                }
            },
        }
    }
}

#[via_fn]
proof fn parse_entries_decreases(s: Seq<char>, i: int, acc: Seq<(Seq<char>, JsonV)>) {
    if 0 <= i <= s.len() {
        lemma_skip_ws_bounds(s, i);
        let j = skip_ws(s, i);
        if j < s.len() && s[j] == '"' {
            lemma_scan_str_bounds(s, j + 1, Seq::empty());
            match scan_str(s, j + 1, Seq::empty()) {
                Some((k, key)) => {
                    lemma_skip_ws_bounds(s, k);
                    let m = skip_ws(s, k);
                    if m < s.len() && s[m] == ':' {
                        lemma_skip_ws_bounds(s, m + 1);
                        let p = skip_ws(s, m + 1);
                        lemma_parse_val_bounds(s, p);
                        match parse_val(s, p) {
                            Some((q, _v)) => {
                                lemma_skip_ws_bounds(s, q);
                            },
                            None => {},
                        }
                    }
                },
                None => {},
            }
        }
    }
}

// ---------- the printed form parses back to itself ----------

pub open spec fn pow10(k: nat) -> int
    decreases k,
{
    if k == 0 {
        1
    } else {
        10 * pow10((k - 1) as nat)
    }
}

/// Value of a digit string, most significant digit first.
pub open spec fn digits_val(d: Seq<char>) -> int
    decreases d.len(),
{
    if d.len() == 0 {
        0
    } else {
        digit_val(d[0]) * pow10((d.len() - 1) as nat) + digits_val(d.drop_first())
    }
}

pub open spec fn all_digits(d: Seq<char>) -> bool {
    forall|i: int| 0 <= i < d.len() ==> is_digit(#[trigger] d[i])
}

proof fn lemma_digits_val_snoc(d: Seq<char>, c: char)
    ensures
        digits_val(d.push(c)) == digits_val(d) * 10 + digit_val(c),
    decreases d.len(),
{
    if d.len() == 0 {
        assert(d.push(c)[0] == c);
        assert(d.push(c).drop_first() =~= Seq::<char>::empty());
        assert(digits_val(Seq::<char>::empty()) == 0);
        assert(digits_val(d) == 0);
        assert(pow10(0) == 1);
        assert(digits_val(d.push(c)) == digit_val(c) * 1 + 0);
    } else {
        assert(d.push(c).drop_first() =~= d.drop_first().push(c));
        lemma_digits_val_snoc(d.drop_first(), c);
        assert(d.push(c)[0] == d[0]);
        let k1 = (d.len() - 1) as nat;
        assert(pow10((d.len() + 1 - 1) as nat) == 10 * pow10(k1));
        assert(digit_val(d[0]) * (10 * pow10(k1)) == (digit_val(d[0]) * pow10(k1)) * 10)
            by (nonlinear_arith);
        assert((digit_val(d[0]) * pow10(k1) + digits_val(d.drop_first())) * 10 == (digit_val(d[0])
            * pow10(k1)) * 10 + digits_val(d.drop_first()) * 10) by (nonlinear_arith);
    }
}

proof fn lemma_dec_rep_digits(n: nat)
    ensures
        dec_rep(n).len() >= 1,
        all_digits(dec_rep(n)),
        digits_val(dec_rep(n)) == n,
    decreases n,
{
    if n < 10 {
        let d = dec_rep(n);
        assert(d == seq![dec_digit(n as int)]);
        assert(is_digit(dec_digit(n as int)));
        assert(d.drop_first() =~= Seq::<char>::empty());
        assert(digits_val(Seq::<char>::empty()) == 0);
        assert(pow10(0) == 1);
        assert(digits_val(d) == digit_val(dec_digit(n as int)) * 1 + 0);
        assert(digit_val(dec_digit(n as int)) == n);
    } else {
        lemma_dec_rep_digits(n / 10);
        lemma_digits_val_snoc(dec_rep(n / 10), dec_digit((n % 10) as int));
        assert(is_digit(dec_digit((n % 10) as int)));
        assert(digit_val(dec_digit((n % 10) as int)) == n % 10);
        assert(forall|i: int|
            0 <= i < dec_rep(n).len() - 1 ==> #[trigger] dec_rep(n)[i] == dec_rep(n / 10)[i]);
        assert(dec_rep(n)[dec_rep(n).len() - 1] == dec_digit((n % 10) as int));
    }
}

proof fn lemma_scan_digits_print(s: Seq<char>, pre: Seq<char>, d: Seq<char>, post: Seq<char>, acc: int)
    requires
        s == pre + d + post,
        all_digits(d),
        post.len() > 0 ==> !is_digit(post[0]),
    ensures
        scan_digits(s, pre.len() as int, acc) == (
            (pre.len() + d.len()) as int,
            acc * pow10(d.len()) + digits_val(d),
        ),
    decreases d.len(),
{
    if d.len() == 0 {
        assert(pow10(0) == 1);
        if (pre.len() as int) < s.len() {
            assert(s[pre.len() as int] == post[0]);
        }
        assert(scan_digits(s, pre.len() as int, acc) == (pre.len() as int, acc));
        assert(acc * 1 == acc) by (nonlinear_arith);
    } else {
        let c = d[0];
        assert(s[pre.len() as int] == c);
        assert(is_digit(c));
        let pre2 = pre + seq![c];
        assert(s =~= pre2 + d.drop_first() + post);
        lemma_scan_digits_print(s, pre2, d.drop_first(), post, acc * 10 + digit_val(c));
        assert(scan_digits(s, pre.len() as int, acc) == scan_digits(
            s,
            pre.len() as int + 1,
            acc * 10 + digit_val(c),
        ));
        let k1 = (d.len() - 1) as nat;
        assert(pow10(d.len()) == 10 * pow10(k1));
        assert((acc * 10 + digit_val(c)) * pow10(k1) == acc * (10 * pow10(k1)) + digit_val(c)
            * pow10(k1)) by (nonlinear_arith);
    }
}

proof fn lemma_scan_str_print(s: Seq<char>, pre: Seq<char>, t: Seq<char>, post: Seq<char>, acc: Seq<char>)
    requires
        s == pre + esc(t) + seq!['"'] + post,
    ensures
        scan_str(s, pre.len() as int, acc) == Some(
            ((pre.len() + esc(t).len() + 1) as int, acc + t),
        ),
    decreases t.len(),
{
    if t.len() == 0 {
        assert(esc(t) == Seq::<char>::empty());
        assert(s[pre.len() as int] == '"');
        assert(acc + t =~= acc);
    } else {
        let c = t[0];
        let t1 = t.drop_first();
        assert(esc(t) == esc_char(c) + esc(t1));
        assert(acc.push(c) + t1 =~= acc + t);
        if c == '"' || c == '\\' || c == '\n' || c == '\r' || c == '\t' {
            let e: char = if c == '"' {
                '"'
            } else if c == '\\' {
                '\\'
            } else if c == '\n' {
                'n'
            } else if c == '\r' {
                'r'
            } else {
                't'
            };
            assert(esc_char(c) =~= seq!['\\', e]);
            assert(s[pre.len() as int] == '\\');
            assert(s[pre.len() as int + 1] == e);
            assert(unesc_char(e) == Some(c));
            let pre2 = pre + seq!['\\', e];
            assert(s =~= pre2 + esc(t1) + seq!['"'] + post);
            lemma_scan_str_print(s, pre2, t1, post, acc.push(c));
            assert(scan_str(s, pre.len() as int, acc) == scan_str(
                s,
                pre.len() as int + 2,
                acc.push(c),
            ));
        } else {
            assert(esc_char(c) =~= seq![c]);
            assert(s[pre.len() as int] == c);
            let pre2 = pre + seq![c];
            assert(s =~= pre2 + esc(t1) + seq!['"'] + post);
            lemma_scan_str_print(s, pre2, t1, post, acc.push(c));
            assert(scan_str(s, pre.len() as int, acc) == scan_str(
                s,
                pre.len() as int + 1,
                acc.push(c),
            ));
        }
    }
}

proof fn lemma_parse_val_print(s: Seq<char>, pre: Seq<char>, v: JsonV, post: Seq<char>)
    requires
        s == pre + print_val(v) + post,
        post.len() > 0,
        !is_digit(post[0]),
    ensures
        parse_val(s, pre.len() as int) == Some(((pre.len() + print_val(v).len()) as int, v)),
{
    let i = pre.len() as int;
    match v {
        JsonV::Null => {
            assert(s[i] == 'n' && s[i + 1] == 'u' && s[i + 2] == 'l' && s[i + 3] == 'l');
        },
        JsonV::Bool(b) => {
            if b {
                assert(s[i] == 't' && s[i + 1] == 'r' && s[i + 2] == 'u' && s[i + 3] == 'e');
            } else {
                assert(s[i] == 'f' && s[i + 1] == 'a' && s[i + 2] == 'l' && s[i + 3] == 's' && s[i
                    + 4] == 'e');
            }
        },
        JsonV::Num(n) => {
            lemma_dec_rep_digits(n as nat);
            assert(s[i] == dec_rep(n as nat)[0]);
            assert(is_digit(s[i]));
            lemma_scan_digits_print(s, pre, dec_rep(n as nat), post, 0);
            assert(0 * pow10(dec_rep(n as nat).len()) == 0) by (nonlinear_arith);
            assert(scan_digits(s, i, 0).1 == n);
        },
        JsonV::Str(t) => {
            assert(s[i] == '"');
            let pre2 = pre + seq!['"'];
            let post2 = seq![':', ' '];
            assert(s =~= pre2 + esc(t) + seq!['"'] + post);
            lemma_scan_str_print(s, pre2, t, post, Seq::empty());
            assert(Seq::<char>::empty() + t =~= t);
        },
    }
}

/// Parsing one printed item: positions of the key, colon, and value.
#[verifier::rlimit(100)]
proof fn lemma_parse_item_print(s: Seq<char>, pre: Seq<char>, e: (Seq<char>, JsonV), tail: Seq<char>)
    requires
        s == pre + seq!['\n'] + print_item(e) + tail,
        tail.len() > 0,
        !is_digit(tail[0]),
    ensures
        ({
            let i = pre.len() as int;
            let k = i + 5 + esc(e.0).len();
            let q = k + 2 + print_val(e.1).len();
            &&& skip_ws(s, i) == i + 3
            &&& i + 3 < s.len() && s[i + 3] == '"'
            &&& scan_str(s, i + 4, Seq::empty()) == Some((k, e.0))
            &&& k < s.len() && s[k] == ':'
            &&& skip_ws(s, k) == k
            &&& skip_ws(s, k + 1) == k + 2
            &&& parse_val(s, k + 2) == Some((q, e.1))
            &&& q < s.len() && s[q] == tail[0]
            &&& q + tail.len() == s.len()
        }),
{
    let i = pre.len() as int;
    assert(s =~= pre + seq!['\n', ' ', ' ', '"'] + esc(e.0) + seq!['"', ':', ' '] + print_val(e.1)
        + tail);
    // the three whitespace characters before the key
    assert(s[i] == '\n' && s[i + 1] == ' ' && s[i + 2] == ' ' && s[i + 3] == '"');
    assert(skip_ws(s, i) == skip_ws(s, i + 1));
    assert(skip_ws(s, i + 1) == skip_ws(s, i + 2));
    assert(skip_ws(s, i + 2) == skip_ws(s, i + 3));
    assert(skip_ws(s, i + 3) == i + 3);
    // the quoted key
    let pre2 = pre + seq!['\n', ' ', ' ', '"'];
    let post2 = seq![':', ' '] + print_val(e.1) + tail;
    assert(s =~= pre2 + esc(e.0) + seq!['"'] + post2);
    lemma_scan_str_print(s, pre2, e.0, post2, Seq::empty());
    assert(Seq::<char>::empty() + e.0 =~= e.0);
    let k = pre2.len() as int + esc(e.0).len() + 1;
    assert(scan_str(s, i + 4, Seq::empty()) == Some((k, e.0)));
    // the colon and one blank
    assert(s[k] == ':');
    assert(skip_ws(s, k) == k);
    assert(s[k + 1] == ' ');
    assert(skip_ws(s, k + 1) == skip_ws(s, k + 2));
    // the value starts with no whitespace
    let pre3 = pre2 + esc(e.0) + seq!['"', ':', ' '];
    assert(s =~= pre3 + print_val(e.1) + tail);
    assert(pre3.len() == k + 2);
    lemma_parse_val_print(s, pre3, e.1, tail);
    assert(s[k + 2] == print_val(e.1)[0]);
    assert(match e.1 {
        JsonV::Null => print_val(e.1)[0] == 'n',
        JsonV::Bool(b) => print_val(e.1)[0] == (if b {
            't'
        } else {
            'f'
        }),
        JsonV::Num(n) => is_digit(print_val(e.1)[0]),
        JsonV::Str(_) => print_val(e.1)[0] == '"',
    }) by {
        if e.1 is Num {
            lemma_dec_rep_digits(e.1->Num_0 as nat);
        }
    }
    assert(!is_ws(s[k + 2]));
    assert(skip_ws(s, k + 2) == k + 2);
    let q = k + 2 + print_val(e.1).len();
    assert(parse_val(s, k + 2) == Some((q, e.1)));
    assert(s[q] == tail[0]);
}

#[verifier::rlimit(100)]
proof fn lemma_parse_entries_print(
    s: Seq<char>,
    pre: Seq<char>,
    es: Seq<(Seq<char>, JsonV)>,
    acc: Seq<(Seq<char>, JsonV)>,
)
    requires
        es.len() >= 1,
        s == pre + seq!['\n'] + print_items(es) + seq!['\n', '}'],
    ensures
        parse_entries(s, pre.len() as int, acc) == Some((s.len() as int, acc + es)),
    decreases es.len(),
{
    let i = pre.len() as int;
    let e = es[0];
    let tail: Seq<char> = if es.len() == 1 {
        seq!['\n', '}']
    } else {
        seq![',', '\n'] + print_items(es.drop_first()) + seq!['\n', '}']
    };
    if es.len() == 1 {
        assert(print_items(es) == print_item(es[0]));
        assert(tail[0] == '\n');
    } else {
        assert(print_items(es) == print_item(es[0]) + seq![',', '\n'] + print_items(
            es.drop_first(),
        ));
        assert(tail[0] == ',');
    }
    assert(s =~= pre + seq!['\n'] + print_item(e) + tail);
    lemma_parse_item_print(s, pre, e, tail);
    let k = i + 5 + esc(e.0).len();
    let q = k + 2 + print_val(e.1).len();
    assert((e.0, e.1) == e);
    if es.len() == 1 {
        // "\n}" closes the object
        assert(s[q] == '\n');
        assert(skip_ws(s, q) == skip_ws(s, q + 1));
        assert(s[q + 1] == tail[1]);
        assert(s[q + 1] == '}');
        assert(skip_ws(s, q + 1) == q + 1);
        assert(q + 2 == s.len());
        assert(acc.push(e) =~= acc + es);
        assert(parse_entries(s, i, acc) == Some((s.len() as int, acc + es)));
    } else {
        // a comma, then the remaining entries
        assert(s[q] == ',');
        assert(skip_ws(s, q) == q);
        let pre4 = s.subrange(0, q + 1);
        assert(s =~= pre4 + seq!['\n'] + print_items(es.drop_first()) + seq!['\n', '}']);
        assert(pre4.len() == q + 1);
        lemma_parse_entries_print(s, pre4, es.drop_first(), acc.push(e));
        assert(acc.push(e) + es.drop_first() =~= acc + es);
        assert(parse_entries(s, i, acc) == parse_entries(s, q + 1, acc.push(e)));
    }
}

/// What `print_text` writes parses back to exactly the same entries.
#[verifier::rlimit(100)]
pub proof fn lemma_parse_print_text(es: Seq<(Seq<char>, JsonV)>)
    requires
        es.len() >= 1,
    ensures
        parse_text(print_text(es)) == Some(es),
{
    let s = print_text(es);
    assert(s == seq!['{', '\n'] + print_items(es) + seq!['\n', '}']);
    let pre = seq!['{'];
    assert(s =~= pre + seq!['\n'] + print_items(es) + seq!['\n', '}']);
    lemma_parse_entries_print(s, pre, es, Seq::empty());
    assert(Seq::<(Seq<char>, JsonV)>::empty() + es =~= es);
    assert(s[0] == '{');
    assert(skip_ws(s, 0) == 0);
    // the first character after the opening brace's whitespace is the key's quote
    let e = es[0];
    if es.len() == 1 {
        assert(print_items(es) == print_item(es[0]));
    } else {
        assert(print_items(es) == print_item(es[0]) + seq![',', '\n'] + print_items(
            es.drop_first(),
        ));
    }
    assert(s =~= pre + seq!['\n', ' ', ' ', '"'] + (esc(e.0) + seq!['"', ':', ' '] + print_val(e.1)
        + s.subrange(pre.len() as int + 4 + esc(e.0).len() + 3 + print_val(e.1).len(), s.len() as int)));
    assert(s[1] == '\n' && s[2] == ' ' && s[3] == ' ' && s[4] == '"');
    assert(skip_ws(s, 1) == skip_ws(s, 2));
    assert(skip_ws(s, 2) == skip_ws(s, 3));
    assert(skip_ws(s, 3) == skip_ws(s, 4));
    assert(skip_ws(s, 4) == 4);
    assert(s[4] != '}');
    assert(skip_ws(s, s.len() as int) == s.len());
}

// ---------- parsing: executable level ----------

pub fn is_ws_x(c: char) -> (r: bool)
    ensures
        r == is_ws(c),
{
    c == ' ' || c == '\n' || c == '\t' || c == '\r'
}

pub fn is_digit_x(c: char) -> (r: bool)
    ensures
        r == is_digit(c),
{
    '0' <= c && c <= '9'
}

pub fn skip_ws_x(s: &Vec<char>, i: usize) -> (r: usize)
    requires
        i <= s@.len(),
    ensures
        r == skip_ws(s@, i as int),
        i <= r <= s@.len(),
{
    let mut j = i;
    while j < s.len() && is_ws_x(s[j])
        invariant
            i <= j <= s@.len(),
            skip_ws(s@, i as int) == skip_ws(s@, j as int),
        decreases s@.len() - j,
    {
        j = j + 1;
    }
    proof {
        lemma_skip_ws_bounds(s@, i as int);
    }
    j
}

pub fn scan_str_x(s: &Vec<char>, i: usize) -> (r: Option<(usize, Vec<char>)>)
    requires
        i <= s@.len(),
    ensures
        match r {
            Some((j, t)) => scan_str(s@, i as int, Seq::empty()) == Some((j as int, t@)) && i < j
                <= s@.len(),
            None => scan_str(s@, i as int, Seq::empty()) is None,
        },
{
    let mut j = i;
    let mut acc: Vec<char> = Vec::new();
    loop
        invariant
            i <= j <= s@.len(),
            scan_str(s@, i as int, Seq::empty()) == scan_str(s@, j as int, acc@),
        decreases s@.len() - j,
    {
        if j >= s.len() {
            return None;
        }
        let c = s[j];
        if c == '"' {
            return Some((j + 1, acc));
        } else if c == '\\' {
            if j + 1 >= s.len() {
                return None;
            }
            let e = s[j + 1];
            let u: char;
            if e == '"' {
                u = '"';
            } else if e == '\\' {
                u = '\\';
            } else if e == 'n' {
                u = '\n';
            } else if e == 'r' {
                u = '\r';
            } else if e == 't' {
                u = '\t';
            } else {
                return None;
            }
            assert(unesc_char(e) == Some(u));
            acc.push(u);
            j = j + 2;
        } else {
            acc.push(c);
            j = j + 1;
        }
    }
}

pub fn scan_digits_x(s: &Vec<char>, i: usize) -> (r: (usize, Option<u64>))
    requires
        i <= s@.len(),
    ensures
        r.0 == scan_digits(s@, i as int, 0).0,
        i <= r.0 <= s@.len(),
        match r.1 {
            Some(n) => scan_digits(s@, i as int, 0).1 == n,
            None => scan_digits(s@, i as int, 0).1 > u64::MAX,
        },
{
    let mut j = i;
    let mut acc: u64 = 0;
    let mut ovf = false;
    let ghost mut spec_acc: int = 0;
    loop
        invariant
            i <= j <= s@.len(),
            scan_digits(s@, i as int, 0) == scan_digits(s@, j as int, spec_acc),
            !ovf ==> spec_acc == acc,
            ovf ==> spec_acc > u64::MAX,
            spec_acc >= 0,
        decreases s@.len() - j,
    {
        if j >= s.len() || !is_digit_x(s[j]) {
            proof {
                lemma_scan_digits_bounds(s@, i as int, 0);
            }
            if ovf {
                return (j, None);
            } else {
                return (j, Some(acc));
            }
        }
        let c = s[j];
        let d: u64 = (c as u32 - '0' as u32) as u64;
        assert(d == digit_val(c) && d <= 9);
        if !ovf {
            if acc <= (u64::MAX - d) / 10 {
                assert(acc * 10 + d <= u64::MAX) by (nonlinear_arith)
                    requires
                        acc <= (u64::MAX - d) / 10,
                        d <= 9,
                {}
                acc = acc * 10 + d;
            } else {
                assert(acc * 10 + d > u64::MAX) by (nonlinear_arith)
                    requires
                        acc > (u64::MAX - d) / 10,
                        d <= 9,
                {}
                ovf = true;
            }
        } else {
            assert(spec_acc * 10 + d > u64::MAX) by (nonlinear_arith)
                requires
                    spec_acc > u64::MAX,
                    d >= 0,
                {}
        }
        proof {
            spec_acc = spec_acc * 10 + digit_val(c);
        }
        j = j + 1;
    }
}

/// Parses one scalar value; mirrors `parse_val`.
pub fn parse_val_x(s: &Vec<char>, i: usize) -> (r: Option<(usize, Json)>)
    requires
        i <= s@.len(),
    ensures
        match r {
            Some((j, v)) => parse_val(s@, i as int) == Some((j as int, v@)) && i < j <= s@.len(),
            None => parse_val(s@, i as int) is None,
        },
{
    proof {
        lemma_parse_val_bounds(s@, i as int);
    }
    if i >= s.len() {
        return None;
    }
    let c = s[i];
    if c == 'n' {
        if s.len() - i >= 4 && s[i + 1] == 'u' && s[i + 2] == 'l' && s[i + 3] == 'l' {
            Some((i + 4, Json::Null))
        } else {
            None
        }
    } else if c == 't' {
        if s.len() - i >= 4 && s[i + 1] == 'r' && s[i + 2] == 'u' && s[i + 3] == 'e' {
            Some((i + 4, Json::Bool(true)))
        } else {
            None
        }
    } else if c == 'f' {
        if s.len() - i >= 5 && s[i + 1] == 'a' && s[i + 2] == 'l' && s[i + 3] == 's' && s[i + 4]
            == 'e' {
            Some((i + 5, Json::Bool(false)))
        } else {
            None
        }
    } else if c == '"' {
        match scan_str_x(s, i + 1) {
            Some((j, t)) => Some((j, Json::Str(t))),
            None => None,
        }
    } else if is_digit_x(c) {
        let (j, n) = scan_digits_x(s, i);
        match n {
            Some(n) => Some((j, Json::Num(n))),
            None => None,
        }
    } else {
        None
    }
}

/// Parses a complete object text; mirrors `parse_text`.
pub open spec fn parse_text(s: Seq<char>) -> Option<Seq<(Seq<char>, JsonV)>> {
    let i = skip_ws(s, 0);
    if i >= s.len() || s[i] != '{' {
        None
    } else {
        let j = skip_ws(s, i + 1);
        if j < s.len() && s[j] == '}' {
            if skip_ws(s, j + 1) == s.len() {
                Some(Seq::empty())
            } else {
                None
            }
        } else {
            match parse_entries(s, i + 1, Seq::empty()) {
                Some((k, es)) => if skip_ws(s, k) == s.len() {
                    Some(es)
                } else {
                    None
                },
                None => None,
            }
        }
    }
}

pub fn parse_text_x(s: &Vec<char>) -> (r: Option<Vec<(Vec<char>, Json)>>)
    ensures
        match r {
            Some(es) => parse_text(s@) == Some(entries_view(es@)),
            None => parse_text(s@) is None,
        },
{
    let i = skip_ws_x(s, 0);
    if i >= s.len() || s[i] != '{' {
        return None;
    }
    let j = skip_ws_x(s, i + 1);
    if j < s.len() && s[j] == '}' {
        if skip_ws_x(s, j + 1) == s.len() {
            assert(entries_view(Seq::<(Vec<char>, Json)>::empty()) == Seq::<(Seq<char>,
                JsonV)>::empty());
            return Some(Vec::new());
        } else {
            return None;
        }
    }
    match parse_entries_x(s, i + 1) {
        Some((k, es)) => {
            if skip_ws_x(s, k) == s.len() {
                Some(es)
            } else {
                None
            }
        },
        None => None,
    }
}

/// Parses the entries of a non-empty object; mirrors `parse_entries`.
fn parse_entries_x(s: &Vec<char>, i: usize) -> (r: Option<(usize, Vec<(Vec<char>, Json)>)>)
    requires
        i <= s@.len(),
    ensures
        match r {
            Some((k, es)) => parse_entries(s@, i as int, Seq::empty()) == Some(
                (k as int, entries_view(es@)),
            ) && k <= s@.len(),
            None => parse_entries(s@, i as int, Seq::empty()) is None,
        },
{
    let mut cur = i;
    let mut acc: Vec<(Vec<char>, Json)> = Vec::new();
    loop
        invariant
            i <= cur <= s@.len(),
            parse_entries(s@, i as int, Seq::empty()) == parse_entries(
                s@,
                cur as int,
                entries_view(acc@),
            ),
        decreases s@.len() - cur,
    {
        let j = skip_ws_x(s, cur);
        if j >= s.len() || s[j] != '"' {
            return None;
        }
        let (k, key) = match scan_str_x(s, j + 1) {
            Some(p) => p,
            None => {
                return None;
            },
        };
        let m = skip_ws_x(s, k);
        if m >= s.len() || s[m] != ':' {
            return None;
        }
        let p = skip_ws_x(s, m + 1);
        let (q, v) = match parse_val_x(s, p) {
            Some(p2) => p2,
            None => {
                return None;
            },
        };
        let r = skip_ws_x(s, q);
        if r >= s.len() {
            return None;
        }
        let ghost old_acc = acc@;
        let ghost kvv = (key@, v@);
        if s[r] == ',' {
            acc.push((key, v));
            proof {
                assert(acc@.drop_last() =~= old_acc);
                assert(entry_view(acc@.last()) == kvv);
                assert(entries_view(acc@) == entries_view(old_acc).push(kvv));
            }
            cur = r + 1;
        } else if s[r] == '}' {
            acc.push((key, v));
            proof {
                assert(acc@.drop_last() =~= old_acc);
                assert(entry_view(acc@.last()) == kvv);
                assert(entries_view(acc@) == entries_view(old_acc).push(kvv));
            }
            return Some((r + 1, acc));
        } else {
            return None;
        }
    }
}

} // verus!
