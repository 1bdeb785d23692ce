//! Values a configuration line can carry: quoted strings, numeric tokens,
//! booleans, and lists of quoted strings; how each is rendered, and how each
//! is scanned back out of a line of text.
use vstd::prelude::*;

use crate::num::is_dec_digit;
use crate::schema::{is_num_token, wf_str};

verus! {

/// Spec-level image of a value.
pub ghost enum ValueV {
    Str(Seq<char>),
    Num(Seq<char>),
    Bool(bool),
    List(Seq<Seq<char>>),
}

/// A value read from or written to one configuration line.
#[derive(Debug, Clone)]
pub enum Value {
    VStr(String),
    VNum(String),
    VBool(bool),
    VList(Vec<String>),
}

impl View for Value {
    type V = ValueV;

    open spec fn view(&self) -> ValueV {
        match self {
            Value::VStr(s) => ValueV::Str(s@),
            Value::VNum(t) => ValueV::Num(t@),
            Value::VBool(b) => ValueV::Bool(*b),
            Value::VList(l) => ValueV::List(l.deep_view()),
        }
    }
}

/// A value the file format can carry and read back unchanged.
pub open spec fn wf_value(v: ValueV) -> bool {
    match v {
        ValueV::Str(s) => wf_str(s),
        ValueV::Num(t) => is_num_token(t),
        ValueV::Bool(_) => true,
        ValueV::List(l) => forall|i: int| 0 <= i < l.len() ==> wf_str(#[trigger] l[i]),
    }
}

pub open spec fn quote_str(s: Seq<char>) -> Seq<char> {
    seq!['"'] + s + seq!['"']
}

/// List items, quoted, separated by a comma and a space.
pub open spec fn render_items(l: Seq<Seq<char>>) -> Seq<char>
    decreases l.len(),
{
    if l.len() == 0 {
        Seq::empty()
    } else if l.len() == 1 {
        quote_str(l[0])
    } else {
        quote_str(l[0]) + seq![',', ' '] + render_items(l.drop_first())
    }
}

pub open spec fn render_value(v: ValueV) -> Seq<char> {
    match v {
        ValueV::Str(s) => quote_str(s),
        ValueV::Num(t) => t,
        ValueV::Bool(b) => if b {
            seq!['t', 'r', 'u', 'e']
        } else {
            seq!['f', 'a', 'l', 's', 'e']
        },
        ValueV::List(l) => seq!['['] + render_items(l) + seq![']'],
    }
}

pub open spec fn is_key_char(c: char) -> bool {
    ('a' as u32 <= c as u32 && c as u32 <= 'z' as u32) || is_dec_digit(c) || c == '_'
}

pub open spec fn is_num_char(c: char) -> bool {
    is_dec_digit(c) || c == '.'
}

/// First position at or after `i` holding a double quote, or the end.
pub open spec fn scan_quote(l: Seq<char>, i: int) -> int
    decreases l.len() - i,
    when 0 <= i <= l.len()
{
    if i < l.len() && l[i] != '"' {
        scan_quote(l, i + 1)
    } else {
        i
    }
}

/// First position at or after `i` past the run of key characters.
pub open spec fn scan_key(l: Seq<char>, i: int) -> int
    decreases l.len() - i,
    when 0 <= i <= l.len()
{
    if i < l.len() && is_key_char(l[i]) {
        scan_key(l, i + 1)
    } else {
        i
    }
}

/// First position at or after `i` past the run of numeric characters.
pub open spec fn scan_num(l: Seq<char>, i: int) -> int
    decreases l.len() - i,
    when 0 <= i <= l.len()
{
    if i < l.len() && is_num_char(l[i]) {
        scan_num(l, i + 1)
    } else {
        i
    }
}

/// First position at or after `i` past the run of spaces.
pub open spec fn skip_sp(l: Seq<char>, i: int) -> int
    decreases l.len() - i,
    when 0 <= i <= l.len()
{
    if i < l.len() && l[i] == ' ' {
        skip_sp(l, i + 1)
    } else {
        i
    }
}

pub proof fn lemma_scan_quote_bounds(l: Seq<char>, i: int)
    requires
        0 <= i <= l.len(),
    ensures
        i <= scan_quote(l, i) <= l.len(),
        scan_quote(l, i) < l.len() ==> l[scan_quote(l, i)] == '"',
        forall|j: int| i <= j < scan_quote(l, i) ==> l[j] != '"',
    decreases l.len() - i,
{
    if i < l.len() && l[i] != '"' {
        lemma_scan_quote_bounds(l, i + 1);
    }
}

pub proof fn lemma_scan_key_bounds(l: Seq<char>, i: int)
    requires
        0 <= i <= l.len(),
    ensures
        i <= scan_key(l, i) <= l.len(),
        scan_key(l, i) < l.len() ==> !is_key_char(l[scan_key(l, i)]),
        forall|j: int| i <= j < scan_key(l, i) ==> is_key_char(l[j]),
    decreases l.len() - i,
{
    if i < l.len() && is_key_char(l[i]) {
        lemma_scan_key_bounds(l, i + 1);
    }
}

pub proof fn lemma_scan_num_bounds(l: Seq<char>, i: int)
    requires
        0 <= i <= l.len(),
    ensures
        i <= scan_num(l, i) <= l.len(),
        scan_num(l, i) < l.len() ==> !is_num_char(l[scan_num(l, i)]),
        forall|j: int| i <= j < scan_num(l, i) ==> is_num_char(l[j]),
    decreases l.len() - i,
{
    if i < l.len() && is_num_char(l[i]) {
        lemma_scan_num_bounds(l, i + 1);
    }
}

pub proof fn lemma_skip_sp_bounds(l: Seq<char>, i: int)
    requires
        0 <= i <= l.len(),
    ensures
        i <= skip_sp(l, i) <= l.len(),
        skip_sp(l, i) < l.len() ==> l[skip_sp(l, i)] != ' ',
        forall|j: int| i <= j < skip_sp(l, i) ==> l[j] == ' ',
    decreases l.len() - i,
{
    if i < l.len() && l[i] == ' ' {
        lemma_skip_sp_bounds(l, i + 1);
    }
}

/// What reading a value at position `i` of a line yields: the value and the
/// position just past it, or nothing when no value form starts there.
pub open spec fn spec_parse_value(l: Seq<char>, i: int) -> Option<(ValueV, int)> {
    if i < 0 || i >= l.len() {
        None
    } else if l[i] == '"' {
        let j = scan_quote(l, i + 1);
        if j < l.len() {
            Some((ValueV::Str(l.subrange(i + 1, j)), j + 1))
        } else {
            None
        }
    } else if l[i] == '[' {
        let k = skip_sp(l, i + 1);
        if k < l.len() && l[k] == ']' {
            Some((ValueV::List(Seq::empty()), k + 1))
        } else {
            match spec_parse_items(l, k) {
                Some((items, p)) => Some((ValueV::List(items), p)),
                None => None,
            }
        }
    } else if i + 4 <= l.len() && l.subrange(i, i + 4) =~= seq!['t', 'r', 'u', 'e'] {
        Some((ValueV::Bool(true), i + 4))
    } else if i + 5 <= l.len() && l.subrange(i, i + 5) =~= seq!['f', 'a', 'l', 's', 'e'] {
        Some((ValueV::Bool(false), i + 5))
    } else if is_dec_digit(l[i]) {
        let j = scan_num(l, i);
        if is_num_token(l.subrange(i, j)) {
            Some((ValueV::Num(l.subrange(i, j)), j))
        } else {
            None
        }
    } else {
        None
    }
}

/// Items of a non-empty list, starting at the opening quote of an item.
pub open spec fn spec_parse_items(l: Seq<char>, i: int) -> Option<(Seq<Seq<char>>, int)>
    decreases l.len() - i,
    when 0 <= i <= l.len()
{
    if i < l.len() && l[i] == '"' {
        let j = scan_quote(l, i + 1);
        if j >= l.len() {
            None
        } else {
            let item = l.subrange(i + 1, j);
            let k = skip_sp(l, j + 1);
            if k < l.len() && l[k] == ',' {
                let k2 = skip_sp(l, k + 1);
                proof {
                    lemma_scan_quote_bounds(l, i + 1);
                    lemma_skip_sp_bounds(l, j + 1);
                    lemma_skip_sp_bounds(l, k + 1);
                }
                match spec_parse_items(l, k2) {
                    Some((rest, p)) => Some((seq![item] + rest, p)),
                    None => None,
                }
            } else if k < l.len() && l[k] == ']' {
                Some((seq![item], k + 1))
            } else {
                None
            }
        }
    } else {
        None
    }
}

pub proof fn lemma_parse_items_bounds(l: Seq<char>, i: int)
    requires
        0 <= i <= l.len(),
    ensures
        spec_parse_items(l, i) matches Some((items, p)) ==> i < p <= l.len(),
    decreases l.len() - i,
{
    if i < l.len() && l[i] == '"' {
        let j = scan_quote(l, i + 1);
        lemma_scan_quote_bounds(l, i + 1);
        if j < l.len() {
            let k = skip_sp(l, j + 1);
            lemma_skip_sp_bounds(l, j + 1);
            if k < l.len() && l[k] == ',' {
                let k2 = skip_sp(l, k + 1);
                lemma_skip_sp_bounds(l, k + 1);
                lemma_parse_items_bounds(l, k2);
            }
        }
    }
}

pub proof fn lemma_parse_value_bounds(l: Seq<char>, i: int)
    requires
        0 <= i <= l.len(),
    ensures
        spec_parse_value(l, i) matches Some((v, p)) ==> i < p <= l.len(),
{
    if i < l.len() {
        if l[i] == '"' {
            lemma_scan_quote_bounds(l, i + 1);
        } else if l[i] == '[' {
            lemma_skip_sp_bounds(l, i + 1);
            let k = skip_sp(l, i + 1);
            lemma_parse_items_bounds(l, k);
        } else {
            lemma_scan_num_bounds(l, i);
        }
    }
}

pub(crate) fn scan_quote_x(s: &str, i: usize) -> (r: usize)
    requires
        i <= s@.len(),
    ensures
        r == scan_quote(s@, i as int),
        i <= r <= s@.len(),
{
    let n = s.unicode_len();
    let mut j = i;
    while j < n
        invariant
            i <= j <= n,
            n == s@.len(),
            scan_quote(s@, i as int) == scan_quote(s@, j as int),
        decreases n - j,
    {
        let c = s.get_char(j);
        if c == '"' {
            return j;
        }
        j = j + 1;
    }
    j
}

fn is_key_char_x(c: char) -> (r: bool)
    ensures
        r == is_key_char(c),
{
    let u = c as u32;
    (97 <= u && u <= 122) || (48 <= u && u <= 57) || c == '_'
}

fn is_num_char_x(c: char) -> (r: bool)
    ensures
        r == is_num_char(c),
{
    let u = c as u32;
    (48 <= u && u <= 57) || c == '.'
}

pub(crate) fn scan_key_x(s: &str, i: usize) -> (r: usize)
    requires
        i <= s@.len(),
    ensures
        r == scan_key(s@, i as int),
        i <= r <= s@.len(),
{
    let n = s.unicode_len();
    let mut j = i;
    while j < n
        invariant
            i <= j <= n,
            n == s@.len(),
            scan_key(s@, i as int) == scan_key(s@, j as int),
        decreases n - j,
    {
        let c = s.get_char(j);
        if !is_key_char_x(c) {
            return j;
        }
        j = j + 1;
    }
    j
}

pub(crate) fn scan_num_x(s: &str, i: usize) -> (r: usize)
    requires
        i <= s@.len(),
    ensures
        r == scan_num(s@, i as int),
        i <= r <= s@.len(),
{
    let n = s.unicode_len();
    let mut j = i;
    while j < n
        invariant
            i <= j <= n,
            n == s@.len(),
            scan_num(s@, i as int) == scan_num(s@, j as int),
        decreases n - j,
    {
        let c = s.get_char(j);
        if !is_num_char_x(c) {
            return j;
        }
        j = j + 1;
    }
    j
}

pub(crate) fn skip_sp_x(s: &str, i: usize) -> (r: usize)
    requires
        i <= s@.len(),
    ensures
        r == skip_sp(s@, i as int),
        i <= r <= s@.len(),
{
    let n = s.unicode_len();
    let mut j = i;
    while j < n
        invariant
            i <= j <= n,
            n == s@.len(),
            skip_sp(s@, i as int) == skip_sp(s@, j as int),
        decreases n - j,
    {
        let c = s.get_char(j);
        if c != ' ' {
            return j;
        }
        j = j + 1;
    }
    j
}

/// Check that a run of numeric characters is a proper numeric token:
/// digits at both ends and at most one dot.
pub(crate) fn check_num_token(s: &str, i: usize, j: usize) -> (r: bool)
    requires
        i <= j <= s@.len(),
        forall|k: int| i <= k < j ==> is_num_char(s@[k]),
    ensures
        r == is_num_token(s@.subrange(i as int, j as int)),
{
    let ghost t = s@.subrange(i as int, j as int);
    if i == j {
        return false;
    }
    if !is_dec_digit_x(s.get_char(i)) {
        proof {
            assert(t[0] == s@[i as int]);
        }
        return false;
    }
    if !is_dec_digit_x(s.get_char(j - 1)) {
        proof {
            assert(t[t.len() - 1] == s@[j as int - 1]);
        }
        return false;
    }
    let mut k = i;
    let mut seen_dot = false;
    let ghost mut dot: int = 0;
    while k < j
        invariant
            i <= k <= j <= s@.len(),
            forall|m: int| i <= m < j ==> is_num_char(s@[m]),
            seen_dot ==> i <= dot < k && s@[dot] == '.' && forall|m: int|
                i <= m < k && m != dot ==> s@[m] != '.',
            !seen_dot ==> forall|m: int| i <= m < k ==> s@[m] != '.',
        decreases j - k,
    {
        let c = s.get_char(k);
        if c == '.' {
            if seen_dot {
                proof {
                    let tt = s@.subrange(i as int, j as int);
                    assert(tt[dot - i] == '.');
                    assert(tt[k - i] == '.');
                }
                return false;
            }
            seen_dot = true;
            proof {
                dot = k as int;
            }
        }
        k = k + 1;
    }
    proof {
        let tt = s@.subrange(i as int, j as int);
        assert(tt.len() == j - i);
        assert(forall|m: int| 0 <= m < tt.len() ==> tt[m] == s@[i + m]);
        assert(is_dec_digit(tt[0]));
        assert(is_dec_digit(tt[tt.len() - 1]));
        assert(forall|m: int| 0 <= m < tt.len() ==> is_num_char(tt[m]));
        assert(forall|m: int, o: int|
            0 <= m < tt.len() && 0 <= o < tt.len() && tt[m] == '.' && tt[o] == '.' ==> m == o);
    }
    true
}

fn is_dec_digit_x(c: char) -> (r: bool)
    ensures
        r == is_dec_digit(c),
{
    let u = c as u32;
    48 <= u && u <= 57
}

/// Check that a whole string is a proper numeric token.
pub fn is_num_token_str(s: &str) -> (r: bool)
    ensures
        r == is_num_token(s@),
{
    let n = s.unicode_len();
    let mut i: usize = 0;
    while i < n
        invariant
            i <= n,
            n == s@.len(),
            forall|j: int| 0 <= j < i ==> is_num_char(s@[j]),
        decreases n - i,
    {
        let c = s.get_char(i);
        if !is_num_char_x(c) {
            return false;
        }
        i = i + 1;
    }
    let b = check_num_token(s, 0, n);
    proof {
        assert(s@.subrange(0, n as int) =~= s@);
    }
    b
}

proof fn lemma_deep_view_cons(v: Vec<String>, w: Seq<String>, x: String)
    requires
        v@ == w.insert(0, x),
    ensures
        v.deep_view() =~= seq![x@] + Seq::new(w.len(), |i: int| w[i]@),
{
    assert forall|k: int| 0 <= k < v.deep_view().len() implies v.deep_view()[k] == (seq![x@]
        + Seq::new(w.len(), |i: int| w[i]@))[k] by {
        if k == 0 {
            assert(v@[0] == x);
        } else {
            assert(v@[k] == w[k - 1]);
        }
    }
}

/// Read the items of a non-empty list, the cursor on an opening quote.
fn parse_items_x(s: &str, i: usize) -> (r: Option<(Vec<String>, usize)>)
    requires
        i <= s@.len(),
    ensures
        r matches Some(t) ==> spec_parse_items(s@, i as int) == Some((t.0.deep_view(), t.1 as int))
            && i < t.1 <= s@.len(),
        r is None ==> spec_parse_items(s@, i as int) is None,
    decreases s@.len() - i,
{
    let n = s.unicode_len();
    if i >= n {
        return None;
    }
    if s.get_char(i) != '"' {
        return None;
    }
    let j = scan_quote_x(s, i + 1);
    if j >= n {
        return None;
    }
    let item = s.substring_char(i + 1, j).to_owned();
    let k = skip_sp_x(s, j + 1);
    if k < n && s.get_char(k) == ',' {
        let k2 = skip_sp_x(s, k + 1);
        match parse_items_x(s, k2) {
            Some((rest, p)) => {
                let ghost rest_view = rest.deep_view();
                let ghost rest_seq = rest@;
                let mut items = rest;
                items.insert(0, item);
                proof {
                    lemma_deep_view_cons(items, rest_seq, item);
                    assert(Seq::new(rest_seq.len(), |q: int| rest_seq[q]@) =~= rest_view);
                    assert(items.deep_view() =~= seq![item@] + rest_view);
                }
                Some((items, p))
            },
            None => None,
        }
    } else if k < n && s.get_char(k) == ']' {
        let mut items: Vec<String> = Vec::new();
        items.push(item);
        proof {
            assert(items.deep_view() =~= seq![item@]);
        }
        Some((items, k + 1))
    } else {
        None
    }
}

/// Read one value at position `i` of a line.
pub fn parse_value_x(s: &str, i: usize) -> (r: Option<(Value, usize)>)
    requires
        i <= s@.len(),
    ensures
        r matches Some(t) ==> spec_parse_value(s@, i as int) == Some((t.0@, t.1 as int))
            && i < t.1 <= s@.len(),
        r is None ==> spec_parse_value(s@, i as int) is None,
{
    let n = s.unicode_len();
    if i >= n {
        return None;
    }
    let c = s.get_char(i);
    if c == '"' {
        let j = scan_quote_x(s, i + 1);
        if j < n {
            let item = s.substring_char(i + 1, j).to_owned();
            Some((Value::VStr(item), j + 1))
        } else {
            None
        }
    } else if c == '[' {
        let k = skip_sp_x(s, i + 1);
        if k < n && s.get_char(k) == ']' {
            let items: Vec<String> = Vec::new();
            proof {
                assert(items.deep_view() =~= Seq::<Seq<char>>::empty());
            }
            Some((Value::VList(items), k + 1))
        } else {
            match parse_items_x(s, k) {
                Some((items, p)) => Some((Value::VList(items), p)),
                None => None,
            }
        }
    } else if c == 't' {
        if n - i >= 4 && s.get_char(i + 1) == 'r' && s.get_char(i + 2) == 'u' && s.get_char(i + 3)
            == 'e' {
            proof {
                assert(s@.subrange(i as int, i as int + 4) =~= seq!['t', 'r', 'u', 'e']);
            }
            Some((Value::VBool(true), i + 4))
        } else {
            proof {
                if i as int + 4 <= s@.len() {
                    assert(!(s@.subrange(i as int, i as int + 4) =~= seq!['t', 'r', 'u', 'e']));
                }
                if i as int + 5 <= s@.len() {
                    assert(s@.subrange(i as int, i as int + 5)[0] == 't');
                }
            }
            None
        }
    } else if c == 'f' {
        if n - i >= 5 && s.get_char(i + 1) == 'a' && s.get_char(i + 2) == 'l' && s.get_char(i + 3)
            == 's' && s.get_char(i + 4) == 'e' {
            proof {
                assert(s@.subrange(i as int, i as int + 5) =~= seq!['f', 'a', 'l', 's', 'e']);
            }
            Some((Value::VBool(false), i + 5))
        } else {
            proof {
                if i as int + 4 <= s@.len() {
                    assert(s@.subrange(i as int, i as int + 4)[0] == 'f');
                }
                if i as int + 5 <= s@.len() {
                    assert(!(s@.subrange(i as int, i as int + 5) =~= seq!['f', 'a', 'l', 's', 'e']));
                }
            }
            None
        }
    } else if is_dec_digit_x(c) {
        let j = scan_num_x(s, i);
        proof {
            lemma_scan_num_bounds(s@, i as int);
        }
        if check_num_token(s, i, j) {
            let tok = s.substring_char(i, j).to_owned();
            Some((Value::VNum(tok), j))
        } else {
            None
        }
    } else {
        None
    }
}

/// Append a quoted string to the output text.
pub(crate) fn push_quoted(out: &mut String, s: &str)
    ensures
        final(out)@ == old(out)@ + quote_str(s@),
{
    out.append("\"");
    out.append(s);
    out.append("\"");
    proof {
        reveal_strlit("\"");
        assert(out@ =~= old(out)@ + quote_str(s@));
    }
}

/// Append the items of a list, from `start` on, to the output text.
pub(crate) fn push_items(out: &mut String, items: &Vec<String>, start: usize)
    requires
        start <= items.len(),
    ensures
        final(out)@ == old(out)@ + render_items(items.deep_view().skip(start as int)),
    decreases items.len() - start,
{
    let ghost tail = items.deep_view().skip(start as int);
    if start == items.len() {
        proof {
            assert(tail =~= Seq::<Seq<char>>::empty());
            assert(out@ =~= old(out)@ + render_items(tail));
        }
    } else if start + 1 == items.len() {
        push_quoted(out, items[start].as_str());
        proof {
            assert(tail.len() == 1);
            assert(tail[0] == items.deep_view()[start as int]);
            assert(out@ =~= old(out)@ + render_items(tail));
        }
    } else {
        push_quoted(out, items[start].as_str());
        out.append(", ");
        push_items(out, items, start + 1);
        proof {
            reveal_strlit(", ");
            assert(tail[0] == items.deep_view()[start as int]);
            assert(tail.drop_first() =~= items.deep_view().skip(start as int + 1));
            assert(out@ =~= old(out)@ + render_items(tail));
        }
    }
}

} // verus!
