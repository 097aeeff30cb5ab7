use vstd::prelude::*;

verus! {

/// Appends the character `c` to `s` with `String::push`.
#[verifier::external_body]
pub(crate) fn push_char(s: &mut String, c: char)
    ensures
        final(s)@ == old(s)@.push(c),
{
    s.push(c)
}

/// What one character of a cause contributes to its indented form.
pub open spec fn indent_char(c: char) -> Seq<char> {
    if c == '\n' {
        "\n    "@
    } else {
        seq![c]
    }
}

/// The text `s` with four spaces after each line break.
pub open spec fn indented(s: Seq<char>) -> Seq<char>
    decreases s.len(),
{
    if s.len() == 0 {
        Seq::empty()
    } else {
        indented(s.drop_last()) + indent_char(s.last())
    }
}

/// The lines of `s`, each on a line of its own, indented by four spaces.
pub open spec fn indented_lines(s: Seq<char>) -> Seq<char> {
    "\n    "@ + indented(s)
}

/// Appends the lines of `text` to `result`, each on a new line indented by
/// four spaces.
pub fn push_indented_lines(result: &mut String, text: &str)
    ensures
        final(result)@ == old(result)@ + indented_lines(text@),
{
    result.append("\n    ");
    let len = text.unicode_len();
    let mut i: usize = 0;
    while i < len
        invariant
            len == text@.len(),
            i <= len,
            result@ == old(result)@ + "\n    "@ + indented(text@.subrange(0, i as int)),
        decreases len - i,
    {
        let c = text.get_char(i);
        proof {
            assert(text@.subrange(0, i + 1).drop_last() =~= text@.subrange(0, i as int));
        }
        if c == '\n' {
            result.append("\n    ");
        } else {
            push_char(result, c);
        }
        i = i + 1;
    }
    proof {
        assert(text@.subrange(0, len as int) =~= text@);
    }
}

} // verus!

verus! {

/// The decimal digit `d` as a character.
pub open spec fn digit_char(d: nat) -> char {
    if d == 0 {
        '0'
    } else if d == 1 {
        '1'
    } else if d == 2 {
        '2'
    } else if d == 3 {
        '3'
    } else if d == 4 {
        '4'
    } else if d == 5 {
        '5'
    } else if d == 6 {
        '6'
    } else if d == 7 {
        '7'
    } else if d == 8 {
        '8'
    } else {
        '9'
    }
}

/// The decimal notation of `n`, without leading zeros.
pub open spec fn decimal(n: nat) -> Seq<char>
    decreases n,
{
    if n < 10 {
        seq![digit_char(n)]
    } else {
        decimal(n / 10).push(digit_char(n % 10))
    }
}

fn digit(d: usize) -> (c: char)
    requires
        d < 10,
    ensures
        c == digit_char(d as nat),
{
    match d {
        0 => '0',
        1 => '1',
        2 => '2',
        3 => '3',
        4 => '4',
        5 => '5',
        6 => '6',
        7 => '7',
        8 => '8',
        _ => '9',
    }
}

/// Appends the decimal notation of `n` to `s`.
pub fn push_decimal(s: &mut String, n: usize)
    ensures
        final(s)@ == old(s)@ + decimal(n as nat),
    decreases n,
{
    if n >= 10 {
        push_decimal(s, n / 10);
    }
    push_char(s, digit(n % 10));
    proof {
        assert(old(s)@ + decimal(n as nat) =~= s@);
    }
}

/// The text `s` enclosed in single quotes.
pub open spec fn quoted(s: Seq<char>) -> Seq<char> {
    "'"@ + s + "'"@
}

/// Appends `text` enclosed in single quotes to `s`.
pub fn push_quoted(s: &mut String, text: &str)
    ensures
        final(s)@ == old(s)@ + quoted(text@),
{
    s.append("'");
    s.append(text);
    s.append("'");
    proof {
        assert(old(s)@ + quoted(text@) =~= s@);
    }
}

/// Lexicographic order of texts by their characters' code points: the
/// order in which `String`s compare.
pub open spec fn lex_le(a: Seq<char>, b: Seq<char>) -> bool
    decreases a.len(),
{
    if a.len() == 0 {
        true
    } else if b.len() == 0 {
        false
    } else if a[0] != b[0] {
        a[0] < b[0]
    } else {
        lex_le(a.drop_first(), b.drop_first())
    }
}

/// The lexicographic order as a relation.
pub open spec fn text_order() -> spec_fn(Seq<char>, Seq<char>) -> bool {
    |a: Seq<char>, b: Seq<char>| lex_le(a, b)
}

pub proof fn lemma_lex_reflexive(a: Seq<char>)
    ensures
        lex_le(a, a),
    decreases a.len(),
{
    if a.len() > 0 {
        lemma_lex_reflexive(a.drop_first());
    }
}

pub proof fn lemma_lex_antisymmetric(a: Seq<char>, b: Seq<char>)
    requires
        lex_le(a, b),
        lex_le(b, a),
    ensures
        a == b,
    decreases a.len(),
{
    if a.len() > 0 && b.len() > 0 {
        if a[0] == b[0] {
            lemma_lex_antisymmetric(a.drop_first(), b.drop_first());
            assert(a =~= seq![a[0]] + a.drop_first());
            assert(b =~= seq![b[0]] + b.drop_first());
        }
    } else {
        assert(a =~= b);
    }
}

proof fn lemma_lex_transitive(a: Seq<char>, b: Seq<char>, c: Seq<char>)
    requires
        lex_le(a, b),
        lex_le(b, c),
    ensures
        lex_le(a, c),
    decreases a.len(),
{
    if a.len() > 0 && b.len() > 0 && c.len() > 0 {
        if a[0] == b[0] && b[0] == c[0] {
            lemma_lex_transitive(a.drop_first(), b.drop_first(), c.drop_first());
        }
    }
}

proof fn lemma_lex_total(a: Seq<char>, b: Seq<char>)
    ensures
        lex_le(a, b) || lex_le(b, a),
    decreases a.len(),
{
    if a.len() > 0 && b.len() > 0 {
        if a[0] == b[0] {
            lemma_lex_total(a.drop_first(), b.drop_first());
        }
    }
}

/// The lexicographic order of texts is a total order.
pub proof fn lemma_text_order_total()
    ensures
        vstd::relations::total_ordering(text_order()),
{
    assert forall|a: Seq<char>| #[trigger] text_order()(a, a) by {
        lemma_lex_reflexive(a);
    }
    assert forall|a: Seq<char>, b: Seq<char>|
        #[trigger] text_order()(a, b) && #[trigger] text_order()(b, a) implies a == b by {
        lemma_lex_antisymmetric(a, b);
    }
    assert forall|a: Seq<char>, b: Seq<char>, c: Seq<char>|
        #[trigger] text_order()(a, b) && #[trigger] text_order()(b, c) implies text_order()(
        a,
        c,
    ) by {
        lemma_lex_transitive(a, b, c);
    }
    assert forall|a: Seq<char>, b: Seq<char>|
        #[trigger] text_order()(a, b) || #[trigger] text_order()(b, a) by {
        lemma_lex_total(a, b);
    }
}

/// Whether `a` comes before `b`, or equals it, in the lexicographic order.
pub fn str_le(a: &str, b: &str) -> (r: bool)
    ensures
        r == lex_le(a@, b@),
{
    let la = a.unicode_len();
    let lb = b.unicode_len();
    let mut i: usize = 0;
    proof {
        assert(a@.skip(0) =~= a@);
        assert(b@.skip(0) =~= b@);
    }
    while i < la && i < lb
        invariant
            la == a@.len(),
            lb == b@.len(),
            i <= la,
            i <= lb,
            lex_le(a@, b@) == lex_le(a@.skip(i as int), b@.skip(i as int)),
        decreases la - i,
    {
        let ca = a.get_char(i);
        let cb = b.get_char(i);
        if ca != cb {
            return ca < cb;
        }
        proof {
            assert(a@.skip(i as int).drop_first() =~= a@.skip(i + 1));
            assert(b@.skip(i as int).drop_first() =~= b@.skip(i + 1));
        }
        i = i + 1;
    }
    i == la
}

/// The texts of a sequence of strings.
pub open spec fn texts(v: Seq<String>) -> Seq<Seq<char>> {
    v.map_values(|s: String| s@)
}

/// Sorts strings in the lexicographic order of their characters.
pub fn sort_texts(v: &Vec<String>) -> (r: Vec<String>)
    ensures
        texts(r@) == texts(v@).sort_by(text_order()),
{
    let mut r: Vec<String> = Vec::new();
    let mut i: usize = 0;
    proof {
        lemma_text_order_total();
        assert(texts(v@.subrange(0, 0)) =~= texts(r@));
    }
    while i < v.len()
        invariant
            i <= v.len(),
            vstd::relations::total_ordering(text_order()),
            vstd::relations::sorted_by(texts(r@), text_order()),
            texts(r@).to_multiset() == texts(v@.subrange(0, i as int)).to_multiset(),
        decreases v.len() - i,
    {
        let s = v[i].clone();
        let mut j: usize = 0;
        let mut found = false;
        while !found && j < r.len()
            invariant
                j <= r.len(),
                forall|k: int| 0 <= k < j ==> lex_le(#[trigger] r@[k]@, s@),
                found ==> j < r.len() && !lex_le(r@[j as int]@, s@),
            decreases r.len() - j, if found { 0int } else { 1int },
        {
            if str_le(r[j].as_str(), s.as_str()) {
                j = j + 1;
            } else {
                found = true;
            }
        }
        let ghost before = r@;
        let ghost text = s@;
        r.insert(j, s);
        proof {
            let tb = texts(before);
            let tr = texts(r@);
            assert(tr =~= tb.insert(j as int, text));
            vstd::seq_lib::to_multiset_insert(tb, j as int, text);
            assert(texts(v@.subrange(0, i + 1)) =~= texts(v@.subrange(0, i as int)).push(text));
            vstd::seq_lib::to_multiset_build(texts(v@.subrange(0, i as int)), text);
            if j < before.len() {
                assert(!lex_le(tb[j as int], text));
                lemma_lex_total(tb[j as int], text);
            }
            assert forall|a: int, b: int| 0 <= a < b < tr.len() implies #[trigger] text_order()(
                tr[a],
                tr[b],
            ) by {
                if b < j {
                    assert(tr[a] == tb[a] && tr[b] == tb[b]);
                    assert(text_order()(tb[a], tb[b]));
                } else if b == j {
                    assert(tr[a] == tb[a]);
                } else if a == j {
                    assert(tr[b] == tb[b - 1]);
                    if b - 1 > j {
                        assert(text_order()(tb[j as int], tb[b - 1]));
                        lemma_lex_transitive(text, tb[j as int], tb[b - 1]);
                    }
                } else if a < j {
                    assert(tr[a] == tb[a] && tr[b] == tb[b - 1]);
                    assert(lex_le(tb[a], text));
                    lemma_lex_transitive(tb[a], text, tb[j as int]);
                    if b - 1 > j {
                        assert(text_order()(tb[j as int], tb[b - 1]));
                        lemma_lex_transitive(tb[a], tb[j as int], tb[b - 1]);
                    }
                } else {
                    assert(tr[a] == tb[a - 1] && tr[b] == tb[b - 1]);
                    assert(text_order()(tb[a - 1], tb[b - 1]));
                }
            }
        }
        i = i + 1;
    }
    proof {
        assert(v@.subrange(0, v.len() as int) =~= v@);
        texts(v@).lemma_sort_by_ensures(text_order());
        vstd::seq_lib::lemma_sorted_unique(texts(r@), texts(v@).sort_by(text_order()), text_order());
    }
    r
}

} // verus!

verus! {

/// The text that `{:?}` gives for a string: its characters in double quotes,
/// with special characters escaped.
pub uninterp spec fn str_debug(s: Seq<char>) -> Seq<char>;

/// Formats `s` with its `Debug` implementation (`format!("{:?}", s)`).
#[verifier::external_body]
pub(crate) fn debug_str(s: &str) -> (r: String)
    ensures
        r@ == str_debug(s@),
{
    format!("{:?}", s)
}

/// The texts of `items`, separated by `separator`.
pub open spec fn joined(items: Seq<Seq<char>>, separator: Seq<char>) -> Seq<char>
    decreases items.len(),
{
    if items.len() == 0 {
        Seq::empty()
    } else if items.len() == 1 {
        items[0]
    } else {
        joined(items.drop_last(), separator) + separator + items.last()
    }
}

/// Appends the texts of `items`, separated by `separator`, to `s`.
pub fn push_joined(s: &mut String, items: &Vec<String>, separator: &str)
    ensures
        final(s)@ == old(s)@ + joined(texts(items@), separator@),
{
    let mut i: usize = 0;
    while i < items.len()
        invariant
            i <= items.len(),
            s@ == old(s)@ + joined(texts(items@.subrange(0, i as int)), separator@),
        decreases items.len() - i,
    {
        proof {
            assert(texts(items@.subrange(0, i + 1)).drop_last() =~= texts(
                items@.subrange(0, i as int),
            ));
        }
        if i > 0 {
            s.append(separator);
        }
        s.append(items[i].as_str());
        proof {
            if i == 0 {
                assert(texts(items@.subrange(0, 0)) =~= Seq::<Seq<char>>::empty());
                assert(old(s)@ + joined(texts(items@.subrange(0, 1)), separator@) =~= s@);
            } else {
                assert(old(s)@ + joined(texts(items@.subrange(0, i + 1)), separator@) =~= s@);
            }
        }
        i = i + 1;
    }
    proof {
        assert(items@.subrange(0, items.len() as int) =~= items@);
    }
}

} // verus!

verus! {

/// The decimal notation of the integer `v`, with a minus sign when it is
/// negative.
pub open spec fn signed_decimal(v: int) -> Seq<char> {
    if v < 0 {
        "-"@ + decimal((-v) as nat)
    } else {
        decimal(v as nat)
    }
}

/// Appends the decimal notation of `v` to `s`.
pub fn push_signed_decimal(s: &mut String, v: isize)
    ensures
        final(s)@ == old(s)@ + signed_decimal(v as int),
{
    if v < 0 {
        s.append("-");
        let magnitude = (-(v + 1)) as usize + 1;
        push_decimal(s, magnitude);
        proof {
            assert(old(s)@ + signed_decimal(v as int) =~= s@);
        }
    } else {
        push_decimal(s, v as usize);
    }
}

} // verus!

verus! {

/// The text of the error that `std::str::from_utf8` reports for `bytes`.
pub uninterp spec fn utf8_error_text(bytes: Seq<u8>) -> Seq<char>;

/// Checks with `std::str::from_utf8` whether `bytes` are a UTF-8 encoding;
/// gives the text of the reported error when they are not.
#[verifier::external_body]
pub(crate) fn utf8_error(bytes: &Vec<u8>) -> (r: Option<String>)
    ensures
        r is None <==> vstd::utf8::valid_utf8(bytes@),
        r matches Some(text) ==> text@ == utf8_error_text(bytes@),
{
    match std::str::from_utf8(bytes.as_slice()) {
        Ok(_) => None,
        Err(error) => Some(error.to_string()),
    }
}

} // verus!
