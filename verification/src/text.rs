//! Verified text utilities: character classification, string equality,
//! trimming, comma splitting, joining and string-literal escaping. Everything
//! here is specified over `Seq<char>` views.

use vstd::prelude::*;

verus! {

/// The whitespace characters that may surround a name in an attribute value.
pub open spec fn is_ws_char(c: char) -> bool {
    c == ' ' || c == '\t' || c == '\n' || c == '\r'
}

/// `s` with its leading whitespace removed.
pub open spec fn trim_start_spec(s: Seq<char>) -> Seq<char>
    decreases s.len(),
{
    if s.len() > 0 && is_ws_char(s[0]) {
        trim_start_spec(s.drop_first())
    } else {
        s
    }
}

/// `s` with its trailing whitespace removed.
pub open spec fn trim_end_spec(s: Seq<char>) -> Seq<char>
    decreases s.len(),
{
    if s.len() > 0 && is_ws_char(s.last()) {
        trim_end_spec(s.drop_last())
    } else {
        s
    }
}

/// `s` with leading and trailing whitespace removed.
pub open spec fn trim_spec(s: Seq<char>) -> Seq<char> {
    trim_end_spec(trim_start_spec(s))
}

/// The pieces of `s` between its commas, in order. An empty `s` gives one
/// empty piece, and every comma separates two (possibly empty) pieces.
pub open spec fn split_commas(s: Seq<char>) -> Seq<Seq<char>>
    decreases s.len(),
{
    if s.len() == 0 {
        seq![Seq::<char>::empty()]
    } else if s[0] == ',' {
        seq![Seq::<char>::empty()].add(split_commas(s.drop_first()))
    } else {
        let rest = split_commas(s.drop_first());
        seq![seq![s[0]].add(rest[0])].add(rest.drop_first())
    }
}

/// The pieces of `s` between its commas, each trimmed of surrounding
/// whitespace.
pub open spec fn split_trim_commas(s: Seq<char>) -> Seq<Seq<char>> {
    split_commas(s).map_values(|p: Seq<char>| trim_spec(p))
}

/// The pieces joined with a comma and a space between neighbours.
pub open spec fn join_comma_space(parts: Seq<Seq<char>>) -> Seq<char>
    decreases parts.len(),
{
    if parts.len() == 0 {
        Seq::<char>::empty()
    } else if parts.len() == 1 {
        parts[0]
    } else {
        parts[0] + ", "@ + join_comma_space(parts.drop_first())
    }
}

/// How one character is written inside a double-quoted string literal.
pub open spec fn escape_char_spec(c: char) -> Seq<char> {
    if c == '"' {
        seq!['\\', '"']
    } else if c == '\\' {
        seq!['\\', '\\']
    } else if c == '\n' {
        seq!['\\', 'n']
    } else if c == '\r' {
        seq!['\\', 'r']
    } else if c == '\t' {
        seq!['\\', 't']
    } else {
        seq![c]
    }
}

/// `s` written as the body of a double-quoted string literal.
pub open spec fn escape_spec(s: Seq<char>) -> Seq<char>
    decreases s.len(),
{
    if s.len() == 0 {
        Seq::<char>::empty()
    } else {
        escape_char_spec(s[0]) + escape_spec(s.drop_first())
    }
}

/// A comma-free string splits into exactly itself.
pub proof fn lemma_split_no_comma(s: Seq<char>)
    requires
        forall|j: int| 0 <= j < s.len() ==> s[j] != ',',
    ensures
        split_commas(s) == seq![s],
    decreases s.len(),
{
    if s.len() == 0 {
        assert(s =~= Seq::<char>::empty());
        assert(split_commas(s) =~= seq![s]);
    } else {
        assert(s[0] != ',');
        assert(forall|j: int| 0 <= j < s.drop_first().len() ==> s.drop_first()[j] != ',');
        lemma_split_no_comma(s.drop_first());
        let rest = split_commas(s.drop_first());
        assert(rest[0] == s.drop_first());
        assert(seq![s[0]].add(rest[0]) =~= s);
        assert(rest.drop_first() =~= Seq::<Seq<char>>::empty());
        assert(split_commas(s) =~= seq![s]);
    }
}

/// Splitting at the first comma: the comma-free prefix is the first piece and
/// the remainder splits on its own.
pub proof fn lemma_split_at_first_comma(s: Seq<char>, k: int)
    requires
        0 <= k < s.len(),
        s[k] == ',',
        forall|j: int| 0 <= j < k ==> s[j] != ',',
    ensures
        split_commas(s) == seq![s.subrange(0, k)].add(
            split_commas(s.subrange(k + 1, s.len() as int)),
        ),
    decreases k,
{
    if k == 0 {
        assert(s.subrange(0, 0) =~= Seq::<char>::empty());
        assert(s.drop_first() =~= s.subrange(1, s.len() as int));
        assert(split_commas(s) =~= seq![s.subrange(0, 0)].add(
            split_commas(s.subrange(1, s.len() as int)),
        ));
    } else {
        assert(s[0] != ',');
        let tail = s.drop_first();
        assert(tail[k - 1] == s[k]);
        assert(forall|j: int| 0 <= j < k - 1 ==> tail[j] == s[j + 1] && tail[j] != ',');
        lemma_split_at_first_comma(tail, k - 1);
        let rest = split_commas(tail);
        assert(tail.subrange(0, k - 1) =~= s.subrange(1, k));
        assert(tail.subrange(k, tail.len() as int) =~= s.subrange(k + 1, s.len() as int));
        let after = split_commas(s.subrange(k + 1, s.len() as int));
        assert(rest == seq![s.subrange(1, k)].add(after));
        assert(rest[0] == s.subrange(1, k));
        assert(rest.drop_first() =~= after);
        assert(seq![s[0]].add(rest[0]) =~= s.subrange(0, k));
        assert(split_commas(s) =~= seq![s.subrange(0, k)].add(after));
    }
}

/// Joining after appending one more piece.
pub proof fn lemma_join_push(parts: Seq<Seq<char>>, p: Seq<char>)
    ensures
        parts.len() == 0 ==> join_comma_space(parts.push(p)) == p,
        parts.len() > 0 ==> join_comma_space(parts.push(p)) == join_comma_space(parts) + ", "@
            + p,
    decreases parts.len(),
{
    if parts.len() == 0 {
        assert(parts.push(p).len() == 1);
        assert(parts.push(p)[0] == p);
    } else if parts.len() == 1 {
        assert(parts.push(p).drop_first() =~= seq![p]);
        assert(join_comma_space(seq![p]) == p);
        assert(parts.push(p)[0] == parts[0]);
        assert(join_comma_space(parts.push(p)) =~= join_comma_space(parts) + ", "@ + p);
    } else {
        assert(parts.push(p).drop_first() =~= parts.drop_first().push(p));
        lemma_join_push(parts.drop_first(), p);
        assert(parts.push(p)[0] == parts[0]);
        assert(join_comma_space(parts.push(p)) =~= join_comma_space(parts) + ", "@ + p);
    }
}

/// Escaping after appending one more character.
pub proof fn lemma_escape_push(s: Seq<char>, c: char)
    ensures
        escape_spec(s.push(c)) == escape_spec(s) + escape_char_spec(c),
    decreases s.len(),
{
    if s.len() == 0 {
        reveal_with_fuel(escape_spec, 2);
        assert(s.push(c).drop_first() =~= Seq::<char>::empty());
        assert(s.push(c)[0] == c);
        assert(escape_spec(s.push(c)) =~= escape_spec(s) + escape_char_spec(c));
    } else {
        assert(s.push(c).drop_first() =~= s.drop_first().push(c));
        lemma_escape_push(s.drop_first(), c);
        assert(s.push(c)[0] == s[0]);
        assert(escape_spec(s.push(c)) =~= escape_spec(s) + escape_char_spec(c));
    }
}

/// Relies on `String::push` from std: appends exactly one character at the
/// end of the string.
#[verifier::external_body]
pub(crate) fn push_char(s: &mut String, c: char)
    ensures
        final(s)@ == old(s)@.push(c),
{
    s.push(c);
}

/// Whether the character at position `i` is whitespace.
fn is_ws_at(s: &str, i: usize) -> (r: bool)
    requires
        i < s@.len(),
    ensures
        r == is_ws_char(s@[i as int]),
{
    let c = s.get_char(i);
    c == ' ' || c == '\t' || c == '\n' || c == '\r'
}

/// Compares two string slices character by character.
pub fn str_eq(a: &str, b: &str) -> (r: bool)
    ensures
        r == (a@ == b@),
{
    let a_len = a.unicode_len();
    let b_len = b.unicode_len();
    if a_len != b_len {
        assert(a@ != b@) by {
            assert(a@.len() != b@.len());
        }
        return false;
    }
    let mut i: usize = 0;
    while i < a_len
        invariant
            i <= a_len,
            a_len == a@.len(),
            b_len == b@.len(),
            a_len == b_len,
            forall|j: int| 0 <= j < i ==> a@[j] == b@[j],
        decreases a_len - i,
    {
        if a.get_char(i) != b.get_char(i) {
            assert(a@ != b@);
            return false;
        }
        i += 1;
    }
    assert(a@ =~= b@);
    true
}

/// The characters of `s` between `from` and `to`, trimmed of surrounding
/// whitespace.
pub fn trim_substr(s: &str, from: usize, to: usize) -> (r: String)
    requires
        from <= to <= s@.len(),
    ensures
        r@ == trim_spec(s@.subrange(from as int, to as int)),
{
    let mut lo: usize = from;
    while lo < to && is_ws_at(s, lo)
        invariant
            from <= lo <= to,
            to <= s@.len(),
            trim_start_spec(s@.subrange(from as int, to as int)) == trim_start_spec(
                s@.subrange(lo as int, to as int),
            ),
        decreases to - lo,
    {
        proof {
            assert(s@.subrange(lo as int, to as int)[0] == s@[lo as int]);
            assert(s@.subrange(lo as int, to as int).drop_first() =~= s@.subrange(
                lo + 1,
                to as int,
            ));
        }
        lo += 1;
    }
    proof {
        if lo < to {
            assert(s@.subrange(lo as int, to as int)[0] == s@[lo as int]);
        }
        assert(trim_start_spec(s@.subrange(lo as int, to as int)) == s@.subrange(
            lo as int,
            to as int,
        ));
    }
    let mut hi: usize = to;
    while hi > lo && is_ws_at(s, hi - 1)
        invariant
            lo <= hi <= to,
            to <= s@.len(),
            trim_end_spec(s@.subrange(lo as int, to as int)) == trim_end_spec(
                s@.subrange(lo as int, hi as int),
            ),
        decreases hi,
    {
        proof {
            assert(s@.subrange(lo as int, hi as int).last() == s@[hi - 1]);
            assert(s@.subrange(lo as int, hi as int).drop_last() =~= s@.subrange(
                lo as int,
                hi - 1,
            ));
        }
        hi -= 1;
    }
    proof {
        if hi > lo {
            assert(s@.subrange(lo as int, hi as int).last() == s@[hi - 1]);
        }
        assert(trim_end_spec(s@.subrange(lo as int, hi as int)) == s@.subrange(
            lo as int,
            hi as int,
        ));
    }
    s.substring_char(lo, hi).to_owned()
}

/// Splits `s` at its commas and trims each piece.
pub fn split_commas_trimmed(s: &str) -> (r: Vec<String>)
    ensures
        r.deep_view() == split_trim_commas(s@),
{
    let len = s.unicode_len();
    let mut out: Vec<String> = Vec::new();
    let mut start: usize = 0;
    let mut i: usize = 0;
    proof {
        assert(out.deep_view() =~= Seq::<Seq<char>>::empty());
        assert(s@.subrange(0, len as int) =~= s@);
    }
    while i < len
        invariant
            start <= i <= len,
            len == s@.len(),
            forall|j: int| start <= j < i ==> s@[j] != ',',
            out.deep_view() + split_trim_commas(s@.subrange(start as int, len as int))
                == split_trim_commas(s@),
        decreases len - i,
    {
        let c = s.get_char(i);
        if c == ',' {
            let piece = trim_substr(s, start, i);
            proof {
                let suf = s@.subrange(start as int, len as int);
                let k = i - start;
                assert(suf[k as int] == s@[i as int]);
                assert(forall|j: int| 0 <= j < k ==> suf[j] == s@[start + j] && suf[j] != ',');
                lemma_split_at_first_comma(suf, k as int);
                assert(suf.subrange(0, k as int) =~= s@.subrange(start as int, i as int));
                assert(suf.subrange(k + 1, suf.len() as int) =~= s@.subrange(
                    i + 1,
                    len as int,
                ));
                let f = |p: Seq<char>| trim_spec(p);
                let head = seq![s@.subrange(start as int, i as int)];
                let tail = split_commas(s@.subrange(i + 1, len as int));
                assert(split_commas(suf) == head.add(tail));
                assert(head.add(tail).map_values(f) =~= head.map_values(f).add(
                    tail.map_values(f),
                ));
                assert(head.map_values(f) =~= seq![
                    trim_spec(s@.subrange(start as int, i as int)),
                ]);
            }
            let ghost old_deep = out.deep_view();
            out.push(piece);
            proof {
                assert(out.deep_view() =~= old_deep.push(
                    trim_spec(s@.subrange(start as int, i as int)),
                ));
                assert(out.deep_view() + split_trim_commas(s@.subrange(i + 1, len as int))
                    =~= old_deep + split_trim_commas(s@.subrange(start as int, len as int)));
            }
            start = i + 1;
        }
        i += 1;
    }
    let piece = trim_substr(s, start, len);
    proof {
        let suf = s@.subrange(start as int, len as int);
        assert(forall|j: int| 0 <= j < suf.len() ==> suf[j] == s@[start + j] && suf[j] != ',');
        lemma_split_no_comma(suf);
        let f = |p: Seq<char>| trim_spec(p);
        assert(seq![suf].map_values(f) =~= seq![trim_spec(suf)]);
    }
    let ghost old_deep = out.deep_view();
    out.push(piece);
    proof {
        assert(out.deep_view() =~= old_deep.push(
            trim_spec(s@.subrange(start as int, len as int)),
        ));
        assert(out.deep_view() =~= split_trim_commas(s@));
    }
    out
}

/// Joins the parts with a comma and a space between neighbours.
pub fn join_with_comma_space(parts: &Vec<String>) -> (r: String)
    ensures
        r@ == join_comma_space(parts.deep_view()),
{
    let mut out = String::new();
    let mut i: usize = 0;
    while i < parts.len()
        invariant
            i <= parts.len(),
            i == 0 ==> out@ == Seq::<char>::empty(),
            i > 0 ==> out@ == join_comma_space(parts.deep_view().subrange(0, i as int)),
        decreases parts.len() - i,
    {
        let ghost prefix = parts.deep_view().subrange(0, i as int);
        if i > 0 {
            out.append(", ");
        }
        let p: &String = &parts[i];
        out.append(p.as_str());
        proof {
            assert(parts.deep_view()[i as int] == parts@[i as int]@);
            lemma_join_push(prefix, parts.deep_view()[i as int]);
            assert(parts.deep_view().subrange(0, i + 1) =~= prefix.push(
                parts.deep_view()[i as int],
            ));
            if i == 0 {
                assert(out@ =~= parts.deep_view()[0]);
            }
        }
        i += 1;
    }
    proof {
        if parts.len() == 0 {
            assert(out@ == join_comma_space(parts.deep_view()));
        } else {
            assert(parts.deep_view().subrange(0, parts.len() as int) =~= parts.deep_view());
        }
    }
    out
}

/// Writes `s` as it would stand inside a double-quoted string literal.
pub fn escape_str(s: &str) -> (r: String)
    ensures
        r@ == escape_spec(s@),
{
    let len = s.unicode_len();
    let mut out = String::new();
    let mut i: usize = 0;
    proof {
        assert(s@.subrange(0, 0) =~= Seq::<char>::empty());
    }
    while i < len
        invariant
            i <= len,
            len == s@.len(),
            out@ == escape_spec(s@.subrange(0, i as int)),
        decreases len - i,
    {
        let c = s.get_char(i);
        let ghost prev = out@;
        if c == '"' {
            push_char(&mut out, '\\');
            push_char(&mut out, '"');
        } else if c == '\\' {
            push_char(&mut out, '\\');
            push_char(&mut out, '\\');
        } else if c == '\n' {
            push_char(&mut out, '\\');
            push_char(&mut out, 'n');
        } else if c == '\r' {
            push_char(&mut out, '\\');
            push_char(&mut out, 'r');
        } else if c == '\t' {
            push_char(&mut out, '\\');
            push_char(&mut out, 't');
        } else {
            push_char(&mut out, c);
        }
        proof {
            assert(out@ =~= prev + escape_char_spec(c));
            lemma_escape_push(s@.subrange(0, i as int), c);
            assert(s@.subrange(0, i + 1) =~= s@.subrange(0, i as int).push(c));
        }
        i += 1;
    }
    proof {
        assert(s@.subrange(0, len as int) =~= s@);
    }
    out
}

} // verus!
