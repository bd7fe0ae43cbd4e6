//! Plain-text rendering helpers: decimal representation of integers, and the
//! whitespace normalization applied to raw text quoted in error messages.

use vstd::prelude::*;

verus! {

/// The decimal digit character for one digit value.
pub open spec fn digit_char(d: int) -> char
    recommends
        0 <= d < 10,
{
    if d == 0 {
        '0'
    } else if d == 1 {
        '1'
    } else if d == 2 {
        '2'
    } else if d == 3 {
        '3'
    } else if d == 4 {
        '4'
    } else if d == 5 {
        '5'
    } else if d == 6 {
        '6'
    } else if d == 7 {
        '7'
    } else if d == 8 {
        '8'
    } else {
        '9'
    }
}

/// The decimal representation of a natural number, most significant digit
/// first, with no leading zeros (except for zero itself).
pub open spec fn dec_spec(n: nat) -> Seq<char>
    decreases n,
{
    if n < 10 {
        seq![digit_char(n as int)]
    } else {
        dec_spec(n / 10) + seq![digit_char((n % 10) as int)]
    }
}

fn digit_str(d: u64) -> (r: &'static str)
    requires
        d < 10,
    ensures
        r@ == seq![digit_char(d as int)],
{
    proof {
        reveal_strlit("0");
        reveal_strlit("1");
        reveal_strlit("2");
        reveal_strlit("3");
        reveal_strlit("4");
        reveal_strlit("5");
        reveal_strlit("6");
        reveal_strlit("7");
        reveal_strlit("8");
        reveal_strlit("9");
    }
    let r = if d == 0 {
        "0"
    } else if d == 1 {
        "1"
    } else if d == 2 {
        "2"
    } else if d == 3 {
        "3"
    } else if d == 4 {
        "4"
    } else if d == 5 {
        "5"
    } else if d == 6 {
        "6"
    } else if d == 7 {
        "7"
    } else if d == 8 {
        "8"
    } else {
        "9"
    };
    proof {
        assert(r@ =~= seq![digit_char(d as int)]);
    }
    r
}

/// Render a number in decimal.
pub fn u64_to_string(n: u64) -> (r: String)
    ensures
        r@ == dec_spec(n as nat),
    decreases n,
{
    if n < 10 {
        digit_str(n).to_owned()
    } else {
        let head = u64_to_string(n / 10);
        let r = head.concat(digit_str(n % 10));
        proof {
            assert(r@ =~= dec_spec(n as nat));
        }
        r
    }
}

/// The whitespace characters stripped from the ends of quoted lines.
pub open spec fn spec_is_ws(c: char) -> bool {
    c == ' ' || c == '\t' || c == '\n' || c == '\r' || c == '\u{000C}'
}

fn is_ws(c: char) -> (r: bool)
    ensures
        r == spec_is_ws(c),
{
    c == ' ' || c == '\t' || c == '\n' || c == '\r' || c == '\u{000C}'
}

/// A string with its outermost whitespace removed: strip one leading
/// whitespace character, else one trailing one, until neither end holds any.
pub open spec fn trim_spec(s: Seq<char>) -> Seq<char>
    decreases s.len(),
{
    if s.len() > 0 && spec_is_ws(s[0]) {
        trim_spec(s.drop_first())
    } else if s.len() > 0 && spec_is_ws(s[s.len() - 1]) {
        trim_spec(s.drop_last())
    } else {
        s
    }
}

fn trim_str(s: &str) -> (r: String)
    ensures
        r@ == trim_spec(s@),
    decreases s@.len(),
{
    let n = s.unicode_len();
    if n > 0 && is_ws(s.get_char(0)) {
        let rest = s.substring_char(1, n);
        proof {
            assert(rest@ =~= s@.drop_first());
        }
        trim_str(rest)
    } else if n > 0 && is_ws(s.get_char(n - 1)) {
        let rest = s.substring_char(0, n - 1);
        proof {
            assert(rest@ =~= s@.drop_last());
        }
        trim_str(rest)
    } else {
        s.to_owned()
    }
}

/// The pieces of a string separated by newline characters; always at least
/// one piece, and one more piece than there are newlines.
pub open spec fn split_lines_spec(s: Seq<char>) -> Seq<Seq<char>>
    decreases s.len(),
{
    if s.len() == 0 {
        seq![Seq::<char>::empty()]
    } else if s[0] == '\n' {
        seq![Seq::<char>::empty()] + split_lines_spec(s.drop_first())
    } else {
        let rest = split_lines_spec(s.drop_first());
        seq![seq![s[0]] + rest[0]] + rest.drop_first()
    }
}

proof fn lemma_split_lines_nonempty(s: Seq<char>)
    ensures
        split_lines_spec(s).len() >= 1,
    decreases s.len(),
{
    if s.len() != 0 {
        lemma_split_lines_nonempty(s.drop_first());
    }
}

fn split_lines(s: &str) -> (r: Vec<String>)
    ensures
        r.deep_view() == split_lines_spec(s@),
        r@.len() >= 1,
    decreases s@.len(),
{
    let n = s.unicode_len();
    if n == 0 {
        let mut r: Vec<String> = Vec::new();
        r.push(String::new());
        proof {
            assert(r.deep_view() =~~= split_lines_spec(s@));
        }
        r
    } else if s.get_char(0) == '\n' {
        let rest = s.substring_char(1, n);
        proof {
            assert(rest@ =~= s@.drop_first());
        }
        let mut r = split_lines(rest);
        r.insert(0, String::new());
        proof {
            assert(r.deep_view() =~~= split_lines_spec(s@));
        }
        r
    } else {
        let first = s.substring_char(0, 1);
        let rest = s.substring_char(1, n);
        proof {
            assert(rest@ =~= s@.drop_first());
            lemma_split_lines_nonempty(rest@);
        }
        let mut r = split_lines(rest);
        let joined = first.to_owned().concat(r[0].as_str());
        r.set(0, joined);
        proof {
            assert(first@ =~= seq![s@[0]]);
            assert(r.deep_view() =~~= split_lines_spec(s@));
        }
        r
    }
}

/// The pieces joined with single spaces.
pub open spec fn join_spaces_spec(ps: Seq<Seq<char>>) -> Seq<char>
    decreases ps.len(),
{
    if ps.len() == 0 {
        Seq::empty()
    } else if ps.len() == 1 {
        ps[0]
    } else {
        ps[0] + seq![' '] + join_spaces_spec(ps.drop_first())
    }
}

fn join_spaces_from(ps: &Vec<String>, i: usize) -> (r: String)
    requires
        i <= ps@.len(),
    ensures
        r@ == join_spaces_spec(ps.deep_view().subrange(i as int, ps@.len() as int)),
    decreases ps@.len() - i,
{
    proof {
        reveal_strlit(" ");
    }
    if i == ps.len() {
        String::new()
    } else if i + 1 == ps.len() {
        let r = ps[i].clone();
        proof {
            assert(ps.deep_view().subrange(i as int, ps@.len() as int) =~=
                seq![ps.deep_view()[i as int]]);
        }
        r
    } else {
        let rest = join_spaces_from(ps, i + 1);
        let r = ps[i].clone().concat(" ").concat(rest.as_str());
        proof {
            let tail = ps.deep_view().subrange(i as int, ps@.len() as int);
            assert(tail.drop_first() =~=
                ps.deep_view().subrange(i + 1, ps@.len() as int));
            assert(r@ =~= join_spaces_spec(tail));
        }
        r
    }
}

/// Each newline-separated piece of a text, trimmed of outer whitespace.
pub open spec fn trimmed_lines(s: Seq<char>) -> Seq<Seq<char>> {
    split_lines_spec(s).map_values(|p: Seq<char>| trim_spec(p))
}

/// What [`json_error_snippet`](crate::json_error_snippet) produces from an
/// already-truncated text: each newline-separated piece trimmed of outer
/// whitespace, joined with single spaces.
pub open spec fn snippet_spec(s: Seq<char>) -> Seq<char> {
    join_spaces_spec(trimmed_lines(s))
}

/// Normalize an already-truncated text for quoting inside an error message.
pub fn normalize_snippet(s: &str) -> (r: String)
    ensures
        r@ == snippet_spec(s@),
{
    let pieces = split_lines(s);
    let mut trimmed: Vec<String> = Vec::new();
    let mut i: usize = 0;
    while i < pieces.len()
        invariant
            i <= pieces@.len(),
            pieces.deep_view() == split_lines_spec(s@),
            trimmed@.len() == i,
            forall|j: int|
                0 <= j < i ==> #[trigger] trimmed.deep_view()[j] == trimmed_lines(s@)[j],
        decreases pieces@.len() - i,
    {
        let t = trim_str(pieces[i].as_str());
        let ghost snap = trimmed;
        trimmed.push(t);
        proof {
            assert(pieces.deep_view()[i as int] == pieces@[i as int]@);
            assert(trimmed_lines(s@)[i as int] == trim_spec(split_lines_spec(s@)[i as int]));
            assert forall|j: int|
                0 <= j < i + 1 implies #[trigger] trimmed.deep_view()[j] == trimmed_lines(s@)[j] by {
                if j < i {
                    assert(snap.deep_view()[j] == trimmed_lines(s@)[j]);
                    assert(trimmed@[j] == snap@[j]);
                } else {
                    assert(trimmed.deep_view()[j] == t@);
                }
            }
        }
        i += 1;
    }
    proof {
        assert(trimmed.deep_view() =~~= trimmed_lines(s@));
    }
    let r = join_spaces_from(&trimmed, 0);
    proof {
        assert(trimmed.deep_view().subrange(0, trimmed@.len() as int) =~= trimmed.deep_view());
    }
    r
}

} // verus!
