use vstd::prelude::*;
use vstd::std_specs::iter::IteratorSpec;

verus! {

broadcast use vstd::string::axiom_spec_iter, vstd::string::next_postcondition;

/// From index `i` on, `s` holds the ASCII word whose letters are `lower`,
/// each letter in either case (`upper` holds the upper-case letters).
pub open spec fn word_at(s: Seq<char>, i: int, lower: Seq<char>, upper: Seq<char>) -> bool {
    &&& lower.len() == upper.len()
    &&& 0 <= i
    &&& i + lower.len() <= s.len()
    &&& forall|k: int| 0 <= k < lower.len() ==> s[i + k] == lower[k] || s[i + k] == upper[k]
}

/// A space or a tab, the protocol's blanks.
pub open spec fn is_blank(c: char) -> bool {
    c == ' ' || c == '\t'
}

/// The first word of `s` starts at index `i`: only blanks stand before it.
pub open spec fn first_word_at(s: Seq<char>, i: int) -> bool {
    &&& 0 <= i < s.len()
    &&& !is_blank(s[i])
    &&& forall|j: int| 0 <= j < i ==> is_blank(s[j])
}

/// The keywords, in any case, of the commands whose reading by the protocol
/// grammar is handed to the parser: `uci` (also starting `ucinewgame` and
/// `uciok`), `debug`, `isready`, `setoption`, `stop`, `ponderhit` and `quit`.
pub open spec fn known_keyword_at(s: Seq<char>, i: int) -> bool {
    ||| word_at(s, i, seq!['u', 'c', 'i'], seq!['U', 'C', 'I'])
    ||| word_at(s, i, seq!['d', 'e', 'b', 'u', 'g'], seq!['D', 'E', 'B', 'U', 'G'])
    ||| word_at(
        s,
        i,
        seq!['i', 's', 'r', 'e', 'a', 'd', 'y'],
        seq!['I', 'S', 'R', 'E', 'A', 'D', 'Y'],
    )
    ||| word_at(
        s,
        i,
        seq!['s', 'e', 't', 'o', 'p', 't', 'i', 'o', 'n'],
        seq!['S', 'E', 'T', 'O', 'P', 'T', 'I', 'O', 'N'],
    )
    ||| word_at(s, i, seq!['s', 't', 'o', 'p'], seq!['S', 'T', 'O', 'P'])
    ||| word_at(
        s,
        i,
        seq!['p', 'o', 'n', 'd', 'e', 'r', 'h', 'i', 't'],
        seq!['P', 'O', 'N', 'D', 'E', 'R', 'H', 'I', 'T'],
    )
    ||| word_at(s, i, seq!['q', 'u', 'i', 't'], seq!['Q', 'U', 'I', 'T'])
}

/// The line is handed to the protocol grammar: its first word, after any
/// blanks, starts with one of the known keywords.
pub open spec fn safe_to_parse(s: Seq<char>) -> bool {
    exists|i: int| first_word_at(s, i) && known_keyword_at(s, i)
}

/// The characters of a line, in order.
fn line_chars(line: &str) -> (r: Vec<char>)
    ensures
        r@ == line@,
{
    let mut it = line.chars();
    let mut out: Vec<char> = Vec::new();
    loop
        invariant
            it.obeys_prophetic_iter_laws(),
            it.decrease() is Some,
            out@ + it.remaining() == line@,
        ensures
            out@ == line@,
        decreases it.decrease()->0,
    {
        let ghost rest = it.remaining();
        match it.next() {
            Some(c) => {
                out.push(c);
            },
            None => {
                assert(out@ + rest =~= out@);
                break;
            },
        }
    }
    out
}

/// Whether the word, in any case, starts at index `i` of `s`.
fn word_starts<const N: usize>(s: &Vec<char>, i: usize, lower: &[char; N], upper: &[char; N]) -> (r:
    bool)
    ensures
        r == word_at(s@, i as int, lower@, upper@),
{
    if i > s.len() || s.len() - i < N {
        return false;
    }
    let mut k: usize = 0;
    while k < N
        invariant
            i + N <= s.len(),
            lower@.len() == N,
            upper@.len() == N,
            k <= N,
            forall|m: int| 0 <= m < k ==> s@[i + m] == lower@[m] || s@[i + m] == upper@[m],
        decreases N - k,
    {
        if s[i + k] != lower[k] && s[i + k] != upper[k] {
            return false;
        }
        k = k + 1;
    }
    true
}

/// Whether the line is handed to the protocol grammar.
pub fn safe_to_parse_line(line: &str) -> (r: bool)
    ensures
        r == safe_to_parse(line@),
{
    let s = line_chars(line);
    let mut i: usize = 0;
    while i < s.len() && (s[i] == ' ' || s[i] == '\t')
        invariant
            i <= s.len(),
            forall|j: int| 0 <= j < i ==> is_blank(s@[j]),
        decreases s.len() - i,
    {
        i = i + 1;
    }
    if i == s.len() {
        assert forall|j: int| !first_word_at(s@, j) by {
            if first_word_at(s@, j) {
                assert(is_blank(s@[j]));
            }
        }
        return false;
    }
    assert(first_word_at(s@, i as int));
    assert forall|j: int| first_word_at(s@, j) implies j == i by {
        if j < i {
            assert(is_blank(s@[j]));
        } else if j > i {
            assert(is_blank(s@[i as int]));
        }
    }
    let r = word_starts(&s, i, &['u', 'c', 'i'], &['U', 'C', 'I'])
        || word_starts(&s, i, &['d', 'e', 'b', 'u', 'g'], &['D', 'E', 'B', 'U', 'G'])
        || word_starts(
        &s,
        i,
        &['i', 's', 'r', 'e', 'a', 'd', 'y'],
        &['I', 'S', 'R', 'E', 'A', 'D', 'Y'],
    ) || word_starts(
        &s,
        i,
        &['s', 'e', 't', 'o', 'p', 't', 'i', 'o', 'n'],
        &['S', 'E', 'T', 'O', 'P', 'T', 'I', 'O', 'N'],
    ) || word_starts(&s, i, &['s', 't', 'o', 'p'], &['S', 'T', 'O', 'P']) || word_starts(
        &s,
        i,
        &['p', 'o', 'n', 'd', 'e', 'r', 'h', 'i', 't'],
        &['P', 'O', 'N', 'D', 'E', 'R', 'H', 'I', 'T'],
    ) || word_starts(&s, i, &['q', 'u', 'i', 't'], &['Q', 'U', 'I', 'T']);
    r
}

} // verus!
