//! Turning the HTML fragments of post subjects and comments into plain text.
use vstd::prelude::*;
use crate::text::{chars_of, push_char};

verus! {

/// The first index `>= from` at which `s` holds `c`.
pub open spec fn find_from(s: Seq<char>, c: char, from: int) -> Option<int>
    decreases s.len() - from,
{
    if from < 0 || from >= s.len() {
        None
    } else if s[from] == c {
        Some(from)
    } else {
        find_from(s, c, from + 1)
    }
}

pub proof fn lemma_find_from(s: Seq<char>, c: char, from: int)
    ensures
        find_from(s, c, from) matches Some(j) ==> from <= j < s.len() && s[j] == c,
        find_from(s, c, from) is None && 0 <= from ==> forall|k: int|
            from <= k < s.len() ==> s[k] != c,
    decreases s.len() - from,
{
    if from < 0 || from >= s.len() {
    } else if s[from] == c {
    } else {
        lemma_find_from(s, c, from + 1);
    }
}

/// `s` holds `pat` starting at index `i`.
pub open spec fn pattern_at(s: Seq<char>, i: int, pat: Seq<char>) -> bool {
    0 <= i && i + pat.len() <= s.len() && s.subrange(i, i + pat.len()) == pat
}

/// The character entities that posts use, as (pattern, character) pairs.
pub open spec fn entity_at(s: Seq<char>, i: int) -> Option<(int, char)> {
    if pattern_at(s, i, seq!['&', 'g', 't', ';']) {
        Some((4, '>'))
    } else if pattern_at(s, i, seq!['&', 'l', 't', ';']) {
        Some((4, '<'))
    } else if pattern_at(s, i, seq!['&', 'a', 'm', 'p', ';']) {
        Some((5, '&'))
    } else if pattern_at(s, i, seq!['&', 'q', 'u', 'o', 't', ';']) {
        Some((6, '"'))
    } else if pattern_at(s, i, seq!['&', '#', '0', '3', '9', ';']) {
        Some((6, '\''))
    } else {
        None
    }
}

/// The text a tag stands for: a line break for `br`, nothing otherwise.
pub open spec fn tag_text(tag: Seq<char>) -> Seq<char> {
    if tag == seq!['b', 'r'] {
        seq!['\n']
    } else {
        Seq::empty()
    }
}

/// The plain text of `s` from index `i` on: a tag `<...>` becomes its
/// `tag_text`, a known entity becomes its character, an unclosed `<` and the
/// rest after it are kept as written, every other character is kept.
pub open spec fn html_from(s: Seq<char>, i: int) -> Seq<char>
    decreases s.len() - i,
{
    if i < 0 || i >= s.len() {
        Seq::empty()
    } else if s[i] == '<' {
        match find_from(s, '>', i + 1) {
            Some(j) => {
                proof {
                    lemma_find_from(s, '>', i + 1);
                }
                tag_text(s.subrange(i + 1, j)) + html_from(s, j + 1)
            },
            None => s.subrange(i, s.len() as int),
        }
    } else if s[i] == '&' {
        match entity_at(s, i) {
            Some(e) => seq![e.1] + html_from(s, i + e.0),
            None => seq!['&'] + html_from(s, i + 1),
        }
    } else {
        seq![s[i]] + html_from(s, i + 1)
    }
}

/// The plain text of an HTML fragment.
pub open spec fn html_text(s: Seq<char>) -> Seq<char> {
    html_from(s, 0)
}

fn pattern_at_exec(cs: &Vec<char>, i: usize, pat: &[char]) -> (r: bool)
    requires
        i <= cs@.len(),
    ensures
        r == pattern_at(cs@, i as int, pat@),
{
    let n = cs.len();
    let m = pat.len();
    if m > n - i {
        return false;
    }
    let mut j: usize = 0;
    while j < m
        invariant
            i + m <= n,
            n == cs@.len(),
            m == pat@.len(),
            j <= m,
            forall|k: int| 0 <= k < j ==> cs@[i + k] == pat@[k],
        decreases m - j,
    {
        if cs[i + j] != pat[j] {
            assert(cs@.subrange(i as int, i + m)[j as int] == cs@[i + j]);
            return false;
        }
        j = j + 1;
    }
    assert(cs@.subrange(i as int, i + m) =~= pat@);
    true
}

fn entity_at_exec(cs: &Vec<char>, i: usize) -> (r: Option<(usize, char)>)
    requires
        i <= cs@.len(),
    ensures
        match entity_at(cs@, i as int) {
            Some(e) => r matches Some(x) && x.0 == e.0 && x.1 == e.1,
            None => r is None,
        },
{
    let gt: [char; 4] = ['&', 'g', 't', ';'];
    let lt: [char; 4] = ['&', 'l', 't', ';'];
    let amp: [char; 5] = ['&', 'a', 'm', 'p', ';'];
    let quot: [char; 6] = ['&', 'q', 'u', 'o', 't', ';'];
    let apos: [char; 6] = ['&', '#', '0', '3', '9', ';'];
    assert(gt@ =~= seq!['&', 'g', 't', ';']);
    assert(lt@ =~= seq!['&', 'l', 't', ';']);
    assert(amp@ =~= seq!['&', 'a', 'm', 'p', ';']);
    assert(quot@ =~= seq!['&', 'q', 'u', 'o', 't', ';']);
    assert(apos@ =~= seq!['&', '#', '0', '3', '9', ';']);
    if pattern_at_exec(cs, i, gt.as_slice()) {
        Some((4, '>'))
    } else if pattern_at_exec(cs, i, lt.as_slice()) {
        Some((4, '<'))
    } else if pattern_at_exec(cs, i, amp.as_slice()) {
        Some((5, '&'))
    } else if pattern_at_exec(cs, i, quot.as_slice()) {
        Some((6, '"'))
    } else if pattern_at_exec(cs, i, apos.as_slice()) {
        Some((6, '\''))
    } else {
        None
    }
}

/// Renders an HTML fragment as plain text: tags are dropped (`<br>` becomes a
/// line break) and the entities `&gt;`, `&lt;`, `&amp;`, `&quot;` and `&#039;`
/// are decoded.
pub fn format_html(html: &str) -> (r: String)
    ensures
        r@ == html_text(html@),
{
    let cs = chars_of(html);
    let n = cs.len();
    let mut out = String::new();
    let mut i: usize = 0;
    while i < n
        invariant
            n == cs@.len(),
            cs@ == html@,
            i <= n,
            html_from(cs@, 0) == out@ + html_from(cs@, i as int),
        decreases n - i,
    {
        let c = cs[i];
        if c == '<' {
            let mut j: usize = i + 1;
            while j < n && cs[j] != '>'
                invariant
                    i < n,
                    n == cs@.len(),
                    i + 1 <= j <= n,
                    find_from(cs@, '>', i + 1) == find_from(cs@, '>', j as int),
                decreases n - j,
            {
                j = j + 1;
            }
            if j < n {
                assert(find_from(cs@, '>', i + 1) == Some(j as int));
                let is_br = j - i == 3 && cs[i + 1] == 'b' && cs[i + 2] == 'r';
                proof {
                    if j == i + 3 {
                        let tag = cs@.subrange(i + 1, j as int);
                        if is_br {
                            assert(tag =~= seq!['b', 'r']);
                        } else {
                            assert(tag[0] == cs@[i + 1]);
                            assert(tag[1] == cs@[i + 2]);
                        }
                    } else {
                        assert(cs@.subrange(i + 1, j as int).len() != 2);
                    }
                }
                let ghost before = out@;
                if is_br {
                    push_char(&mut out, '\n');
                }
                assert(out@ =~= before + tag_text(cs@.subrange(i + 1, j as int)));
                i = j + 1;
            } else {
                assert(find_from(cs@, '>', i + 1) is None);
                let ghost before = out@;
                let mut k: usize = i;
                while k < n
                    invariant
                        i <= k <= n,
                        n == cs@.len(),
                        out@ == before + cs@.subrange(i as int, k as int),
                    decreases n - k,
                {
                    push_char(&mut out, cs[k]);
                    assert(cs@.subrange(i as int, k + 1) =~= cs@.subrange(i as int, k as int).push(cs@[k as int]));
                    k = k + 1;
                }
                assert(html_from(cs@, n as int) =~= Seq::empty());
                assert(out@ =~= before + html_from(cs@, i as int));
                i = n;
            }
        } else if c == '&' {
            let ghost before = out@;
            match entity_at_exec(&cs, i) {
                Some((k, d)) => {
                    push_char(&mut out, d);
                    assert(out@ =~= before + seq![d]);
                    i = i + k;
                },
                None => {
                    push_char(&mut out, '&');
                    assert(out@ =~= before + seq!['&']);
                    i = i + 1;
                },
            }
        } else {
            let ghost before = out@;
            push_char(&mut out, c);
            assert(out@ =~= before + seq![c]);
            i = i + 1;
        }
    }
    assert(html_from(cs@, i as int) =~= Seq::empty());
    assert(out@ =~= out@ + html_from(cs@, i as int));
    out
}

} // verus!

verus! {

/// Text with no `<` and no `&` is its own plain text.
pub proof fn lemma_plain_text_unchanged(s: Seq<char>, i: int)
    requires
        0 <= i <= s.len(),
        forall|k: int| 0 <= k < s.len() ==> s[k] != '<' && s[k] != '&',
    ensures
        html_from(s, i) == s.subrange(i, s.len() as int),
    decreases s.len() - i,
{
    if i < s.len() {
        lemma_plain_text_unchanged(s, i + 1);
        assert(s.subrange(i, s.len() as int) =~= seq![s[i]] + s.subrange(i + 1, s.len() as int));
    } else {
        assert(s.subrange(i, s.len() as int) =~= Seq::<char>::empty());
    }
}

} // verus!
