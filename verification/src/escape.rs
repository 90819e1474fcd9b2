//! HTML escaping for interpolated text, so that user- and content-supplied
//! strings cannot inject markup into a rendered page.

use vstd::prelude::*;
use crate::strtools::{render_items, lemma_render_items_push};

verus! {

/// The replacement run for one character: the five HTML-significant
/// characters become entities, every other character stands unchanged.
pub open spec fn escape_char(c: char) -> Seq<char> {
    if c == '&' {
        "&amp;"@
    } else if c == '<' {
        "&lt;"@
    } else if c == '>' {
        "&gt;"@
    } else if c == '"' {
        "&quot;"@
    } else if c == '\'' {
        "&#39;"@
    } else {
        seq![c]
    }
}

/// A character that escaping leaves unchanged.
pub open spec fn is_plain_char(c: char) -> bool {
    c != '&' && c != '<' && c != '>' && c != '"' && c != '\''
}

/// The whole string, escaped character by character.
pub open spec fn escape_html(s: Seq<char>) -> Seq<char> {
    render_items(s, |c: char| escape_char(c))
}

/// Escaping a string without HTML-significant characters leaves it unchanged.
pub proof fn lemma_escape_plain_identity(s: Seq<char>)
    requires
        forall|i: int| 0 <= i < s.len() ==> is_plain_char(#[trigger] s[i]),
    ensures
        escape_html(s) == s,
    decreases s.len(),
{
    let f = |c: char| escape_char(c);
    if s.len() == 0 {
        assert(escape_html(s) =~= s);
    } else {
        assert(forall|i: int|
            0 <= i < s.drop_first().len() ==> #[trigger] s.drop_first()[i] == s[i + 1]);
        lemma_escape_plain_identity(s.drop_first());
        assert(render_items(s, f) == f(s[0]) + render_items(s.drop_first(), f));
        assert(f(s[0]) == seq![s[0]]);
        assert(seq![s[0]] + s.drop_first() =~= s);
    }
}

/// The string with every HTML-significant character replaced by its entity.
pub fn escape_html_text(s: &str) -> (r: String)
    ensures
        r@ == escape_html(s@),
{
    let ghost f = |c: char| escape_char(c);
    let n = s.unicode_len();
    let mut r = String::new();
    let mut i: usize = 0;
    assert(s@.subrange(0, 0) =~= Seq::<char>::empty());
    assert(render_items(Seq::<char>::empty(), f) == Seq::<char>::empty());
    while i < n
        invariant
            n == s@.len(),
            i <= n,
            f == (|c: char| escape_char(c)),
            r@ == render_items(s@.subrange(0, i as int), f),
        decreases n - i,
    {
        let c = s.get_char(i);
        if c == '&' {
            r.append("&amp;");
        } else if c == '<' {
            r.append("&lt;");
        } else if c == '>' {
            r.append("&gt;");
        } else if c == '"' {
            r.append("&quot;");
        } else if c == '\'' {
            r.append("&#39;");
        } else {
            let piece = s.substring_char(i, i + 1);
            proof {
                assert(piece@ =~= seq![c]);
            }
            r.append(piece);
        }
        proof {
            assert(f(c) == escape_char(c));
            lemma_render_items_push(s@.subrange(0, i as int), c, f);
            assert(s@.subrange(0, i + 1) =~= s@.subrange(0, i as int).push(s@[i as int]));
            assert(r@ == render_items(s@.subrange(0, i as int), f) + escape_char(c));
            assert(r@ == render_items(s@.subrange(0, i + 1), f));
        }
        i += 1;
    }
    assert(s@.subrange(0, n as int) =~= s@);
    r
}

} // verus!
