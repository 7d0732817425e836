//! Escaping text for Pango markup.
use vstd::prelude::*;

use crate::text::{chars_of, push_char};

verus! {

/// The escape of one character in Pango markup.
pub open spec fn escape_char(c: char) -> Seq<char> {
    if c == '>' {
        "&gt;"@
    } else if c == '<' {
        "&lt;"@
    } else if c == '&' {
        "&amp;"@
    } else if c == '\'' {
        "&apos;"@
    } else if c == '"' {
        "&quot;"@
    } else {
        seq![c]
    }
}

/// `s` with each character escaped for Pango markup.
pub open spec fn escape_pango(s: Seq<char>) -> Seq<char>
    decreases s.len(),
{
    if s.len() == 0 {
        Seq::empty()
    } else {
        escape_pango(s.drop_last()) + escape_char(s.last())
    }
}

/// Escaping text for Pango markup.
pub trait PangoEscapeExt: Sized {
    /// The characters to escape.
    spec fn source_chars(self) -> Seq<char>;

    /// The characters with `>`, `<`, `&`, `'` and `"` replaced by their
    /// entities.
    fn escape_pango_format(self) -> (res: String)
        ensures
            res@ == escape_pango(Self::source_chars(self)),
    ;
}

impl<'a> PangoEscapeExt for &'a str {
    open spec fn source_chars(self) -> Seq<char> {
        self@
    }

    fn escape_pango_format(self) -> (res: String) {
        let v = chars_of(self);
        let mut t = String::new();
        let mut i: usize = 0;
        proof {
            reveal_strlit("&gt;");
            reveal_strlit("&lt;");
            reveal_strlit("&amp;");
            reveal_strlit("&apos;");
            reveal_strlit("&quot;");
        }
        while i < v.len()
            invariant
                i <= v@.len(),
                v@ == self@,
                t@ == escape_pango(v@.take(i as int)),
            decreases v.len() - i,
        {
            let c = v[i];
            assert(v@.take(i + 1).drop_last() =~= v@.take(i as int));
            let ghost before = t@;
            if c == '>' {
                t.append("&gt;");
            } else if c == '<' {
                t.append("&lt;");
            } else if c == '&' {
                t.append("&amp;");
            } else if c == '\'' {
                t.append("&apos;");
            } else if c == '"' {
                t.append("&quot;");
            } else {
                push_char(&mut t, c);
            }
            assert(t@ =~= before + escape_char(c));
            i = i + 1;
        }
        assert(v@.take(i as int) =~= v@);
        t
    }
}

} // verus!

verus! {

/// Escaped text holds none of the characters `<`, `>`, `"` and `'`.
pub proof fn lemma_escape_leaves_no_markup(s: Seq<char>)
    ensures
        forall|i: int|
            0 <= i < escape_pango(s).len() ==> {
                let c = #[trigger] escape_pango(s)[i];
                c != '<' && c != '>' && c != '"' && c != '\''
            },
    decreases s.len(),
{
    reveal_strlit("&gt;");
    reveal_strlit("&lt;");
    reveal_strlit("&amp;");
    reveal_strlit("&apos;");
    reveal_strlit("&quot;");
    if s.len() > 0 {
        lemma_escape_leaves_no_markup(s.drop_last());
        let a = escape_pango(s.drop_last());
        let b = escape_char(s.last());
        assert(escape_pango(s) == a + b);
        assert forall|i: int| 0 <= i < b.len() implies {
            let c = #[trigger] b[i];
            c != '<' && c != '>' && c != '"' && c != '\''
        } by {}
        assert forall|i: int| 0 <= i < escape_pango(s).len() implies {
            let c = #[trigger] escape_pango(s)[i];
            c != '<' && c != '>' && c != '"' && c != '\''
        } by {
            if i < a.len() {
                assert(escape_pango(s)[i] == a[i]);
            } else {
                assert(escape_pango(s)[i] == b[i - a.len()]);
            }
        }
    }
}

/// Text without any of the characters `<`, `>`, `&`, `'` and `"` is
/// left as it is.
pub proof fn lemma_escape_plain_text(s: Seq<char>)
    requires
        forall|i: int|
            0 <= i < s.len() ==> {
                let c = #[trigger] s[i];
                c != '<' && c != '>' && c != '&' && c != '"' && c != '\''
            },
    ensures
        escape_pango(s) == s,
    decreases s.len(),
{
    if s.len() > 0 {
        let p = s.drop_last();
        assert forall|i: int| 0 <= i < p.len() implies {
            let c = #[trigger] p[i];
            c != '<' && c != '>' && c != '&' && c != '"' && c != '\''
        } by {
            assert(p[i] == s[i]);
        }
        lemma_escape_plain_text(p);
        let c = s[s.len() - 1];
        assert(escape_char(c) == seq![c]);
        assert(p.push(c) =~= s);
        assert(p + seq![c] =~= p.push(c));
    }
}

} // verus!
