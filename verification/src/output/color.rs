//! Everything needed to manipulate colors.
use vstd::prelude::*;
use vstd::std_specs::cmp::PartialEqSpecImpl;
use vstd::utf8::encode_utf8;

use crate::errors::{error_with, Error};
use crate::text::{chars_of, str_eq};

verus! {

/// The number of bytes of the UTF-8 encoding of `s` (`str::len`).
pub open spec fn byte_len(s: Seq<char>) -> nat {
    encode_utf8(s).len()
}

/// Every character takes at least one byte; an ASCII character exactly one.
pub proof fn lemma_byte_len(s: Seq<char>)
    ensures
        byte_len(s) >= s.len(),
        (forall|i: int| 0 <= i < s.len() ==> (#[trigger] s[i] as u32) <= 0x7F) ==> byte_len(s) == s.len(),
        s.len() > 0 && (s[0] as u32) <= 0x7F ==> byte_len(s) == 1 + byte_len(s.drop_first()),
    decreases s.len(),
{
    if s.len() > 0 {
        lemma_byte_len(s.drop_first());
        if forall|i: int| 0 <= i < s.len() ==> (#[trigger] s[i] as u32) <= 0x7F {
            assert forall|i: int| 0 <= i < s.drop_first().len() implies (#[trigger] s.drop_first()[i] as u32) <= 0x7F by {
                assert(s.drop_first()[i] == s[i + 1]);
            }
        }
    }
}

/// Whether `c` is a hexadecimal digit, in either case.
pub open spec fn is_hex_digit(c: char) -> bool {
    ('0' <= c && c <= '9') || ('a' <= c && c <= 'f') || ('A' <= c && c <= 'F')
}

/// Whether every character of `d` is a hexadecimal digit.
pub open spec fn all_hex(d: Seq<char>) -> bool {
    forall|i: int| 0 <= i < d.len() ==> is_hex_digit(#[trigger] d[i])
}

/// The number of bytes that `c` takes in UTF-8.
pub open spec fn char_width(c: char) -> nat {
    if (c as u32) <= 0x7F {
        1
    } else if (c as u32) <= 0x7FF {
        2
    } else if (c as u32) <= 0xFFFF {
        3
    } else {
        4
    }
}

proof fn lemma_byte_len_front(s: Seq<char>)
    requires
        s.len() > 0,
    ensures
        byte_len(s) == char_width(s[0]) + byte_len(s.drop_first()),
{
    vstd::utf8::char_is_scalar(s[0]);
}

/// Whether `v` takes exactly `n` bytes in UTF-8.
fn byte_len_is(v: &Vec<char>, n: usize) -> (res: bool)
    ensures
        res == (byte_len(v@) == n),
{
    let mut acc: usize = 0;
    let mut i: usize = 0;
    assert(v@.skip(0) =~= v@);
    while i < v.len()
        invariant
            i <= v@.len(),
            acc <= n,
            byte_len(v@) == acc + byte_len(v@.skip(i as int)),
        decreases v.len() - i,
    {
        proof {
            lemma_byte_len_front(v@.skip(i as int));
            assert(v@.skip(i as int).drop_first() =~= v@.skip(i + 1));
            lemma_byte_len(v@.skip(i + 1));
        }
        let c = v[i];
        let w: usize = if (c as u32) <= 0x7F {
            1
        } else if (c as u32) <= 0x7FF {
            2
        } else if (c as u32) <= 0xFFFF {
            3
        } else {
            4
        };
        if w > n - acc {
            return false;
        }
        acc = acc + w;
        i = i + 1;
    }
    assert(v@.skip(i as int) =~= Seq::<char>::empty());
    acc == n
}

/// Whether `s` has the shape of a color: seven bytes, the first a `#`.
pub open spec fn color_shaped(s: Seq<char>) -> bool {
    byte_len(s) == 7 && s.len() > 0 && s[0] == '#'
}

/// Whether `s` is a color: a canonical RGB hexadecimal triplet, `#`
/// followed by exactly six hexadecimal digits.
pub open spec fn is_color(s: Seq<char>) -> bool {
    color_shaped(s) && s.len() == 7 && all_hex(s.drop_first())
}

/// A color: a string with a canonical RGB hexadecimal triplet and no
/// separator between colors, e.g. `"#FF0000"`.
#[derive(Debug)]
pub struct Color(String);

impl Color {
    #[verifier::type_invariant]
    spec fn well_formed(self) -> bool {
        is_color(self.0@)
    }

    /// The text of the color.
    pub closed spec fn spec_text(self) -> Seq<char> {
        self.0@
    }

    /// The white that a color is by default.
    pub fn new() -> (res: Color)
        ensures
            res@ == "#ffffff"@,
    {
        Self::default()
    }

    /// The text of the color (its `Display`), which is always one that
    /// `try_from` accepts.
    pub fn to_string(&self) -> (res: String)
        ensures
            res@ == self@,
            is_color(self@),
    {
        proof { use_type_invariant(self); }
        self.0.clone()
    }

    /// A color from a text known to be one.
    pub(crate) fn known(s: &str) -> (res: Color)
        requires
            is_color(s@),
        ensures
            res@ == s@,
    {
        Color(s.to_owned())
    }

    /// Reads a color: `"Bad color format"` where `c` is not seven bytes
    /// starting with `#`, `"Bad color value"` where the rest is not six
    /// hexadecimal digits.
    pub fn try_from(c: &str) -> (res: Result<Color, Error>)
        ensures
            !color_shaped(c@) ==> (res matches Err(e) && e@ == error_with("Bad color format"@)),
            color_shaped(c@) && !is_color(c@) ==> (res matches Err(e) && e@ == error_with(
                "Bad color value"@,
            )),
            is_color(c@) ==> (res matches Ok(col) && col@ == c@),
    {
        let v = chars_of(c);
        if !(byte_len_is(&v, 7) && v.len() > 0 && v[0] == '#') {
            return Err(Error::new("Bad color format"));
        }
        assert(v@ == c@);
        assert(color_shaped(c@));
        if v.len() != 7 {
            return Err(Error::new("Bad color value"));
        }
        let mut i: usize = 1;
        while i < 7
            invariant
                1 <= i <= 7,
                v@ == c@,
                v@.len() == 7,
                color_shaped(c@),
                forall|k: int| 0 <= k < i - 1 ==> is_hex_digit(#[trigger] c@.drop_first()[k]),
            decreases 7 - i,
        {
            let ch = v[i];
            assert(c@.drop_first()[i - 1] == ch);
            if !(('0' <= ch && ch <= '9') || ('a' <= ch && ch <= 'f') || ('A' <= ch && ch <= 'F')) {
                return Err(Error::new("Bad color value"));
            }
            i = i + 1;
        }
        Ok(Color(c.to_owned()))
    }
}

impl Clone for Color {
    fn clone(&self) -> (res: Color)
        ensures
            res == *self,
    {
        proof { use_type_invariant(self); }
        Color(self.0.clone())
    }
}

impl PartialEq for Color {
    fn eq(&self, other: &Color) -> (res: bool) {
        str_eq(self.0.as_str(), other.0.as_str())
    }
}

impl Eq for Color {}

impl PartialEqSpecImpl for Color {
    open spec fn obeys_eq_spec() -> bool {
        true
    }

    open spec fn eq_spec(&self, other: &Color) -> bool {
        self@ == other@
    }
}

impl View for Color {
    type V = Seq<char>;

    open spec fn view(&self) -> Seq<char> {
        self.spec_text()
    }
}

impl Default for Color {
    fn default() -> (res: Color)
        ensures
            res@ == "#ffffff"@,
    {
        proof {
            reveal_strlit("#ffffff");
            lemma_byte_len("#ffffff"@);
        }
        Color::known("#ffffff")
    }
}

} // verus!
