//! The contents of a file, such as `/proc/uptime`.
use vstd::prelude::*;
use vstd::utf8::{decode_utf8, valid_utf8};

use crate::errors::{error_text, Error, ErrorKind, ErrorView};
use crate::formatting::{Format, FormatView, Placeholders};
use crate::text::{chars_of, string_from_chars, trim_end, trim_end_chars};
use crate::widget::WidgetState;

verus! {

/// The settings of the module.
#[derive(Clone, Debug)]
pub struct Config {
    /// What replaces `$title`.
    pub title: String,
    /// The path of the file.
    pub path: String,
    /// The format (`"$title: $content"` where there is none).
    pub format: Option<Format>,
    /// The format where the file could not be read (`"$title: $error"`
    /// where there is none).
    pub format_bad: Option<Format>,
    /// The most characters that are shown (254 where none is given; never
    /// more than 4095).
    pub max_characters: Option<usize>,
}

/// The most characters that are shown.
pub fn max_chars(config: &Config) -> (res: usize)
    ensures
        res == (match config.max_characters {
            Some(m) => if m < 4095 { m } else { 4095 },
            None => 254,
        }),
{
    let m = match config.max_characters {
        Some(m) => m,
        None => 254,
    };
    if m < 4095 { m } else { 4095 }
}

/// The format where the file was read and the one where it was not.
pub fn widget_formats(config: &Config) -> (res: Result<(Format, Format), Error>)
    ensures
        res matches Ok((good, bad)) && {
            &&& good@ == (match config.format {
                Some(f) => f@,
                None => FormatView { full_text: Some("$title: $content"@), short_text: None },
            })
            &&& bad@ == (match config.format_bad {
                Some(f) => f@,
                None => FormatView { full_text: Some("$title: $error"@), short_text: None },
            })
        },
{
    let format = match &config.format {
        Some(f) => f.clone(),
        None => Format::from_str("$title: $content")?,
    };
    let format_bad = match &config.format_bad {
        Some(f) => f.clone(),
        None => Format::from_str("$title: $error")?,
    };
    Ok((format, format_bad))
}

/// The description of the UTF-8 error of `bytes`, as std's
/// `FromUtf8Error` gives it.
pub uninterp spec fn utf8_error_text(bytes: Seq<u8>) -> Seq<char>;

/// Decodes `bytes` as UTF-8 with `String::from_utf8`: the claim is that it
/// succeeds exactly on valid UTF-8, decoding it, and that the description
/// of its error depends on the bytes alone.
#[verifier::external_body]
fn string_from_utf8(bytes: &[u8]) -> (res: Result<String, String>)
    ensures
        res is Ok <==> valid_utf8(bytes@),
        res matches Ok(s) ==> s@ == decode_utf8(bytes@),
        res matches Err(m) ==> m@ == utf8_error_text(bytes@),
{
    match String::from_utf8(bytes.to_vec()) {
        Ok(s) => Ok(s),
        Err(e) => Err(e.to_string()),
    }
}

/// The text of a file whose first bytes are `bytes`: decoded, without
/// trailing white space, and cut to `max_chars` characters;
/// `"Invalid UTF-8 string"` where the bytes are not UTF-8.
pub fn contents_text(bytes: &[u8], max_chars: usize) -> (res: Result<String, Error>)
    ensures
        valid_utf8(bytes@) ==> (res matches Ok(s) && s@ == (if trim_end(decode_utf8(bytes@)).len()
            <= max_chars {
            trim_end(decode_utf8(bytes@))
        } else {
            trim_end(decode_utf8(bytes@)).take(max_chars as int)
        })),
        !valid_utf8(bytes@) ==> (res matches Err(e) && e@ == ErrorView {
            kind: ErrorKind::Other,
            message: Some("Invalid UTF-8 string"@),
            source: Some(utf8_error_text(bytes@)),
        }),
{
    match string_from_utf8(bytes) {
        Err(m) => Err(Error::new("Invalid UTF-8 string").with_source(m)),
        Ok(s) => {
            let v = chars_of(s.as_str());
            let t = trim_end_chars(&v);
            if t.len() <= max_chars {
                Ok(string_from_chars(t.as_slice()))
            } else {
                let mut out: Vec<char> = Vec::new();
                let mut i: usize = 0;
                while i < max_chars
                    invariant
                        i <= max_chars < t@.len(),
                        out@ == t@.take(i as int),
                    decreases max_chars - i,
                {
                    out.push(t[i]);
                    assert(out@ =~= t@.take(i + 1));
                    i = i + 1;
                }
                Ok(string_from_chars(out.as_slice()))
            }
        },
    }
}

/// The state, whether the format for a file that could not be read is
/// shown, and the placeholders: the title, the contents (empty where there
/// are none) and the error (empty where there is none).
pub fn contents_status(config: &Config, contents: &Result<String, Error>) -> (res: (WidgetState, bool, Placeholders))
    ensures
        res.0 == (if contents is Ok { WidgetState::Normal } else { WidgetState::Critical }),
        res.1 == (contents is Err),
        res.2@ == seq![
            ("$title"@, config.title@),
            ("$content"@, match contents { Ok(s) => s@, Err(_) => Seq::<char>::empty() }),
            ("$error"@, match contents { Ok(_) => Seq::<char>::empty(), Err(e) => error_text(e@) }),
        ],
{
    proof {
        reveal_strlit("$title");
        reveal_strlit("$content");
        reveal_strlit("$error");
    }
    let (content, error) = match contents {
        Ok(s) => (s.clone(), String::new()),
        Err(e) => (String::new(), e.to_string()),
    };
    let mut p = Placeholders::new();
    p.insert(String::from_str("$title"), config.title.clone());
    assert(p@ =~= seq![("$title"@, config.title@)]);
    assert(p@[0].0.len() != "$content"@.len());
    p.insert(String::from_str("$content"), content);
    assert(p@.len() == 2);
    assert(p@[0].0[1] != "$error"@[1]);
    assert(p@[1].0.len() != "$error"@.len());
    p.insert(String::from_str("$error"), error);
    let ghost c = match contents { Ok(s) => s@, Err(_) => Seq::<char>::empty() };
    let ghost e = match contents { Ok(_) => Seq::<char>::empty(), Err(e) => error_text(e@) };
    assert(p@ =~= seq![("$title"@, config.title@), ("$content"@, c), ("$error"@, e)]);
    match contents {
        Ok(_) => (WidgetState::Normal, false, p),
        Err(_) => (WidgetState::Critical, true, p),
    }
}

} // verus!
