//! Format strings and the placeholders that are substituted into them.
use vstd::prelude::*;

use vstd::std_specs::cmp::PartialEqSpecImpl;

use crate::errors::{clone_opt_string, opt_view, Error};
use crate::text::{chars_of, occurs_at, replace_all, replace_str, str_eq};

verus! {

/// The text of a widget before placeholders are substituted: a full text
/// and a short one, each optional.
#[derive(Debug)]
pub struct Format {
    pub full_text: Option<String>,
    pub short_text: Option<String>,
}

impl Clone for Format {
    fn clone(&self) -> (res: Format)
        ensures
            res == *self,
    {
        Format { full_text: clone_opt_string(&self.full_text), short_text: clone_opt_string(&self.short_text) }
    }
}

/// A format as plain values.
pub struct FormatView {
    pub full_text: Option<Seq<char>>,
    pub short_text: Option<Seq<char>>,
}

impl View for Format {
    type V = FormatView;

    open spec fn view(&self) -> FormatView {
        FormatView { full_text: opt_view(self.full_text), short_text: opt_view(self.short_text) }
    }
}

/// Whether two optional strings are both absent or hold the same text.
fn opt_str_eq(a: &Option<String>, b: &Option<String>) -> (res: bool)
    ensures
        res == (opt_view(*a) == opt_view(*b)),
{
    match (a, b) {
        (Some(x), Some(y)) => str_eq(x.as_str(), y.as_str()),
        (None, None) => true,
        _ => false,
    }
}

impl PartialEq for Format {
    fn eq(&self, other: &Format) -> (res: bool) {
        opt_str_eq(&self.full_text, &other.full_text) && opt_str_eq(&self.short_text, &other.short_text)
    }
}

impl Eq for Format {}

impl PartialEqSpecImpl for Format {
    open spec fn obeys_eq_spec() -> bool {
        true
    }

    open spec fn eq_spec(&self, other: &Format) -> bool {
        self@ == other@
    }
}

impl Default for Format {
    fn default() -> (res: Format)
        ensures
            res@.full_text is None,
            res@.short_text is None,
    {
        Format { full_text: None, short_text: None }
    }
}

/// One placeholder and the text that stands for it.
pub type Entry = (Seq<char>, Seq<char>);

/// `s` after the placeholders of `entries` whose names have `len`
/// characters are substituted, each in turn in the order of `entries`:
/// every occurrence of the name is replaced by its text.
pub open spec fn substitute_round(s: Seq<char>, entries: Seq<Entry>, len: nat) -> Seq<char>
    decreases entries.len(),
{
    if entries.len() == 0 {
        s
    } else {
        let t = substitute_round(s, entries.drop_last(), len);
        let e = entries.last();
        if e.0.len() == len {
            replace_all(t, e.0, e.1)
        } else {
            t
        }
    }
}

/// `s` after the rounds of names of `len` characters, then of one fewer,
/// and so on down to the empty name.
pub open spec fn substitute_rounds(s: Seq<char>, entries: Seq<Entry>, len: nat) -> Seq<char>
    decreases len,
{
    let t = substitute_round(s, entries, len);
    if len == 0 {
        t
    } else {
        substitute_rounds(t, entries, (len - 1) as nat)
    }
}

/// The length of the longest name of `entries` (0 where there are none).
pub open spec fn longest_name(entries: Seq<Entry>) -> nat
    decreases entries.len(),
{
    if entries.len() == 0 {
        0
    } else {
        let m = longest_name(entries.drop_last());
        if entries.last().0.len() > m {
            entries.last().0.len()
        } else {
            m
        }
    }
}

/// `s` with each placeholder of `entries` replaced by its text, one
/// placeholder after the other as `str::replace` does it: longer names
/// first, so that no name replaces part of a longer one, and names of one
/// length in the order of `entries`. A text put in may itself be
/// substituted by a placeholder that comes later.
pub open spec fn substitute_all(s: Seq<char>, entries: Seq<Entry>) -> Seq<char> {
    substitute_rounds(s, entries, longest_name(entries))
}

/// The text that a format string gives with the placeholders: the format
/// with the placeholders substituted, the format alone where there are no
/// placeholders, and the empty text where there is no format.
pub open spec fn render_text(format: Option<Seq<char>>, placeholders: Option<Seq<Entry>>) -> Seq<char> {
    match format {
        Some(f) => match placeholders {
            Some(p) => substitute_all(f, p),
            None => f,
        },
        None => Seq::empty(),
    }
}

/// The placeholders of an optional set of placeholders.
pub open spec fn opt_entries(p: Option<Placeholders>) -> Option<Seq<Entry>> {
    match p {
        Some(p) => Some(p@),
        None => None,
    }
}

impl Format {
    /// A format with neither text.
    pub fn new() -> (res: Format)
        ensures
            res@.full_text is None,
            res@.short_text is None,
    {
        Format::default()
    }

    /// The same format with `full` as its full text.
    pub fn with_default(self, full: &str) -> (res: Format)
        ensures
            res@.full_text == Some(full@),
            res@.short_text == self@.short_text,
    {
        Format { full_text: Some(full.to_owned()), ..self }
    }

    /// A format with `full` as its full text and `short` as its short one.
    pub fn with_defaults(self, full: &str, short: &str) -> (res: Format)
        ensures
            res@.full_text == Some(full@),
            res@.short_text == Some(short@),
    {
        Format { full_text: Some(full.to_owned()), short_text: Some(short.to_owned()) }
    }

    /// A format with `full` as its full text and no short one (`FromStr`);
    /// it never fails.
    pub fn from_str(full: &str) -> (res: Result<Format, Error>)
        ensures
            res matches Ok(f) && f@.full_text == Some(full@) && f@.short_text is None,
    {
        Ok(Format { full_text: Some(full.to_owned()), short_text: None })
    }

    fn render_string(format: &Option<String>, placeholders: &Option<Placeholders>) -> (res: String)
        ensures
            res@ == render_text(opt_view(*format), opt_entries(*placeholders)),
    {
        match format {
            Some(f) => match placeholders {
                Some(p) => p.substitute(f.as_str()),
                None => f.clone(),
            },
            None => String::new(),
        }
    }

    /// The full and the short text, with the placeholders substituted.
    pub fn render(&self, placeholders: &Option<Placeholders>) -> (res: (String, String))
        ensures
            res.0@ == render_text(self@.full_text, opt_entries(*placeholders)),
            res.1@ == render_text(self@.short_text, opt_entries(*placeholders)),
    {
        let full_text = Format::render_string(&self.full_text, placeholders);
        let short_text = Format::render_string(&self.short_text, placeholders);
        (full_text, short_text)
    }
}

/// Whether no placeholder occurs twice in `entries`.
pub open spec fn distinct_keys(entries: Seq<Entry>) -> bool {
    forall|i: int, j: int| 0 <= i < j < entries.len() ==> #[trigger] entries[i].0 != #[trigger] entries[j].0
}

/// The placeholders of a widget: each a name such as `$used` with the text
/// that replaces it. No name occurs twice; they are kept in the order in
/// which they were first inserted, and substituted longer names first
/// (see `substitute_all`).
#[derive(Debug)]
pub struct Placeholders {
    entries: Vec<(String, String)>,
}

/// The placeholders and texts of a sequence of pairs of strings.
pub open spec fn entries_view(v: Seq<(String, String)>) -> Seq<Entry> {
    v.map_values(|e: (String, String)| (e.0@, e.1@))
}

impl View for Placeholders {
    type V = Seq<Entry>;

    closed spec fn view(&self) -> Seq<Entry> {
        entries_view(self.entries@)
    }
}

/// Whether `key` is a placeholder of `p`.
pub open spec fn has_key(p: Seq<Entry>, key: Seq<char>) -> bool {
    exists|i: int| 0 <= i < p.len() && p[i].0 == key
}

/// The position of `key` in `p`, where it is a placeholder.
pub open spec fn key_index(p: Seq<Entry>, key: Seq<char>) -> int {
    choose|i: int| 0 <= i < p.len() && p[i].0 == key
}

/// The text of `key` in `p`, if it is a placeholder.
pub open spec fn lookup(p: Seq<Entry>, key: Seq<char>) -> Option<Seq<char>> {
    if has_key(p, key) {
        Some(p[key_index(p, key)].1)
    } else {
        None
    }
}

/// `p` with the text of `key` set to `value`: in place where `key` is a
/// placeholder, else as the last one.
pub open spec fn inserted(p: Seq<Entry>, key: Seq<char>, value: Seq<char>) -> Seq<Entry> {
    if has_key(p, key) {
        p.update(key_index(p, key), (key, value))
    } else {
        p.push((key, value))
    }
}

/// In placeholders without repeated names, the name at position `i` is
/// found at `i`.
pub proof fn lemma_key_index(p: Seq<Entry>, i: int)
    requires
        distinct_keys(p),
        0 <= i < p.len(),
    ensures
        has_key(p, p[i].0),
        key_index(p, p[i].0) == i,
{
    let j = key_index(p, p[i].0);
    if j != i {
        if j < i {
            assert(p[j].0 != p[i].0);
        } else {
            assert(p[i].0 != p[j].0);
        }
    }
}

/// What a lookup gives back of an insert: the inserted text for the
/// inserted name, and what was there before for every other name; no name
/// occurs twice afterwards.
pub proof fn lemma_lookup_inserted(p: Seq<Entry>, key: Seq<char>, value: Seq<char>, other: Seq<char>)
    requires
        distinct_keys(p),
    ensures
        distinct_keys(inserted(p, key, value)),
        lookup(inserted(p, key, value), key) == Some(value),
        other != key ==> lookup(inserted(p, key, value), other) == lookup(p, other),
{
    let q = inserted(p, key, value);
    if has_key(p, key) {
        let k = key_index(p, key);
        assert(distinct_keys(q)) by {
            assert forall|a: int, b: int| 0 <= a < b < q.len() implies #[trigger] q[a].0 != #[trigger] q[b].0 by {
                if a != k && b != k {
                    assert(p[a].0 != p[b].0);
                } else if a == k {
                    assert(p[a].0 != p[b].0);
                } else {
                    assert(p[a].0 != p[b].0);
                }
            }
        }
        assert(q[k].0 == key);
        lemma_key_index(q, k);
        if other != key {
            if has_key(p, other) {
                let j = key_index(p, other);
                assert(j != k);
                assert(q[j] == p[j]);
                lemma_key_index(q, j);
            } else {
                assert forall|i: int| 0 <= i < q.len() implies q[i].0 != other by {
                    if i != k {
                        assert(q[i] == p[i]);
                    }
                }
            }
        }
    } else {
        let n = p.len() as int;
        assert(distinct_keys(q)) by {
            assert forall|a: int, b: int| 0 <= a < b < q.len() implies #[trigger] q[a].0 != #[trigger] q[b].0 by {
                if b < n {
                    assert(p[a].0 != p[b].0);
                } else {
                    assert(q[a] == p[a]);
                }
            }
        }
        lemma_key_index(q, n);
        if other != key {
            if has_key(p, other) {
                let j = key_index(p, other);
                assert(q[j] == p[j]);
                lemma_key_index(q, j);
            } else {
                assert forall|i: int| 0 <= i < q.len() implies q[i].0 != other by {
                    if i < n {
                        assert(q[i] == p[i]);
                    }
                }
            }
        }
    }
}

impl Clone for Placeholders {
    fn clone(&self) -> (res: Placeholders)
        ensures
            res@ == self@,
    {
        proof { use_type_invariant(self); }
        let mut entries: Vec<(String, String)> = Vec::new();
        let mut i: usize = 0;
        while i < self.entries.len()
            invariant
                i <= self.entries@.len(),
                distinct_keys(self@),
                entries_view(entries@) =~= self@.take(i as int),
            decreases self.entries.len() - i,
        {
            let k = self.entries[i].0.clone();
            let v = self.entries[i].1.clone();
            assert(self@[i as int] == (k@, v@));
            let ghost before = entries@;
            entries.push((k, v));
            assert(entries@ == before.push((k, v)));
            assert(entries_view(entries@) =~= entries_view(before).push((k@, v@)));
            assert(entries_view(entries@) =~= self@.take(i + 1));
            i = i + 1;
        }
        assert(self@.take(i as int) =~= self@);
        Placeholders { entries }
    }
}

impl Placeholders {
    #[verifier::type_invariant]
    spec fn well_formed(self) -> bool {
        distinct_keys(self@)
    }

    /// No placeholders.
    pub fn new() -> (res: Placeholders)
        ensures
            res@ == Seq::<Entry>::empty(),
    {
        let p = Placeholders { entries: Vec::new() };
        assert(p@ =~= Seq::<Entry>::empty());
        p
    }

    /// The number of placeholders.
    pub fn len(&self) -> (res: usize)
        ensures
            res == self@.len(),
    {
        self.entries.len()
    }

    /// Sets the text of `key` to `value`: in place where `key` is there
    /// already, else as the last placeholder.
    pub fn insert(&mut self, key: String, value: String)
        ensures
            forall|i: int| 0 <= i < old(self)@.len() && old(self)@[i].0 == key@ ==> final(self)@
                == old(self)@.update(i, (key@, value@)),
            (forall|i: int| 0 <= i < old(self)@.len() ==> old(self)@[i].0 != key@) ==> final(self)@
                == old(self)@.push((key@, value@)),
            final(self)@ == inserted(old(self)@, key@, value@),
            distinct_keys(final(self)@),
    {
        proof { use_type_invariant(&*self); }
        let ghost old_view = self@;
        let mut i: usize = 0;
        while i < self.entries.len()
            invariant
                i <= self.entries@.len(),
                old_view == self@,
                old_view == old(self)@,
                distinct_keys(self@),
                forall|k: int| 0 <= k < i ==> self@[k].0 != key@,
            decreases self.entries.len() - i,
        {
            assert(self@[i as int].0 == self.entries@[i as int].0@);
            if self.entries[i].0 == key {
                let mut entries: Vec<(String, String)> = Vec::new();
                std::mem::swap(&mut entries, &mut self.entries);
                let ghost before = entries@;
                entries.set(i, (key, value));
                proof {
                    let new_view = entries_view(entries@);
                    assert(new_view =~= old_view.update(i as int, (key@, value@)));
                    assert(distinct_keys(new_view)) by {
                        assert forall|a: int, b: int| 0 <= a < b < new_view.len() implies #[trigger] new_view[a].0 != #[trigger] new_view[b].0 by {
                            if a != i && b != i {
                                assert(old_view[a].0 != old_view[b].0);
                            }
                        }
                    }
                    assert forall|j: int| 0 <= j < old_view.len() && old_view[j].0 == key@ implies j == i by {
                        if j != i {
                            if j < i {
                                assert(old_view[j].0 != old_view[i as int].0);
                            } else {
                                assert(old_view[i as int].0 != old_view[j].0);
                            }
                        }
                    }
                }
                self.entries = entries;
                proof { lemma_key_index(old_view, i as int); }
                return;
            }
            i = i + 1;
        }
        let mut entries: Vec<(String, String)> = Vec::new();
        std::mem::swap(&mut entries, &mut self.entries);
        entries.push((key, value));
        proof {
            let new_view = entries_view(entries@);
            assert(new_view =~= old_view.push((key@, value@)));
            assert(distinct_keys(new_view)) by {
                assert forall|a: int, b: int| 0 <= a < b < new_view.len() implies #[trigger] new_view[a].0 != #[trigger] new_view[b].0 by {
                    if b < old_view.len() {
                        assert(old_view[a].0 != old_view[b].0);
                    }
                }
            }
        }
        self.entries = entries;
    }

    /// The text of `key`, if it is a placeholder.
    pub fn get(&self, key: &str) -> (res: Option<String>)
        ensures
            forall|i: int| 0 <= i < self@.len() && self@[i].0 == key@ ==> (res matches Some(r) && r@
                == self@[i].1),
            (forall|i: int| 0 <= i < self@.len() ==> self@[i].0 != key@) ==> res is None,
            opt_view(res) == lookup(self@, key@),
    {
        proof { use_type_invariant(self); }
        let k = key.to_owned();
        let mut i: usize = 0;
        while i < self.entries.len()
            invariant
                i <= self.entries@.len(),
                k@ == key@,
                distinct_keys(self@),
                forall|j: int| 0 <= j < i ==> self@[j].0 != key@,
            decreases self.entries.len() - i,
        {
            assert(self@[i as int].0 == self.entries@[i as int].0@);
            if self.entries[i].0 == k {
                assert(self.entries@[i as int].0@ == key@);
                proof {
                    assert forall|j: int| 0 <= j < self@.len() && self@[j].0 == key@ implies j == i by {
                        if j != i {
                            if j < i {
                                assert(self@[j].0 != self@[i as int].0);
                            } else {
                                assert(self@[i as int].0 != self@[j].0);
                            }
                        }
                    }
                }
                proof { lemma_key_index(self@, i as int); }
                return Some(self.entries[i].1.clone());
            }
            i = i + 1;
        }
        None
    }

    /// `s` with each placeholder replaced by its text: longer names first,
    /// names of one length in the order of insertion.
    pub fn substitute(&self, s: &str) -> (res: String)
        ensures
            res@ == substitute_all(s@, self@),
    {
        let mut lens: Vec<usize> = Vec::new();
        let mut m: usize = 0;
        let mut k: usize = 0;
        assert(self@.take(0) =~= Seq::<Entry>::empty());
        while k < self.entries.len()
            invariant
                k <= self.entries@.len(),
                self@.len() == self.entries@.len(),
                lens@.len() == k,
                forall|j: int| 0 <= j < k ==> #[trigger] lens@[j] == self@[j].0.len(),
                m == longest_name(self@.take(k as int)),
            decreases self.entries.len() - k,
        {
            assert(self@[k as int].0 == self.entries@[k as int].0@);
            assert(self@.take(k + 1).drop_last() =~= self@.take(k as int));
            assert(self@.take(k + 1).last() == self@[k as int]);
            let n = chars_of(self.entries[k].0.as_str()).len();
            lens.push(n);
            if n > m {
                m = n;
            }
            k = k + 1;
        }
        assert(self@.take(k as int) =~= self@);
        let mut out = s.to_owned();
        let mut len: usize = m;
        loop
            invariant_except_break
                lens@.len() == self@.len(),
                self@.len() == self.entries@.len(),
                forall|j: int| 0 <= j < lens@.len() ==> #[trigger] lens@[j] == self@[j].0.len(),
                substitute_all(s@, self@) == substitute_rounds(out@, self@, len as nat),
            ensures
                out@ == substitute_all(s@, self@),
            decreases len,
        {
            let ghost start = out@;
            let mut j: usize = 0;
            assert(self@.take(0) =~= Seq::<Entry>::empty());
            while j < lens.len()
                invariant
                    j <= lens@.len(),
                    lens@.len() == self@.len(),
                    self@.len() == self.entries@.len(),
                    forall|t: int| 0 <= t < lens@.len() ==> #[trigger] lens@[t] == self@[t].0.len(),
                    out@ == substitute_round(start, self@.take(j as int), len as nat),
                decreases lens.len() - j,
            {
                assert(self@.take(j + 1).drop_last() =~= self@.take(j as int));
                assert(self@.take(j + 1).last() == self@[j as int]);
                assert(self@[j as int] == (self.entries@[j as int].0@, self.entries@[j as int].1@));
                if lens[j] == len {
                    out = replace_str(out.as_str(), self.entries[j].0.as_str(), self.entries[j].1.as_str());
                }
                j = j + 1;
            }
            assert(self@.take(j as int) =~= self@);
            if len == 0 {
                break;
            }
            len = len - 1;
        }
        out
    }
}

} // verus!

verus! {

/// `s` is left as it is by a round whose names are not empty and do not
/// occur in it.
proof fn lemma_round_absent(s: Seq<char>, entries: Seq<Entry>, len: nat)
    requires
        forall|k: int| 0 <= k < entries.len() ==> (#[trigger] entries[k]).0.len() > 0,
        forall|k: int, i: int| 0 <= k < entries.len() ==> !#[trigger] occurs_at(s, entries[k].0, i),
    ensures
        substitute_round(s, entries, len) == s,
    decreases entries.len(),
{
    if entries.len() > 0 {
        let init = entries.drop_last();
        assert forall|k: int| 0 <= k < init.len() implies (#[trigger] init[k]).0.len() > 0 by {
            assert(init[k] == entries[k]);
        }
        assert forall|k: int, i: int| 0 <= k < init.len() implies !#[trigger] occurs_at(s, init[k].0, i) by {
            assert(init[k] == entries[k]);
        }
        lemma_round_absent(s, init, len);
        let e = entries.last();
        assert(e == entries[entries.len() - 1]);
        if e.0.len() == len {
            assert forall|i: int| !occurs_at(s, e.0, i) by {
                assert(!occurs_at(s, entries[entries.len() - 1].0, i));
            }
            crate::text::lemma_replace_absent(s, e.0, e.1);
        }
    }
}

proof fn lemma_rounds_absent(s: Seq<char>, entries: Seq<Entry>, len: nat)
    requires
        forall|k: int| 0 <= k < entries.len() ==> (#[trigger] entries[k]).0.len() > 0,
        forall|k: int, i: int| 0 <= k < entries.len() ==> !#[trigger] occurs_at(s, entries[k].0, i),
    ensures
        substitute_rounds(s, entries, len) == s,
    decreases len,
{
    lemma_round_absent(s, entries, len);
    if len > 0 {
        lemma_rounds_absent(s, entries, (len - 1) as nat);
    }
}

/// Placeholders whose names are not empty and do not occur in a text leave
/// it as it is; in particular a format renders as itself without
/// placeholders.
pub proof fn lemma_substitute_absent(s: Seq<char>, entries: Seq<Entry>)
    requires
        forall|k: int| 0 <= k < entries.len() ==> (#[trigger] entries[k]).0.len() > 0,
        forall|k: int, i: int| 0 <= k < entries.len() ==> !#[trigger] occurs_at(s, entries[k].0, i),
    ensures
        substitute_all(s, entries) == s,
        render_text(Some(s), Some(entries)) == s,
        render_text(Some(s), None) == s,
{
    lemma_rounds_absent(s, entries, longest_name(entries));
}

} // verus!
