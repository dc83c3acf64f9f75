use vstd::prelude::*;

use crate::status::{Field, StatusFields};

verus! {

/// The index of the `}` that closes a placeholder whose name starts at `i`:
/// none when a `{` or the end of `t` comes first.
pub open spec fn close_at(t: Seq<char>, i: int) -> Option<int>
    decreases t.len() - i,
{
    if i < 0 || i >= t.len() {
        None
    } else if t[i] == '}' {
        Some(i)
    } else if t[i] == '{' {
        None
    } else {
        close_at(t, i + 1)
    }
}

/// The placeholder that `name` designates, if any.
pub open spec fn field_named(name: Seq<char>) -> Option<Field> {
    if name == "repeat"@ {
        Some(Field::Repeat)
    } else if name == "random"@ {
        Some(Field::Random)
    } else if name == "single"@ {
        Some(Field::Single)
    } else if name == "consume"@ {
        Some(Field::Consume)
    } else if name == "artist"@ {
        Some(Field::Artist)
    } else if name == "title"@ {
        Some(Field::Title)
    } else if name == "elapsed"@ {
        Some(Field::Elapsed)
    } else if name == "length"@ {
        Some(Field::Length)
    } else if name == "playback_info"@ {
        Some(Field::PlaybackInfo)
    } else if name == "volume"@ {
        Some(Field::Volume)
    } else {
        None
    }
}

/// From index `i` on, every `{` is closed by a `}` before the next `{`.
pub open spec fn well_formed_from(t: Seq<char>, i: int) -> bool
    decreases t.len() - i,
{
    if i < 0 || i >= t.len() {
        true
    } else if t[i] == '{' {
        match close_at(t, i + 1) {
            Some(c) => i < c < t.len() && well_formed_from(t, c + 1),
            None => false,
        }
    } else {
        well_formed_from(t, i + 1)
    }
}

/// A template whose placeholders are all closed.
pub open spec fn well_formed(t: Seq<char>) -> bool {
    well_formed_from(t, 0)
}

/// What the placeholder between `{` at `i` and `}` at `c` renders to: its
/// value when the name is known, else the placeholder as written.
pub open spec fn placeholder_text(t: Seq<char>, i: int, c: int, v: spec_fn(Field) -> Seq<char>) -> Seq<char> {
    match field_named(t.subrange(i + 1, c)) {
        Some(f) => v(f),
        None => t.subrange(i, c + 1),
    }
}

/// The rendering of `t` from index `i` on, with `v` giving each placeholder's value.
pub open spec fn render_from(t: Seq<char>, i: int, v: spec_fn(Field) -> Seq<char>) -> Seq<char>
    decreases t.len() - i,
{
    if i < 0 || i >= t.len() {
        Seq::empty()
    } else if t[i] == '{' && close_at(t, i + 1).is_some() {
        let c = close_at(t, i + 1).unwrap();
        if c <= i || c >= t.len() {
            Seq::empty()
        } else {
            placeholder_text(t, i, c, v) + render_from(t, c + 1, v)
        }
    } else {
        seq![t[i]] + render_from(t, i + 1, v)
    }
}

/// The rendering of the template `t`.
pub open spec fn render_text(t: Seq<char>, v: spec_fn(Field) -> Seq<char>) -> Seq<char> {
    render_from(t, 0, v)
}

proof fn lemma_close_at_bounds(t: Seq<char>, i: int)
    ensures
        close_at(t, i) matches Some(c) ==> i <= c < t.len() && t[c] == '}',
    decreases t.len() - i,
{
    if 0 <= i < t.len() && t[i] != '}' && t[i] != '{' {
        lemma_close_at_bounds(t, i + 1);
    }
}

/// Why a format string was refused.
#[derive(Clone, Copy, Debug, PartialEq, Eq, Structural)]
pub enum TemplateError {
    /// A `{` with no `}` before the next `{` or the end.
    UnclosedPlaceholder,
}

/// A format string with named placeholders such as `{title}`.
pub struct FormatTemplate {
    source: String,
    chars: Vec<char>,
}

impl FormatTemplate {
    /// The format string as written.
    pub closed spec fn view(&self) -> Seq<char> {
        self.source@
    }

    pub closed spec fn wf(&self) -> bool {
        self.chars@ == self.source@ && well_formed(self.source@)
    }

    /// Accepts `s` when each of its placeholders is closed.
    pub fn from_string(s: &str) -> (r: Result<FormatTemplate, TemplateError>)
        ensures
            well_formed(s@) <==> r is Ok,
            r matches Ok(t) ==> t.wf() && t@ == s@,
            r matches Err(e) ==> e == TemplateError::UnclosedPlaceholder,
    {
        let n = s.unicode_len();
        let mut chars: Vec<char> = Vec::new();
        let mut k: usize = 0;
        while k < n
            invariant
                n == s@.len(),
                k <= n,
                chars@ == s@.subrange(0, k as int),
            decreases n - k,
        {
            chars.push(s.get_char(k));
            k = k + 1;
            assert(chars@ =~= s@.subrange(0, k as int));
        }
        assert(chars@ =~= s@);
        if !check_well_formed(&chars) {
            return Err(TemplateError::UnclosedPlaceholder);
        }
        Ok(FormatTemplate { source: s.to_owned(), chars })
    }

    /// Renders the template, each known placeholder replaced by its text in
    /// `fields`; unknown placeholders stay as written.
    pub fn render(&self, fields: &StatusFields) -> (r: String)
        requires
            self.wf(),
        ensures
            r@ == render_text(self@, |f: Field| fields.text_of(f)),
    {
        let ghost v = |f: Field| fields.text_of(f);
        let ghost t = self.source@;
        let n = self.chars.len();
        let mut out = String::new();
        let mut i: usize = 0;
        while i < n
            invariant
                n == t.len(),
                self.chars@ == t,
                t == self.source@,
                i <= n,
                v == (|f: Field| fields.text_of(f)),
                out@ + render_from(t, i as int, v) == render_from(t, 0, v),
            decreases n - i,
        {
            let mut closed: Option<usize> = None;
            if self.chars[i] == '{' {
                closed = find_close(&self.chars, i + 1);
            }
            proof {
                lemma_close_at_bounds(t, i + 1);
            }
            match closed {
                Some(c) => {
                    let ghost before = out@;
                    match name_at(&self.chars, i + 1, c) {
                        Some(f) => {
                            out.append(fields.get(f).as_str());
                        },
                        None => {
                            out.append(self.source.as_str().substring_char(i, c + 1));
                        },
                    }
                    assert(out@ =~= before + placeholder_text(t, i as int, c as int, v));
                    i = c + 1;
                },
                None => {
                    out.append(self.source.as_str().substring_char(i, i + 1));
                    assert(t.subrange(i as int, i + 1) =~= seq![t[i as int]]);
                    i = i + 1;
                },
            }
        }
        out
    }
}

/// The index of the `}` that closes a placeholder whose name starts at `i`.
fn find_close(t: &Vec<char>, i: usize) -> (r: Option<usize>)
    ensures
        r matches Some(c) ==> close_at(t@, i as int) == Some(c as int),
        r is None ==> close_at(t@, i as int) is None,
{
    let mut j: usize = i;
    while j < t.len()
        invariant
            i <= j,
            close_at(t@, i as int) == close_at(t@, j as int),
        decreases t.len() - j,
    {
        if t[j] == '}' {
            return Some(j);
        }
        if t[j] == '{' {
            return None;
        }
        j = j + 1;
    }
    None
}

/// Whether the characters `from..to` of `t` spell `word`.
fn spells(t: &Vec<char>, from: usize, to: usize, word: &str) -> (r: bool)
    requires
        from <= to <= t@.len(),
    ensures
        r == (t@.subrange(from as int, to as int) == word@),
{
    let n = word.unicode_len();
    if to - from != n {
        return false;
    }
    let mut k: usize = 0;
    while k < n
        invariant
            n == word@.len(),
            to - from == n,
            from <= to <= t@.len(),
            k <= n,
            t@.subrange(from as int, from + k) == word@.subrange(0, k as int),
        decreases n - k,
    {
        if t[from + k] != word.get_char(k) {
            assert(t@.subrange(from as int, to as int)[k as int] != word@[k as int]);
            return false;
        }
        k = k + 1;
        assert(t@.subrange(from as int, from + k) =~= word@.subrange(0, k as int));
    }
    assert(t@.subrange(from as int, to as int) =~= word@);
    true
}

/// The placeholder that the characters `from..to` of `t` name.
fn name_at(t: &Vec<char>, from: usize, to: usize) -> (r: Option<Field>)
    requires
        from <= to <= t@.len(),
    ensures
        r == field_named(t@.subrange(from as int, to as int)),
{
    if spells(t, from, to, "repeat") {
        Some(Field::Repeat)
    } else if spells(t, from, to, "random") {
        Some(Field::Random)
    } else if spells(t, from, to, "single") {
        Some(Field::Single)
    } else if spells(t, from, to, "consume") {
        Some(Field::Consume)
    } else if spells(t, from, to, "artist") {
        Some(Field::Artist)
    } else if spells(t, from, to, "title") {
        Some(Field::Title)
    } else if spells(t, from, to, "elapsed") {
        Some(Field::Elapsed)
    } else if spells(t, from, to, "length") {
        Some(Field::Length)
    } else if spells(t, from, to, "playback_info") {
        Some(Field::PlaybackInfo)
    } else if spells(t, from, to, "volume") {
        Some(Field::Volume)
    } else {
        None
    }
}

/// Whether every placeholder of `t` is closed.
fn check_well_formed(t: &Vec<char>) -> (r: bool)
    ensures
        r == well_formed(t@),
{
    let mut i: usize = 0;
    while i < t.len()
        invariant
            i <= t@.len(),
            well_formed(t@) == well_formed_from(t@, i as int),
        decreases t.len() - i,
    {
        if t[i] == '{' {
            proof {
                lemma_close_at_bounds(t@, i + 1);
            }
            match find_close(t, i + 1) {
                Some(c) => {
                    i = c + 1;
                },
                None => {
                    return false;
                },
            }
        } else {
            i = i + 1;
        }
    }
    true
}

} // verus!
