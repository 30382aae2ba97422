//! The action metadata that reserve and stop requests carry: descriptive
//! fields kept for the service's own bookkeeping, each a string or null,
//! and the channel the request comes from.
use vstd::prelude::*;

use crate::text::opt_view;

verus! {

/// The channel that this client reports as the source of its actions.
pub const SOURCE_CHANNEL: &'static str = "WEBSITE";

/// The metadata object of a reserve or a stop.
#[derive(Debug, Clone, PartialEq, Eq)]
pub struct ActionMetadata {
    pub object_id: Option<String>,
    pub object_length: Option<String>,
    pub object_name: Option<String>,
    pub nr_of_persons: Option<String>,
    pub free_form_question_value: Option<String>,
    pub comment: Option<String>,
    pub source_channel: String,
}

/// The metadata as a mathematical value.
pub struct ActionMetadataView {
    pub object_id: Option<Seq<char>>,
    pub object_length: Option<Seq<char>>,
    pub object_name: Option<Seq<char>>,
    pub nr_of_persons: Option<Seq<char>>,
    pub free_form_question_value: Option<Seq<char>>,
    pub comment: Option<Seq<char>>,
    pub source_channel: Seq<char>,
}

impl View for ActionMetadata {
    type V = ActionMetadataView;

    open spec fn view(&self) -> ActionMetadataView {
        ActionMetadataView {
            object_id: opt_view(self.object_id),
            object_length: opt_view(self.object_length),
            object_name: opt_view(self.object_name),
            nr_of_persons: opt_view(self.nr_of_persons),
            free_form_question_value: opt_view(self.free_form_question_value),
            comment: opt_view(self.comment),
            source_channel: self.source_channel@,
        }
    }
}

/// Whether `s` can be written between quotes as it is: no quote, no
/// backslash and no control character.
pub open spec fn plain_text(s: Seq<char>) -> bool {
    forall|i: int|
        0 <= i < s.len() ==> #[trigger] s[i] != '"' && s[i] != '\\' && s[i] as u32 >= 32
}

/// Whether a nullable string can be written without escapes.
pub open spec fn plain_opt(o: Option<Seq<char>>) -> bool {
    match o {
        Some(s) => plain_text(s),
        None => true,
    }
}

/// `s` between quotes.
pub open spec fn quoted(s: Seq<char>) -> Seq<char> {
    seq!['"'] + s + seq!['"']
}

/// A nullable string as JSON: `null`, or the string between quotes.
pub open spec fn nullable_text(o: Option<Seq<char>>) -> Seq<char> {
    match o {
        Some(s) => quoted(s),
        None => "null"@,
    }
}

impl ActionMetadataView {
    /// Every string of the metadata can be written without escapes.
    pub open spec fn wf(self) -> bool {
        &&& plain_opt(self.object_id)
        &&& plain_opt(self.object_length)
        &&& plain_opt(self.object_name)
        &&& plain_opt(self.nr_of_persons)
        &&& plain_opt(self.free_form_question_value)
        &&& plain_opt(self.comment)
        &&& plain_text(self.source_channel)
    }

    /// The JSON text of the metadata, fields in a fixed order.
    pub open spec fn encoding(self) -> Seq<char> {
        field_text(
            "{\"objectId\":"@,
            self.object_id,
            field_text(
                ",\"objectLength\":"@,
                self.object_length,
                field_text(
                    ",\"objectName\":"@,
                    self.object_name,
                    field_text(
                        ",\"nrOfPersons\":"@,
                        self.nr_of_persons,
                        field_text(
                            ",\"freeFormQuestionValue\":"@,
                            self.free_form_question_value,
                            field_text(
                                ",\"comment\":"@,
                                self.comment,
                                field_text(
                                    ",\"sourceChannel\":"@,
                                    Some(self.source_channel),
                                    "}"@,
                                ),
                            ),
                        ),
                    ),
                ),
            ),
        )
    }
}

/// One field of the metadata as JSON, `key` holding the text up to the
/// value, followed by `tail`.
pub open spec fn field_text(key: Seq<char>, o: Option<Seq<char>>, tail: Seq<char>) -> Seq<char> {
    key + nullable_text(o) + tail
}

/// The metadata this client sends: every descriptive field null, and its
/// source channel.
pub open spec fn fixed_metadata() -> ActionMetadataView {
    ActionMetadataView {
        object_id: None,
        object_length: None,
        object_name: None,
        nr_of_persons: None,
        free_form_question_value: None,
        comment: None,
        source_channel: SOURCE_CHANNEL@,
    }
}

/// `s` without `lit` in front, when it starts with `lit`.
pub open spec fn after_literal(s: Seq<char>, lit: Seq<char>) -> Option<Seq<char>> {
    if lit.len() <= s.len() && s.subrange(0, lit.len() as int) == lit {
        Some(s.subrange(lit.len() as int, s.len() as int))
    } else {
        None
    }
}

/// The index of the first quote of `s` at or after `i`, or the length of
/// `s` when there is none.
pub open spec fn next_quote(s: Seq<char>, i: int) -> int
    decreases s.len() - i,
{
    if i < 0 || i >= s.len() {
        s.len() as int
    } else if s[i] == '"' {
        i
    } else {
        next_quote(s, i + 1)
    }
}

/// A plain string between quotes at the front of `s`, and what follows it.
pub open spec fn front_string(s: Seq<char>) -> Option<(Seq<char>, Seq<char>)> {
    if s.len() > 0 && s[0] == '"' {
        let j = next_quote(s, 1);
        if j < s.len() && plain_text(s.subrange(1, j)) {
            Some((s.subrange(1, j), s.subrange(j + 1, s.len() as int)))
        } else {
            None
        }
    } else {
        None
    }
}

/// A nullable string at the front of `s`, and what follows it.
pub open spec fn front_nullable(s: Seq<char>) -> Option<(Option<Seq<char>>, Seq<char>)> {
    match after_literal(s, "null"@) {
        Some(rest) => Some((None, rest)),
        None => match front_string(s) {
            Some((t, rest)) => Some((Some(t), rest)),
            None => None,
        },
    }
}

/// One field of the metadata at the front of `s`: the key text `key`, then
/// a nullable string; the value and what follows it.
#[verifier::opaque]
pub open spec fn field_at(s: Seq<char>, key: Seq<char>) -> Option<(Option<Seq<char>>, Seq<char>)> {
    match after_literal(s, key) {
        Some(rest) => front_nullable(rest),
        None => None,
    }
}

/// The field `key` where `s` holds text, nothing where it holds none.
pub open spec fn field_step(s: Option<Seq<char>>, key: Seq<char>) -> Option<
    (Option<Seq<char>>, Seq<char>),
> {
    match s {
        Some(t) => field_at(t, key),
        None => None,
    }
}

/// The text after a field that was read.
pub open spec fn rest_of(f: Option<(Option<Seq<char>>, Seq<char>)>) -> Option<Seq<char>> {
    match f {
        Some((_, rest)) => Some(rest),
        None => None,
    }
}

/// The value of a field that was read.
pub open spec fn value_of(f: Option<(Option<Seq<char>>, Seq<char>)>) -> Option<Seq<char>> {
    match f {
        Some((v, _)) => v,
        None => None,
    }
}

/// The metadata that the JSON text `s` holds, when it is written in the
/// layout that `encoding` produces.
pub open spec fn parse_metadata(s: Seq<char>) -> Option<ActionMetadataView> {
    let f1 = field_step(Some(s), "{\"objectId\":"@);
    let f2 = field_step(rest_of(f1), ",\"objectLength\":"@);
    let f3 = field_step(rest_of(f2), ",\"objectName\":"@);
    let f4 = field_step(rest_of(f3), ",\"nrOfPersons\":"@);
    let f5 = field_step(rest_of(f4), ",\"freeFormQuestionValue\":"@);
    let f6 = field_step(rest_of(f5), ",\"comment\":"@);
    let f7 = field_step(rest_of(f6), ",\"sourceChannel\":"@);
    if f7 is Some && value_of(f7) is Some && rest_of(f7) == Some("}"@) {
        Some(
            ActionMetadataView {
                object_id: value_of(f1),
                object_length: value_of(f2),
                object_name: value_of(f3),
                nr_of_persons: value_of(f4),
                free_form_question_value: value_of(f5),
                comment: value_of(f6),
                source_channel: value_of(f7).unwrap(),
            },
        )
    } else {
        None
    }
}

proof fn lemma_next_quote_bound(s: Seq<char>, i: int)
    requires
        0 <= i <= s.len(),
    ensures
        i <= next_quote(s, i) <= s.len(),
    decreases s.len() - i,
{
    if i < s.len() && s[i] != '"' {
        lemma_next_quote_bound(s, i + 1);
    }
}

proof fn lemma_next_quote(s: Seq<char>, i: int, j: int)
    requires
        0 <= i <= j < s.len(),
        s[j] == '"',
        forall|k: int| i <= k < j ==> s[k] != '"',
    ensures
        next_quote(s, i) == j,
    decreases j - i,
{
    if i < j {
        lemma_next_quote(s, i + 1, j);
    }
}

/// A key followed by a nullable string is read back as that string.
proof fn lemma_field_step(key: Seq<char>, o: Option<Seq<char>>, rest: Seq<char>)
    requires
        plain_opt(o),
    ensures
        field_step(Some(key + nullable_text(o) + rest), key) == Some((o, rest)),
{
    reveal(field_at);
    let s = key + nullable_text(o) + rest;
    assert(s.subrange(0, key.len() as int) =~= key);
    let after = s.subrange(key.len() as int, s.len() as int);
    assert(after =~= nullable_text(o) + rest);
    reveal_strlit("null");
    match o {
        Some(t) => {
            assert(after[0] == '"');
            assert(after_literal(after, "null"@) is None) by {
                if 4 <= after.len() {
                    assert(after.subrange(0, 4)[0] == '"');
                }
            }
            assert forall|k: int| 1 <= k < t.len() + 1 implies after[k] != '"' by {
                assert(after[k] == t[k - 1]);
            }
            lemma_next_quote(after, 1, t.len() as int + 1);
            assert(after.subrange(1, t.len() as int + 1) =~= t);
            assert(after.subrange(t.len() as int + 2, after.len() as int) =~= rest);
        },
        None => {
            assert(after.subrange(0, 4) =~= "null"@);
            assert(after.subrange(4, after.len() as int) =~= rest);
        },
    }
}

/// The metadata this client sends can be written without escapes.
pub proof fn lemma_fixed_metadata_wf()
    ensures
        fixed_metadata().wf(),
{
    reveal_strlit("WEBSITE");
}

/// Reading back the text of well-formed metadata gives the metadata.
pub proof fn lemma_metadata_round_trip(m: ActionMetadataView)
    requires
        m.wf(),
    ensures
        parse_metadata(m.encoding()) == Some(m),
{
    let t7 = "}"@;
    let t6 = field_text(",\"sourceChannel\":"@, Some(m.source_channel), t7);
    let t5 = field_text(",\"comment\":"@, m.comment, t6);
    let t4 = field_text(",\"freeFormQuestionValue\":"@, m.free_form_question_value, t5);
    let t3 = field_text(",\"nrOfPersons\":"@, m.nr_of_persons, t4);
    let t2 = field_text(",\"objectName\":"@, m.object_name, t3);
    let t1 = field_text(",\"objectLength\":"@, m.object_length, t2);
    lemma_field_step("{\"objectId\":"@, m.object_id, t1);
    lemma_field_step(",\"objectLength\":"@, m.object_length, t2);
    lemma_field_step(",\"objectName\":"@, m.object_name, t3);
    lemma_field_step(",\"nrOfPersons\":"@, m.nr_of_persons, t4);
    lemma_field_step(",\"freeFormQuestionValue\":"@, m.free_form_question_value, t5);
    lemma_field_step(",\"comment\":"@, m.comment, t6);
    lemma_field_step(",\"sourceChannel\":"@, Some(m.source_channel), t7);
}

/// Where `s`, read from `pos`, starts with `lit`: the position after it.
fn skip_literal(s: &str, n: usize, pos: usize, lit: &str) -> (r: Option<usize>)
    requires
        n == s@.len(),
        pos <= n,
    ensures
        match r {
            Some(p) => pos <= p <= n && after_literal(s@.subrange(pos as int, n as int), lit@)
                == Some(s@.subrange(p as int, n as int)),
            None => after_literal(s@.subrange(pos as int, n as int), lit@) is None,
        },
{
    let ghost u = s@.subrange(pos as int, n as int);
    let m = lit.unicode_len();
    if m > n - pos {
        return None;
    }
    let mut i: usize = 0;
    while i < m
        invariant
            n == s@.len(),
            pos + m <= n,
            m == lit@.len(),
            i <= m,
            u == s@.subrange(pos as int, n as int),
            u.subrange(0, i as int) == lit@.subrange(0, i as int),
        decreases m - i,
    {
        if s.get_char(pos + i) != lit.get_char(i) {
            assert(u.subrange(0, m as int)[i as int] != lit@[i as int]);
            return None;
        }
        assert(u.subrange(0, i + 1) =~= lit@.subrange(0, i + 1)) by {
            assert(u.subrange(0, i as int) == lit@.subrange(0, i as int));
            assert forall|k: int| 0 <= k < i + 1 implies #[trigger] u.subrange(0, i + 1)[k] == lit@.subrange(
                0,
                i + 1,
            )[k] by {
                if k < i {
                    assert(u.subrange(0, i as int)[k] == lit@.subrange(0, i as int)[k]);
                }
            }
        }
        i = i + 1;
    }
    assert(u.subrange(0, m as int) =~= lit@);
    assert(u.subrange(m as int, u.len() as int) =~= s@.subrange((pos + m) as int, n as int));
    Some(pos + m)
}

/// A plain string between quotes in `s` from `pos`: the string and the
/// position after its closing quote.
fn scan_string(s: &str, n: usize, pos: usize) -> (r: Option<(String, usize)>)
    requires
        n == s@.len(),
        pos <= n,
    ensures
        match r {
            Some((t, p)) => p <= n && front_string(s@.subrange(pos as int, n as int)) == Some(
                (t@, s@.subrange(p as int, n as int)),
            ),
            None => front_string(s@.subrange(pos as int, n as int)) is None,
        },
{
    let ghost u = s@.subrange(pos as int, n as int);
    if pos >= n || s.get_char(pos) != '"' {
        return None;
    }
    let mut j: usize = pos + 1;
    while j < n && s.get_char(j) != '"'
        invariant
            n == s@.len(),
            pos < j <= n,
            u == s@.subrange(pos as int, n as int),
            u[0] == '"',
            next_quote(u, 1) == next_quote(u, j - pos),
            plain_text(u.subrange(1, j - pos)),
        decreases n - j,
    {
        let c = s.get_char(j);
        if c == '\\' || (c as u32) < 32 {
            proof {
                lemma_next_quote_bound(u, j - pos + 1);
                let q = next_quote(u, 1);
                if q < u.len() {
                    assert(u.subrange(1, q)[j - pos - 1] == c);
                }
            }
            return None;
        }
        assert(plain_text(u.subrange(1, j - pos + 1))) by {
            assert forall|k: int| 0 <= k < j - pos implies #[trigger] u.subrange(1, j - pos + 1)[k]
                != '"' && u.subrange(1, j - pos + 1)[k] != '\\' && u.subrange(1, j - pos + 1)[k] as u32
                >= 32 by {
                if k < j - pos - 1 {
                    assert(u.subrange(1, j - pos + 1)[k] == u.subrange(1, j - pos)[k]);
                }
            }
        }
        j = j + 1;
    }
    if j >= n {
        return None;
    }
    let t = String::from_str(s.substring_char(pos + 1, j));
    assert(t@ =~= u.subrange(1, j - pos));
    assert(u.subrange(j - pos + 1, u.len() as int) =~= s@.subrange(j + 1, n as int));
    Some((t, j + 1))
}

/// A nullable string in `s` from `pos`, and the position after it.
fn scan_nullable(s: &str, n: usize, pos: usize) -> (r: Option<(Option<String>, usize)>)
    requires
        n == s@.len(),
        pos <= n,
    ensures
        match r {
            Some((v, p)) => p <= n && front_nullable(s@.subrange(pos as int, n as int)) == Some(
                (opt_view(v), s@.subrange(p as int, n as int)),
            ),
            None => front_nullable(s@.subrange(pos as int, n as int)) is None,
        },
{
    if let Some(p) = skip_literal(s, n, pos, "null") {
        return Some((None, p));
    }
    match scan_string(s, n, pos) {
        Some((t, p)) => Some((Some(t), p)),
        None => None,
    }
}

/// One field in `s` from `pos`: the key text `key`, then a nullable string.
fn scan_field(s: &str, n: usize, pos: usize, key: &str) -> (r: Option<(Option<String>, usize)>)
    requires
        n == s@.len(),
        pos <= n,
    ensures
        match r {
            Some((v, p)) => p <= n && field_step(Some(s@.subrange(pos as int, n as int)), key@)
                == Some((opt_view(v), s@.subrange(p as int, n as int))),
            None => field_step(Some(s@.subrange(pos as int, n as int)), key@) is None,
        },
{
    reveal(field_at);
    match skip_literal(s, n, pos, key) {
        Some(p) => scan_nullable(s, n, p),
        None => None,
    }
}

/// Whether `s` can be written between quotes as it is.
pub fn plain_str(s: &str) -> (r: bool)
    ensures
        r == plain_text(s@),
{
    let n = s.unicode_len();
    let mut i: usize = 0;
    while i < n
        invariant
            n == s@.len(),
            i <= n,
            forall|k: int|
                0 <= k < i ==> #[trigger] s@[k] != '"' && s@[k] != '\\' && s@[k] as u32 >= 32,
        decreases n - i,
    {
        let c = s.get_char(i);
        if c == '"' || c == '\\' || (c as u32) < 32 {
            return false;
        }
        i = i + 1;
    }
    true
}

fn plain_opt_text(o: &Option<String>) -> (r: bool)
    ensures
        r == plain_opt(opt_view(*o)),
{
    match o {
        Some(s) => plain_str(s.as_str()),
        None => true,
    }
}

fn field(key: &str, o: &Option<String>, tail: String) -> (r: String)
    ensures
        r@ == field_text(key@, opt_view(*o), tail@),
{
    let s = push_nullable(String::from_str(key), o);
    s.concat(tail.as_str())
}

fn push_nullable(out: String, o: &Option<String>) -> (r: String)
    ensures
        r@ == out@ + nullable_text(opt_view(*o)),
{
    match o {
        Some(s) => {
            let q = out.concat("\"");
            let q = q.concat(s.as_str());
            proof {
                reveal_strlit("\"");
            }
            let r = q.concat("\"");
            assert(r@ =~= out@ + quoted(s@));
            r
        },
        None => out.concat("null"),
    }
}

impl ActionMetadata {
    /// The metadata this client sends with every reserve and stop.
    pub fn fixed() -> (r: ActionMetadata)
        ensures
            r@ == fixed_metadata(),
    {
        ActionMetadata {
            object_id: None,
            object_length: None,
            object_name: None,
            nr_of_persons: None,
            free_form_question_value: None,
            comment: None,
            source_channel: String::from_str(SOURCE_CHANNEL),
        }
    }

    /// Reads metadata back from JSON text in the layout that `encode`
    /// writes.
    pub fn decode(text: &str) -> (r: Option<ActionMetadata>)
        ensures
            match r {
                Some(m) => parse_metadata(text@) == Some(m@),
                None => parse_metadata(text@) is None,
            },
    {
        let n = text.unicode_len();
        assert(text@.subrange(0, n as int) =~= text@);
        let (object_id, p) = match scan_field(text, n, 0, "{\"objectId\":") {
            Some(f) => f,
            None => return None,
        };
        let (object_length, p) = match scan_field(text, n, p, ",\"objectLength\":") {
            Some(f) => f,
            None => return None,
        };
        let (object_name, p) = match scan_field(text, n, p, ",\"objectName\":") {
            Some(f) => f,
            None => return None,
        };
        let (nr_of_persons, p) = match scan_field(text, n, p, ",\"nrOfPersons\":") {
            Some(f) => f,
            None => return None,
        };
        let (free_form_question_value, p) = match scan_field(
            text,
            n,
            p,
            ",\"freeFormQuestionValue\":",
        ) {
            Some(f) => f,
            None => return None,
        };
        let (comment, p) = match scan_field(text, n, p, ",\"comment\":") {
            Some(f) => f,
            None => return None,
        };
        let (source, p) = match scan_field(text, n, p, ",\"sourceChannel\":") {
            Some(f) => f,
            None => return None,
        };
        let source_channel = match source {
            Some(c) => c,
            None => return None,
        };
        let ghost rest = text@.subrange(p as int, n as int);
        let ghost close = "}"@;
        match skip_literal(text, n, p, "}") {
            Some(end) => {
                if end != n {
                    assert(rest != close) by {
                        if rest == close {
                            assert(rest.subrange(0, close.len() as int) =~= rest);
                            assert(rest.subrange(close.len() as int, rest.len() as int).len() == 0);
                            assert(text@.subrange(end as int, n as int).len() == n - end);
                        }
                    }
                    return None;
                }
                assert(rest =~= close) by {
                    assert(rest.subrange(0, close.len() as int) == close);
                    assert(rest.subrange(close.len() as int, rest.len() as int).len() == 0);
                }
            },
            None => {
                assert(rest != close) by {
                    if rest == close {
                        assert(rest.subrange(0, close.len() as int) =~= rest);
                    }
                }
                return None;
            },
        }
        Some(
            ActionMetadata {
                object_id,
                object_length,
                object_name,
                nr_of_persons,
                free_form_question_value,
                comment,
                source_channel,
            },
        )
    }

    /// Whether every string of the metadata can be written without escapes.
    pub fn is_plain(&self) -> (r: bool)
        ensures
            r == self@.wf(),
    {
        plain_opt_text(&self.object_id) && plain_opt_text(&self.object_length) && plain_opt_text(
            &self.object_name,
        ) && plain_opt_text(&self.nr_of_persons) && plain_opt_text(&self.free_form_question_value)
            && plain_opt_text(&self.comment) && plain_str(self.source_channel.as_str())
    }

    /// Writes the metadata as JSON; metadata holding a string that would
    /// need escapes is not written.
    pub fn encode(&self) -> (r: Option<String>)
        ensures
            self@.wf() ==> (r matches Some(t) && t@ == self@.encoding()),
            !self@.wf() ==> r is None,
    {
        if !self.is_plain() {
            return None;
        }
        let source = Some(self.source_channel.clone());
        let t = field(",\"sourceChannel\":", &source, String::from_str("}"));
        let t = field(",\"comment\":", &self.comment, t);
        let t = field(",\"freeFormQuestionValue\":", &self.free_form_question_value, t);
        let t = field(",\"nrOfPersons\":", &self.nr_of_persons, t);
        let t = field(",\"objectName\":", &self.object_name, t);
        let t = field(",\"objectLength\":", &self.object_length, t);
        Some(field("{\"objectId\":", &self.object_id, t))
    }
}

} // verus!
