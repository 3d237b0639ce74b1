//! The redaction engine: from rendered text and a policy to redacted text.
use vstd::prelude::*;
use vstd::string::StrSliceExecFns;
use vstd::string::StringExecFns;
use crate::flags::{RedactFlags, RedactionLength, RedactionStyle, RedactSpecialization};
use crate::text::{classes_of, classify, marked_count, push_char};

verus! {

/// Below this many alphanumeric characters, partial redaction redacts fully.
pub const MIN_PARTIAL_CHARS: usize = 5;

/// At most this many alphanumeric characters are exposed at each end.
pub const MAX_PARTIAL_EXPOSE: usize = 3;

/// The marks that apply to the characters of `s`: positions past the end of
/// `marks` are unmarked.
pub open spec fn marks_for(s: Seq<char>, marks: Seq<bool>) -> Seq<bool> {
    Seq::new(s.len(), |i: int| i < marks.len() && marks[i])
}

/// `s` with every marked character replaced by `fill`.
pub open spec fn full_marked(s: Seq<char>, marks: Seq<bool>, fill: char) -> Seq<char> {
    Seq::new(s.len(), |i: int| if marks_for(s, marks)[i] { fill } else { s[i] })
}

/// How many marked characters partial redaction exposes at each end of a
/// text holding `n` of them.
pub open spec fn expose_count(n: nat) -> nat {
    if n / 3 < MAX_PARTIAL_EXPOSE as nat { n / 3 } else { MAX_PARTIAL_EXPOSE as nat }
}

/// Whether position `i` lies in the hidden middle zone of the marks `m`: by
/// its rank among the marked positions, it is neither among the first nor
/// among the last `expose_count` of them.
pub open spec fn in_hidden_zone(m: Seq<bool>, i: int) -> bool {
    let n = marked_count(m);
    let e = expose_count(n);
    let k = marked_count(m.take(i));
    e <= k && k < n - e
}

/// Partial redaction of the marked characters of `s` with `fill`: with
/// fewer than five marked characters, all are replaced; otherwise all but
/// the first and last `expose_count` of them.
pub open spec fn partial_marked(s: Seq<char>, marks: Seq<bool>, fill: char) -> Seq<char> {
    let m = marks_for(s, marks);
    if marked_count(m) < MIN_PARTIAL_CHARS as nat {
        full_marked(s, marks, fill)
    } else {
        Seq::new(s.len(), |i: int| if m[i] && in_hidden_zone(m, i) { fill } else { s[i] })
    }
}

/// `s` with every alphanumeric character replaced by `fill`.
pub open spec fn full_spec(s: Seq<char>, fill: char) -> Seq<char> {
    full_marked(s, classes_of(s), fill)
}

/// Partial redaction of `s` with `fill`.
pub open spec fn partial_spec(s: Seq<char>, fill: char) -> Seq<char> {
    partial_marked(s, classes_of(s), fill)
}

/// `n` copies of `c`.
pub open spec fn fixed_spec(n: nat, c: char) -> Seq<char> {
    Seq::new(n, |i: int| c)
}

/// Full redaction under a style.
pub open spec fn full_styled(s: Seq<char>, style: RedactionStyle) -> Seq<char> {
    match style {
        RedactionStyle::Asterisks => full_spec(s, '*'),
        RedactionStyle::Char(c) => full_spec(s, c),
        RedactionStyle::Str(t) => t@,
    }
}

/// Partial redaction under a style.
pub open spec fn partial_styled(s: Seq<char>, style: RedactionStyle) -> Seq<char> {
    match style {
        RedactionStyle::Asterisks => partial_spec(s, '*'),
        RedactionStyle::Char(c) => partial_spec(s, c),
        RedactionStyle::Str(t) => t@,
    }
}

/// Full or partial redaction, as the policy's length says.
pub open spec fn masked(s: Seq<char>, flags: RedactFlags) -> Seq<char> {
    if flags.redact_length is Partial {
        partial_styled(s, flags.redact_style)
    } else {
        full_styled(s, flags.redact_style)
    }
}

/// The rendering of an absent optional value.
pub open spec fn none_text() -> Seq<char> {
    seq!['N', 'o', 'n', 'e']
}

/// The opening of a present optional value's rendering.
pub open spec fn some_open() -> Seq<char> {
    seq!['S', 'o', 'm', 'e', '(']
}

/// Whether `s` reads `Some(` + inner + `)`.
pub open spec fn is_some_shape(s: Seq<char>) -> bool {
    s.len() >= 6 && s.take(5) == some_open() && s.last() == ')'
}

/// The inner text of `Some(...)`.
pub open spec fn some_inner(s: Seq<char>) -> Seq<char> {
    s.subrange(5, s.len() - 1)
}

/// What the engine emits for the rendered text `s` under `flags`, with
/// redaction switched on.
pub open spec fn redact_spec(
    s: Seq<char>,
    flags: RedactFlags,
    specialization: Option<RedactSpecialization>,
) -> Seq<char> {
    match flags.redact_length {
        RedactionLength::Fixed(n) => match flags.redact_style {
            RedactionStyle::Asterisks => fixed_spec(n as nat, '*'),
            RedactionStyle::Char(c) => fixed_spec(n as nat, c),
            RedactionStyle::Str(t) => t@,
        },
        _ => if specialization is Some {
            if s == none_text() {
                s
            } else if is_some_shape(s) {
                some_open() + masked(some_inner(s), flags) + seq![')']
            } else {
                full_styled(s, flags.redact_style)
            }
        } else {
            masked(s, flags)
        },
    }
}

proof fn lemma_count_step(m: Seq<bool>, i: int)
    requires
        0 <= i < m.len(),
    ensures
        marked_count(m.take(i + 1)) == marked_count(m.take(i)) + if m[i] {
            1nat
        } else {
            0nat
        },
{
    assert(m.take(i + 1).drop_last() == m.take(i));
}

/// Whether position `i` of a text is marked.
fn is_marked(marks: &Vec<bool>, i: usize) -> (r: bool)
    ensures
        r == (i < marks@.len() && marks@[i as int]),
{
    i < marks.len() && marks[i]
}

/// Replaces every character of `to_redact` marked in `marks` with
/// `redact_char`.
pub fn redact_full_marked(to_redact: &str, marks: &Vec<bool>, redact_char: char) -> (r: String)
    ensures
        r@ == full_marked(to_redact@, marks@, redact_char),
{
    broadcast use vstd::string::group_string_axioms;
    let ghost s = to_redact@;
    let len = to_redact.unicode_len();
    let mut out = String::new();
    let mut i: usize = 0;
    for c in it: to_redact.chars()
        invariant
            it.seq() == s,
            s == to_redact@,
            s.len() == len,
            i == it.index(),
            out@.len() == i,
            forall|j: int| 0 <= j < i ==> out@[j] == full_marked(s, marks@, redact_char)[j],
    {
        if is_marked(marks, i) {
            push_char(&mut out, redact_char);
        } else {
            push_char(&mut out, c);
        }
        i = i + 1;
    }
    assert(out@ =~= full_marked(s, marks@, redact_char));
    out
}

/// Partially redacts the characters of `to_redact` marked in `marks`.
pub fn redact_partial_marked(to_redact: &str, marks: &Vec<bool>, redact_char: char) -> (r: String)
    ensures
        r@ == partial_marked(to_redact@, marks@, redact_char),
{
    broadcast use vstd::string::group_string_axioms;
    let ghost s = to_redact@;
    let ghost m = marks_for(s, marks@);
    let len = to_redact.unicode_len();
    let mut count: usize = 0;
    let mut i: usize = 0;
    while i < len
        invariant
            i <= len,
            len == s.len(),
            m == marks_for(s, marks@),
            count == marked_count(m.take(i as int)),
            count <= i,
        decreases len - i,
    {
        proof {
            lemma_count_step(m, i as int);
        }
        if is_marked(marks, i) {
            count = count + 1;
        }
        i = i + 1;
    }
    assert(m.take(len as int) == m);
    if count < MIN_PARTIAL_CHARS {
        return redact_full_marked(to_redact, marks, redact_char);
    }
    let third = count / 3;
    let expose = if third < MAX_PARTIAL_EXPOSE { third } else { MAX_PARTIAL_EXPOSE };
    let hidden_end = count - expose;
    let mut rank: usize = 0;
    let mut out = String::new();
    let mut i: usize = 0;
    for c in it: to_redact.chars()
        invariant
            it.seq() == s,
            s == to_redact@,
            s.len() == len,
            i == it.index(),
            m == marks_for(s, marks@),
            count == marked_count(m),
            count >= MIN_PARTIAL_CHARS,
            expose == expose_count(count as nat),
            hidden_end == count - expose,
            rank == marked_count(m.take(i as int)),
            rank <= i,
            out@.len() == i,
            forall|j: int| 0 <= j < i ==> out@[j] == partial_marked(s, marks@, redact_char)[j],
    {
        proof {
            lemma_count_step(m, i as int);
        }
        if is_marked(marks, i) {
            if expose <= rank && rank < hidden_end {
                push_char(&mut out, redact_char);
            } else {
                push_char(&mut out, c);
            }
            rank = rank + 1;
        } else {
            push_char(&mut out, c);
        }
        i = i + 1;
    }
    assert(out@ =~= partial_marked(s, marks@, redact_char));
    out
}

/// Replaces every alphanumeric character of `to_redact` with `redact_char`.
pub fn redact_full_with_char(to_redact: &str, redact_char: char) -> (r: String)
    ensures
        r@ == full_spec(to_redact@, redact_char),
{
    let marks = classify(to_redact);
    redact_full_marked(to_redact, &marks, redact_char)
}

/// Partially redacts `to_redact`: texts with fewer than five alphanumeric
/// characters are redacted fully; otherwise the first and last
/// `min(count / 3, 3)` alphanumerics are kept and those between replaced.
pub fn redact_partial_with_char(to_redact: &str, redact_char: char) -> (r: String)
    ensures
        r@ == partial_spec(to_redact@, redact_char),
{
    let marks = classify(to_redact);
    redact_partial_marked(to_redact, &marks, redact_char)
}

/// A mask of `width` copies of `redact_char`.
pub fn redact_fixed_char(width: usize, redact_char: char) -> (r: String)
    ensures
        r@ == fixed_spec(width as nat, redact_char),
{
    let mut out = String::new();
    let mut i: usize = 0;
    while i < width
        invariant
            i <= width,
            out@ == fixed_spec(i as nat, redact_char),
        decreases width - i,
    {
        push_char(&mut out, redact_char);
        i = i + 1;
        assert(out@ =~= fixed_spec(i as nat, redact_char));
    }
    out
}

/// A literal replacement, emitted verbatim whatever the declared width.
pub fn redact_fixed_str(replacement: &str) -> (r: String)
    ensures
        r@ == replacement@,
{
    String::from_str(replacement)
}

impl RedactFlags {
    /// Full redaction of `to_redact` under this policy's style.
    pub fn redact_full(&self, to_redact: &str) -> (r: String)
        ensures
            r@ == full_styled(to_redact@, self.redact_style),
    {
        match self.redact_style {
            RedactionStyle::Asterisks => redact_full_with_char(to_redact, '*'),
            RedactionStyle::Char(c) => redact_full_with_char(to_redact, c),
            RedactionStyle::Str(t) => redact_fixed_str(t),
        }
    }

    /// Partial redaction of `to_redact` under this policy's style.
    pub fn redact_partial(&self, to_redact: &str) -> (r: String)
        ensures
            r@ == partial_styled(to_redact@, self.redact_style),
    {
        match self.redact_style {
            RedactionStyle::Asterisks => redact_partial_with_char(to_redact, '*'),
            RedactionStyle::Char(c) => redact_partial_with_char(to_redact, c),
            RedactionStyle::Str(t) => redact_fixed_str(t),
        }
    }

    /// Full or partial redaction of `to_redact`, as the length says.
    pub fn redact_masked(&self, to_redact: &str) -> (r: String)
        ensures
            r@ == masked(to_redact@, *self),
    {
        match self.redact_length {
            RedactionLength::Partial => self.redact_partial(to_redact),
            _ => self.redact_full(to_redact),
        }
    }
}

} // verus!
