//! Text: putting a name in place of a marker, and an order of texts.

use vstd::prelude::*;

verus! {

/// Appends a character: `String::push`.
///
/// What is claimed: the string afterwards is the string before with the character at its end.
pub assume_specification[ String::push ](string: &mut String, ch: char)
    ensures
        final(string)@ == old(string)@.push(ch),
;

/// What stands for the table's name in a query.
pub open spec fn marker() -> Seq<char> {
    "%%TABLE_NAME%%"@
}

/// A text with every occurrence of a pattern, taken from left to right without overlap, replaced.
pub open spec fn replaced(text: Seq<char>, pattern: Seq<char>, with: Seq<char>) -> Seq<char>
    decreases text.len(),
{
    if pattern.len() == 0 || text.len() < pattern.len() {
        text
    } else if pattern.is_prefix_of(text) {
        with + replaced(text.skip(pattern.len() as int), pattern, with)
    } else {
        seq![text[0]] + replaced(text.skip(1), pattern, with)
    }
}

/// A query with the table's name put in.
pub open spec fn substituted(query: Seq<char>, table_name: Seq<char>) -> Seq<char> {
    replaced(query, marker(), table_name)
}

proof fn lemma_replaced_head(text: Seq<char>, pattern: Seq<char>, with: Seq<char>)
    requires
        pattern.len() > 0,
        text.len() > 0,
        !pattern.is_prefix_of(text),
    ensures
        replaced(text, pattern, with) == seq![text[0]] + replaced(text.skip(1), pattern, with),
{
    if text.len() < pattern.len() {
        assert(text =~= seq![text[0]] + text.skip(1));
    }
}

/// Text in which the pattern's first character does not occur stays as it is, and what follows
/// it is replaced on its own.
pub proof fn lemma_replaced_after(
    start: Seq<char>,
    rest: Seq<char>,
    pattern: Seq<char>,
    with: Seq<char>,
)
    requires
        pattern.len() > 0,
        !start.contains(pattern[0]),
    ensures
        replaced(start + rest, pattern, with) == start + replaced(rest, pattern, with),
    decreases start.len(),
{
    if start.len() == 0 {
        assert(start + rest =~= rest);
        assert(start + replaced(rest, pattern, with) =~= replaced(rest, pattern, with));
    } else {
        let text = start + rest;
        assert(text[0] == start[0]);
        assert(start.contains(start[0]));
        assert(text.skip(1) =~= start.skip(1) + rest);
        assert(!start.skip(1).contains(pattern[0])) by {
            if start.skip(1).contains(pattern[0]) {
                let i = choose|i: int|
                    0 <= i < start.skip(1).len() && start.skip(1)[i] == pattern[0];
                assert(start[i + 1] == pattern[0]);
            }
        }
        lemma_replaced_head(text, pattern, with);
        lemma_replaced_after(start.skip(1), rest, pattern, with);
        assert(seq![start[0]] + (start.skip(1) + replaced(rest, pattern, with)) =~= start
            + replaced(rest, pattern, with));
    }
}

/// A pattern between two texts in which its first character does not occur is the one
/// occurrence.
pub proof fn lemma_replaced_between(
    start: Seq<char>,
    pattern: Seq<char>,
    end: Seq<char>,
    with: Seq<char>,
)
    requires
        pattern.len() > 0,
        !start.contains(pattern[0]),
        !end.contains(pattern[0]),
    ensures
        replaced(start + pattern + end, pattern, with) == start + with + end,
{
    assert(start + pattern + end =~= start + (pattern + end));
    lemma_replaced_after(start, pattern + end, pattern, with);
    assert(pattern.is_prefix_of(pattern + end));
    assert((pattern + end).skip(pattern.len() as int) =~= end);
    lemma_replaced_after(end, Seq::empty(), pattern, with);
    assert(end + Seq::<char>::empty() =~= end);
    assert(start + (with + end) =~= start + with + end);
}

fn chars_of(text: &str) -> (chars: Vec<char>)
    ensures
        chars@ == text@,
{
    let mut chars: Vec<char> = Vec::new();
    for c in it: text.chars()
        invariant
            chars@ =~= it.seq().take(it.index()),
            it.seq() == text@,
    {
        chars.push(c);
    }
    chars
}

fn occurs_at(chars: &Vec<char>, at: usize, pattern: &Vec<char>) -> (occurs: bool)
    requires
        at <= chars@.len(),
    ensures
        occurs == pattern@.is_prefix_of(chars@.skip(at as int)),
{
    if chars.len() - at < pattern.len() {
        return false;
    }
    let mut i: usize = 0;
    while i < pattern.len()
        invariant
            i <= pattern.len() <= chars.len() - at,
            forall|j: int| 0 <= j < i ==> chars@[at + j] == pattern@[j],
        decreases pattern@.len() - i,
    {
        if chars[at + i] != pattern[i] {
            proof {
                let rest = chars@.skip(at as int);
                assert(rest[i as int] != pattern@[i as int]);
                assert(rest.take(pattern@.len() as int)[i as int] == rest[i as int]);
            }
            return false;
        }
        i += 1;
    }
    assert(chars@.skip(at as int).take(pattern@.len() as int) =~= pattern@);
    true
}

/// Replaces every occurrence of a pattern.
pub(crate) fn replace(text: &str, pattern: &str, with: &str) -> (result: String)
    requires
        pattern@.len() > 0,
    ensures
        result@ == replaced(text@, pattern@, with@),
{
    let chars = chars_of(text);
    let wanted = chars_of(pattern);
    let mut result = String::new();
    let mut i: usize = 0;
    assert(chars@.skip(0) =~= chars@);
    while i < chars.len()
        invariant
            i <= chars@.len(),
            chars@ == text@,
            wanted@ == pattern@,
            pattern@.len() > 0,
            result@ + replaced(chars@.skip(i as int), pattern@, with@) == replaced(
                text@,
                pattern@,
                with@,
            ),
        decreases chars@.len() - i,
    {
        let ghost rest = chars@.skip(i as int);
        let ghost so_far = result@;
        if occurs_at(&chars, i, &wanted) {
            proof {
                assert(rest.skip(pattern@.len() as int) =~= chars@.skip(i + pattern@.len()));
            }
            result.append(with);
            i += wanted.len();
            assert(so_far + (with@ + replaced(chars@.skip(i as int), pattern@, with@)) =~= result@
                + replaced(chars@.skip(i as int), pattern@, with@));
        } else {
            proof {
                lemma_replaced_head(rest, pattern@, with@);
                assert(rest.skip(1) =~= chars@.skip(i + 1));
            }
            result.push(chars[i]);
            i += 1;
            assert(so_far + (seq![rest[0]] + replaced(chars@.skip(i as int), pattern@, with@))
                =~= result@ + replaced(chars@.skip(i as int), pattern@, with@));
        }
    }
    assert(result@ + replaced(chars@.skip(i as int), pattern@, with@) =~= result@);
    result
}

/// Whether two lists of bytes first differ at a position, where the first one has ended or has the
/// smaller byte.
pub open spec fn parts_at(a: Seq<u8>, b: Seq<u8>, at: int) -> bool {
    &&& 0 <= at <= a.len()
    &&& at < b.len()
    &&& forall|i: int| 0 <= i < at ==> a[i] == b[i]
    &&& at == a.len() || a[at] < b[at]
}

/// The order of texts: byte by byte, as they are encoded.
pub open spec fn sorts_before(a: Seq<char>, b: Seq<char>) -> bool {
    exists|at: int| #[trigger]
        parts_at(vstd::utf8::encode_utf8(a), vstd::utf8::encode_utf8(b), at)
}

/// No text sorts before itself, and of three texts the first sorts before the last where each
/// sorts before the next.
pub proof fn lemma_order_of_texts()
    ensures
        forall|a: Seq<char>| !#[trigger] sorts_before(a, a),
        forall|a: Seq<char>, b: Seq<char>, c: Seq<char>| #[trigger]
            sorts_before(a, b) && #[trigger] sorts_before(b, c) ==> sorts_before(a, c),
{
    assert forall|a: Seq<char>, b: Seq<char>, c: Seq<char>| #[trigger]
        sorts_before(a, b) && #[trigger] sorts_before(b, c) implies sorts_before(a, c) by {
        let (x, y, z) = (
            vstd::utf8::encode_utf8(a),
            vstd::utf8::encode_utf8(b),
            vstd::utf8::encode_utf8(c),
        );
        let i = choose|at: int| #[trigger] parts_at(x, y, at);
        let j = choose|at: int| #[trigger] parts_at(y, z, at);
        assert(parts_at(x, z, if i < j { i } else { j }));
    }
}

/// Where a text stands to another one.
#[derive(Clone, Copy, Debug, PartialEq, Eq, Structural)]
pub(crate) enum Place {
    Before,
    Same,
    After,
}

/// Where a text stands to another one in the order of texts.
pub(crate) fn place(text: &str, other: &str) -> (place: Place)
    ensures
        match place {
            Place::Before => sorts_before(text@, other@),
            Place::Same => text@ == other@,
            Place::After => sorts_before(other@, text@),
        },
{
    let a = text.as_bytes();
    let b = other.as_bytes();
    let mut i: usize = 0;
    while i < a.len() && i < b.len()
        invariant
            i <= a@.len(),
            i <= b@.len(),
            a@ == vstd::utf8::encode_utf8(text@),
            b@ == vstd::utf8::encode_utf8(other@),
            forall|j: int| 0 <= j < i ==> a@[j] == b@[j],
        decreases a@.len() - i,
    {
        if a[i] < b[i] {
            assert(parts_at(a@, b@, i as int));
            return Place::Before;
        }
        if b[i] < a[i] {
            assert(parts_at(b@, a@, i as int));
            return Place::After;
        }
        i += 1;
    }
    if i < b.len() {
        assert(parts_at(a@, b@, i as int));
        Place::Before
    } else if i < a.len() {
        assert(parts_at(b@, a@, i as int));
        Place::After
    } else {
        proof {
            assert(a@ =~= b@);
            vstd::utf8::encode_utf8_decode_utf8(text@);
            vstd::utf8::encode_utf8_decode_utf8(other@);
        }
        Place::Same
    }
}

}
