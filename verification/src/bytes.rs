//! Byte strings: comparison, trimming and splitting, as HTTP needs them.

use vstd::prelude::*;
use vstd::slice::slice_subrange;

verus! {

/// The comma, which separates the members of a list-valued header.
pub const COMMA: u8 = 44;

/// The ampersand, which separates the parameters of a query.
pub const AMPERSAND: u8 = 38;

/// The equals sign, which separates a parameter's name from its value.
pub const EQUALS: u8 = 61;

/// The question mark, which starts a query.
pub const QUESTION_MARK: u8 = 63;

/// The slash, which starts a path.
pub const SLASH: u8 = 47;

/// The byte that parts a target from its fragment.
pub const NUMBER_SIGN: u8 = 35;

/// A byte with an upper-case ASCII letter made lower-case.
pub open spec fn lower_byte(b: u8) -> u8 {
    if 65 <= b <= 90 { (b + 32) as u8 } else { b }
}

/// The bytes with every upper-case ASCII letter made lower-case.
pub open spec fn lower(s: Seq<u8>) -> Seq<u8> {
    s.map_values(|b: u8| lower_byte(b))
}

/// Whether a byte is ASCII white space.
pub open spec fn is_space(b: u8) -> bool {
    9 <= b <= 13 || b == 32
}

/// The bytes without the white space at their start.
pub open spec fn trim_start(s: Seq<u8>) -> Seq<u8>
    decreases s.len(),
{
    if s.len() > 0 && is_space(s[0]) { trim_start(s.skip(1)) } else { s }
}

/// The bytes without the white space at their end.
pub open spec fn trim_end(s: Seq<u8>) -> Seq<u8>
    decreases s.len(),
{
    if s.len() > 0 && is_space(s.last()) { trim_end(s.drop_last()) } else { s }
}

/// The bytes without the white space at both ends.
pub open spec fn trimmed(s: Seq<u8>) -> Seq<u8> {
    trim_end(trim_start(s))
}

/// The pieces between the separators: one more than there are separators, so
/// one empty piece where there are no bytes at all.
pub open spec fn split_at_each(s: Seq<u8>, sep: u8) -> Seq<Seq<u8>>
    decreases s.len(),
{
    if s.len() == 0 {
        seq![Seq::<u8>::empty()]
    } else {
        let pieces = split_at_each(s.drop_last(), sep);
        if s.last() == sep {
            pieces.push(Seq::empty())
        } else {
            pieces.drop_last().push(pieces.last().push(s.last()))
        }
    }
}

/// The pieces with the separator between each two.
pub open spec fn joined(pieces: Seq<Seq<u8>>, sep: Seq<u8>) -> Seq<u8>
    decreases pieces.len(),
{
    if pieces.len() == 0 {
        Seq::empty()
    } else if pieces.len() == 1 {
        pieces[0]
    } else {
        joined(pieces.drop_last(), sep) + sep + pieces.last()
    }
}

/// Whether `s` starts with `prefix`.
pub open spec fn has_prefix(s: Seq<u8>, prefix: Seq<u8>) -> bool {
    prefix.len() <= s.len() && s.take(prefix.len() as int) == prefix
}

/// Whether a byte may stand in a header value that is read as text: a tab, or a
/// visible ASCII character or space.
pub open spec fn text_byte(b: u8) -> bool {
    b == 9 || 32 <= b < 127
}

/// Whether a header value can be read as text.
pub open spec fn is_text(s: Seq<u8>) -> bool {
    forall|i: int| 0 <= i < s.len() ==> text_byte(#[trigger] s[i])
}

/// A table of byte strings as a table of what they hold.
pub open spec fn views(table: Seq<Vec<u8>>) -> Seq<Seq<u8>> {
    table.map_values(|v: Vec<u8>| v@)
}

/// Whether two byte strings are equal.
pub fn same_bytes(a: &[u8], b: &[u8]) -> (same: bool)
    ensures
        same == (a@ == b@),
{
    if a.len() != b.len() {
        return false;
    }
    let mut i: usize = 0;
    while i < a.len()
        invariant
            a@.len() == b@.len(),
            i <= a@.len(),
            forall|k: int| 0 <= k < i ==> a@[k] == b@[k],
        decreases a@.len() - i,
    {
        if a[i] != b[i] {
            return false;
        }
        i = i + 1;
    }
    proof {
        assert(a@ =~= b@);
    }
    true
}

/// A byte with an upper-case ASCII letter made lower-case.
pub fn to_lower_byte(b: u8) -> (r: u8)
    ensures
        r == lower_byte(b),
{
    if 65 <= b && b <= 90 {
        b + 32
    } else {
        b
    }
}

/// Whether two byte strings are equal but for the case of ASCII letters.
pub fn eq_ignore_ascii_case(a: &[u8], b: &[u8]) -> (same: bool)
    ensures
        same == (lower(a@) == lower(b@)),
{
    if a.len() != b.len() {
        proof {
            assert(lower(a@).len() != lower(b@).len());
        }
        return false;
    }
    let mut i: usize = 0;
    while i < a.len()
        invariant
            a@.len() == b@.len(),
            i <= a@.len(),
            forall|k: int| 0 <= k < i ==> lower_byte(a@[k]) == lower_byte(b@[k]),
        decreases a@.len() - i,
    {
        if to_lower_byte(a[i]) != to_lower_byte(b[i]) {
            proof {
                assert(lower(a@)[i as int] != lower(b@)[i as int]);
            }
            return false;
        }
        i = i + 1;
    }
    proof {
        assert(lower(a@) =~= lower(b@));
    }
    true
}

/// Whether a byte string starts with another.
pub fn starts_with(s: &[u8], prefix: &[u8]) -> (yes: bool)
    ensures
        yes == has_prefix(s@, prefix@),
{
    if prefix.len() > s.len() {
        return false;
    }
    let mut i: usize = 0;
    while i < prefix.len()
        invariant
            prefix@.len() <= s@.len(),
            i <= prefix@.len(),
            forall|k: int| 0 <= k < i ==> s@[k] == prefix@[k],
        decreases prefix@.len() - i,
    {
        if s[i] != prefix[i] {
            proof {
                assert(s@.take(prefix@.len() as int)[i as int] != prefix@[i as int]);
            }
            return false;
        }
        i = i + 1;
    }
    proof {
        assert(s@.take(prefix@.len() as int) =~= prefix@);
    }
    true
}

/// Whether the bytes can be read as header text.
pub fn is_header_text(s: &[u8]) -> (yes: bool)
    ensures
        yes == is_text(s@),
{
    let mut i: usize = 0;
    while i < s.len()
        invariant
            i <= s@.len(),
            forall|k: int| 0 <= k < i ==> text_byte(#[trigger] s@[k]),
        decreases s@.len() - i,
    {
        if !(s[i] == 9 || (32 <= s[i] && s[i] < 127)) {
            return false;
        }
        i = i + 1;
    }
    true
}

/// The bytes without the ASCII white space at both ends.
pub fn trim(s: &[u8]) -> (r: &[u8])
    ensures
        r@ == trimmed(s@),
{
    let mut from: usize = 0;
    proof {
        assert(s@.skip(0) =~= s@);
    }
    while from < s.len() && ((9 <= s[from] && s[from] <= 13) || s[from] == 32)
        invariant
            from <= s@.len(),
            trim_start(s@) == trim_start(s@.skip(from as int)),
        decreases s@.len() - from,
    {
        proof {
            assert(s@.skip(from as int).skip(1) =~= s@.skip(from + 1));
        }
        from = from + 1;
    }
    let mut to: usize = s.len();
    proof {
        assert(s@.subrange(from as int, to as int) =~= s@.skip(from as int));
        assert(trim_start(s@) == s@.skip(from as int));
    }
    while from < to && ((9 <= s[to - 1] && s[to - 1] <= 13) || s[to - 1] == 32)
        invariant
            from <= to <= s@.len(),
            trimmed(s@) == trim_end(s@.subrange(from as int, to as int)),
        decreases to - from,
    {
        proof {
            assert(s@.subrange(from as int, to as int).drop_last() =~= s@.subrange(
                from as int,
                to - 1,
            ));
        }
        to = to - 1;
    }
    slice_subrange(s, from, to)
}

/// Where the first byte equal to `wanted` stands.
pub fn find_byte(s: &[u8], wanted: u8) -> (at: Option<usize>)
    ensures
        match at {
            Some(i) => i < s@.len() && s@[i as int] == wanted && forall|k: int|
                0 <= k < i ==> s@[k] != wanted,
            None => !s@.contains(wanted),
        },
{
    let mut i: usize = 0;
    while i < s.len()
        invariant
            i <= s@.len(),
            forall|k: int| 0 <= k < i ==> s@[k] != wanted,
        decreases s@.len() - i,
    {
        if s[i] == wanted {
            return Some(i);
        }
        i = i + 1;
    }
    None
}

/// Where the first byte equal to `wanted` stands, or the length where there is
/// none.
pub open spec fn first_or_len(s: Seq<u8>, wanted: u8) -> int
    decreases s.len(),
{
    if s.len() == 0 || s[0] == wanted { 0 } else { 1 + first_or_len(s.skip(1), wanted) }
}

pub(crate) proof fn lemma_first_or_len(s: Seq<u8>, wanted: u8, at: int)
    requires
        0 <= at <= s.len(),
        forall|k: int| 0 <= k < at ==> s[k] != wanted,
        at < s.len() ==> s[at] == wanted,
    ensures
        first_or_len(s, wanted) == at,
    decreases at,
{
    if at > 0 {
        let rest: Seq<u8> = s.skip(1);
        assert forall|k: int| 0 <= k < at - 1 implies rest[k] != wanted by {
            assert(rest[k] == s[k + 1]);
        }
        lemma_first_or_len(rest, wanted, at - 1);
    }
}

/// A copy of the bytes.
pub fn copy_of(s: &[u8]) -> (r: Vec<u8>)
    ensures
        r@ == s@,
{
    let mut r: Vec<u8> = Vec::new();
    r.extend_from_slice(s);
    proof {
        assert(r@ =~= s@);
    }
    r
}

/// The pieces between the separators.
pub fn split(s: &[u8], sep: u8) -> (pieces: Vec<Vec<u8>>)
    ensures
        views(pieces@) == split_at_each(s@, sep),
{
    let mut pieces: Vec<Vec<u8>> = Vec::new();
    let mut piece: Vec<u8> = Vec::new();
    let mut i: usize = 0;
    proof {
        assert(s@.take(0) =~= Seq::<u8>::empty());
        assert(views(pieces@).push(piece@) =~= split_at_each(s@.take(0), sep));
    }
    while i < s.len()
        invariant
            i <= s@.len(),
            views(pieces@).push(piece@) =~= split_at_each(s@.take(i as int), sep),
        decreases s@.len() - i,
    {
        let ghost before: Seq<Seq<u8>> = views(pieces@);
        proof {
            assert(s@.take(i + 1).drop_last() =~= s@.take(i as int));
            assert(before.push(piece@).drop_last() =~= before);
        }
        if s[i] == sep {
            let ghost done: Seq<u8> = piece@;
            pieces.push(piece);
            piece = Vec::new();
            proof {
                assert(views(pieces@) =~= before.push(done));
            }
        } else {
            piece.push(s[i]);
        }
        i = i + 1;
    }
    let ghost before: Seq<Seq<u8>> = views(pieces@);
    let ghost last: Seq<u8> = piece@;
    pieces.push(piece);
    proof {
        assert(s@.take(i as int) =~= s@);
        assert(views(pieces@) =~= before.push(last));
    }
    pieces
}

/// The pieces with the separator between each two.
pub fn join(pieces: &Vec<Vec<u8>>, sep: &[u8]) -> (r: Vec<u8>)
    ensures
        r@ == joined(views(pieces@), sep@),
{
    let mut r: Vec<u8> = Vec::new();
    let mut i: usize = 0;
    let ghost all: Seq<Seq<u8>> = views(pieces@);
    proof {
        assert(joined(all.take(0), sep@) =~= Seq::<u8>::empty());
    }
    while i < pieces.len()
        invariant
            i <= pieces@.len(),
            all == views(pieces@),
            r@ =~= joined(all.take(i as int), sep@),
        decreases pieces@.len() - i,
    {
        if i > 0 {
            r.extend_from_slice(sep);
        }
        r.extend_from_slice(pieces[i].as_slice());
        proof {
            let longer: Seq<Seq<u8>> = all.take(i + 1);
            assert(longer.drop_last() =~= all.take(i as int));
            assert(longer.last() == pieces@[i as int]@);
        }
        i = i + 1;
    }
    proof {
        assert(all.take(i as int) =~= all);
    }
    r
}

/// Splitting and joining with the same separator gives the bytes back.
pub proof fn join_undoes_split(s: Seq<u8>, sep: u8)
    ensures
        joined(split_at_each(s, sep), seq![sep]) == s,
        split_at_each(s, sep).len() >= 1,
    decreases s.len(),
{
    if s.len() > 0 {
        let shorter: Seq<u8> = s.drop_last();
        join_undoes_split(shorter, sep);
        let pieces: Seq<Seq<u8>> = split_at_each(shorter, sep);
        let all: Seq<Seq<u8>> = split_at_each(s, sep);
        if s.last() == sep {
            assert(all.drop_last() =~= pieces);
            assert(joined(all, seq![sep]) =~= shorter + seq![sep]);
        } else {
            assert(all.drop_last() =~= pieces.drop_last());
            assert(joined(all, seq![sep]) =~= joined(pieces, seq![sep]).push(s.last()));
        }
        assert(joined(all, seq![sep]) =~= s);
    }
}

/// Bytes among which no separator stands are one piece.
pub proof fn bytes_without_separator_are_one_piece(s: Seq<u8>, sep: u8)
    requires
        !s.contains(sep),
    ensures
        split_at_each(s, sep) == seq![s],
    decreases s.len(),
{
    if s.len() == 0 {
        assert(s =~= Seq::<u8>::empty());
    } else {
        let front: Seq<u8> = s.drop_last();
        assert(!front.contains(sep)) by {
            if front.contains(sep) {
                let k: int = choose|k: int| 0 <= k < front.len() && front[k] == sep;
                assert(s[k] == sep);
            }
        }
        bytes_without_separator_are_one_piece(front, sep);
        assert(s[s.len() - 1] != sep);
        assert(front.push(s.last()) =~= s);
        assert(split_at_each(s, sep) =~= seq![s]);
    }
}

/// Two texts joined by one separator have the pieces of the first and those of the
/// second.
pub proof fn pieces_of_joined_bytes(a: Seq<u8>, b: Seq<u8>, sep: u8)
    ensures
        split_at_each(a + seq![sep] + b, sep) == split_at_each(a, sep) + split_at_each(b, sep),
        split_at_each(a, sep).len() >= 1,
    decreases b.len(),
{
    let all: Seq<u8> = a + seq![sep] + b;
    lemma_some_piece(a, sep);
    lemma_some_piece(b, sep);
    if b.len() == 0 {
        assert(all.drop_last() =~= a);
        assert(split_at_each(all, sep) =~= split_at_each(a, sep) + split_at_each(b, sep));
    } else {
        let shorter: Seq<u8> = b.drop_last();
        pieces_of_joined_bytes(a, shorter, sep);
        lemma_some_piece(shorter, sep);
        assert(all.drop_last() =~= a + seq![sep] + shorter);
        assert(all.last() == b.last());
        assert(split_at_each(all, sep) =~= split_at_each(a, sep) + split_at_each(b, sep));
    }
}

proof fn lemma_some_piece(s: Seq<u8>, sep: u8)
    ensures
        split_at_each(s, sep).len() >= 1,
    decreases s.len(),
{
    if s.len() > 0 {
        lemma_some_piece(s.drop_last(), sep);
    }
}

/// What is trimmed off at both ends is white space, and nothing else is; what is left
/// neither starts nor ends with it.
pub proof fn only_white_space_is_trimmed(s: Seq<u8>)
    ensures
        exists|a: int, b: int|
            0 <= a <= b <= s.len() && #[trigger] s.subrange(a, b) == trimmed(s) && (forall|i: int|
                0 <= i < a || b <= i < s.len() ==> #[trigger] s[i] == 32 || 9 <= s[i] <= 13),
        trimmed(s).len() > 0 ==> {
            let first = trimmed(s)[0];
            let last = trimmed(s).last();
            first != 32 && !(9 <= first <= 13) && last != 32 && !(9 <= last <= 13)
        },
{
    let a: int = lemma_trim_start(s);
    let rest: Seq<u8> = s.skip(a);
    let n: int = lemma_trim_end(rest);
    assert(s.subrange(a, a + n) =~= rest.take(n));
    assert forall|i: int| 0 <= i < a || a + n <= i < s.len() implies #[trigger] s[i] == 32 || 9
        <= s[i] <= 13 by {
        if i >= a + n {
            assert(rest[i - a] == s[i]);
        }
    }
}

proof fn lemma_trim_start(s: Seq<u8>) -> (a: int)
    ensures
        0 <= a <= s.len(),
        trim_start(s) == s.skip(a),
        forall|i: int| 0 <= i < a ==> #[trigger] s[i] == 32 || 9 <= s[i] <= 13,
        a < s.len() ==> s[a] != 32 && !(9 <= s[a] <= 13),
    decreases s.len(),
{
    if s.len() > 0 && is_space(s[0]) {
        let rest: Seq<u8> = s.skip(1);
        let n: int = lemma_trim_start(rest);
        assert(rest.skip(n) =~= s.skip(n + 1));
        assert forall|i: int| 0 <= i < n + 1 implies #[trigger] s[i] == 32 || 9 <= s[i] <= 13 by {
            if i > 0 {
                assert(rest[i - 1] == s[i]);
            }
        }
        n + 1
    } else {
        assert(s.skip(0) =~= s);
        0
    }
}

proof fn lemma_trim_end(s: Seq<u8>) -> (n: int)
    ensures
        0 <= n <= s.len(),
        trim_end(s) == s.take(n),
        forall|i: int| n <= i < s.len() ==> #[trigger] s[i] == 32 || 9 <= s[i] <= 13,
        n > 0 ==> s[n - 1] != 32 && !(9 <= s[n - 1] <= 13),
    decreases s.len(),
{
    if s.len() > 0 && is_space(s.last()) {
        let front: Seq<u8> = s.drop_last();
        let n: int = lemma_trim_end(front);
        assert(front.take(n) =~= s.take(n));
        assert forall|i: int| n <= i < s.len() implies #[trigger] s[i] == 32 || 9 <= s[i] <= 13 by {
            if i < front.len() {
                assert(front[i] == s[i]);
            }
        }
        n
    } else {
        assert(s.take(s.len() as int) =~= s);
        s.len() as int
    }
}

/// Letters of both cases are one in lower case, and nothing else changes.
pub proof fn lower_case_joins_letters(s: Seq<u8>, i: int)
    requires
        0 <= i < s.len(),
    ensures
        lower(s).len() == s.len(),
        65 <= s[i] <= 90 ==> lower(s)[i] == s[i] + 32,
        !(65 <= s[i] <= 90) ==> lower(s)[i] == s[i],
        lower(lower(s)) == lower(s),
{
    assert(lower(lower(s)) =~= lower(s));
}

} // verus!
