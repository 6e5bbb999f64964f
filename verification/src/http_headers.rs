//! Header fields: what a header map holds, and the rules that read and clean it.

use vstd::prelude::*;
use vstd::string::*;

use crate::bytes::{
    copy_of, eq_ignore_ascii_case, is_header_text, is_text, lower, split, split_at_each, trim,
    trimmed, views, COMMA,
};

verus! {

/// The header map of the `http` crate.
#[verifier::external_type_specification]
#[verifier::external_body]
#[verifier::reject_recursive_types(T)]
pub struct ExHeaderMap<T>(hyper::header::HeaderMap<T>);

/// The header value of the `http` crate.
#[verifier::external_type_specification]
#[verifier::external_body]
pub struct ExHeaderValue(hyper::header::HeaderValue);

/// What a header map holds: for each name, in lower case, its values in the
/// order in which they were added.
pub uninterp spec fn header_fields(headers: hyper::HeaderMap) -> Map<Seq<u8>, Seq<Seq<u8>>>;

/// Fields that hold nothing.
pub open spec fn no_fields() -> Map<Seq<u8>, Seq<Seq<u8>>> {
    Map::empty()
}

/// The values that the fields hold under a name, whatever the case of its letters.
pub open spec fn values_of(fields: Map<Seq<u8>, Seq<Seq<u8>>>, name: Seq<u8>) -> Seq<Seq<u8>> {
    if fields.dom().contains(lower(name)) { fields[lower(name)] } else { Seq::empty() }
}

/// How many names a header map can hold whatever its history, so that one more
/// can still be inserted.
pub const MAX_HEADER_NAMES: usize = 6_553;

/// `HeaderMap::new` makes a map that holds nothing.
#[verifier::external_body]
pub(crate) fn empty_headers() -> (headers: hyper::HeaderMap)
    ensures
        header_fields(headers) == no_fields(),
{
    hyper::HeaderMap::new()
}

/// `HeaderMap::get_all` hands out the values under a name in the order in which
/// they were added; letters of the name match in either case, and what is no
/// header name has no values.
#[verifier::external_body]
pub(crate) fn header_values(headers: &hyper::HeaderMap, name: &[u8]) -> (values: Vec<Vec<u8>>)
    ensures
        views(values@) == values_of(header_fields(*headers), name@),
{
    match hyper::header::HeaderName::from_bytes(name) {
        Ok(name) => headers.get_all(name).iter().map(|value| value.as_bytes().to_vec()).collect(),
        Err(_) => Vec::new(),
    }
}

/// `HeaderMap::contains_key` tells whether there is a value under a name.
#[verifier::external_body]
pub(crate) fn has_header(headers: &hyper::HeaderMap, name: &[u8]) -> (present: bool)
    ensures
        present == header_fields(*headers).dom().contains(lower(name@)),
        present == (values_of(header_fields(*headers), name@).len() > 0),
{
    match hyper::header::HeaderName::from_bytes(name) {
        Ok(name) => headers.contains_key(name),
        Err(_) => false,
    }
}

/// `HeaderMap::remove` takes every value under a name out, and nothing else.
#[verifier::external_body]
pub(crate) fn remove_header(headers: &mut hyper::HeaderMap, name: &[u8])
    ensures
        header_fields(*final(headers)) == header_fields(*old(headers)).remove(lower(name@)),
{
    if let Ok(name) = hyper::header::HeaderName::from_bytes(name) {
        headers.remove(name);
    }
}

/// Whether the bytes are a header name in lower case, made of letters, digits
/// and hyphens, and short enough.
pub open spec fn plain_name(name: Seq<u8>) -> bool {
    &&& 1 <= name.len() <= 64
    &&& forall|i: int|
        0 <= i < name.len() ==> 97 <= #[trigger] name[i] <= 122 || 48 <= name[i] <= 57 || name[i]
            == 45
}

/// `HeaderMap::insert` puts one value under a name in place of all that were
/// there. The map must hold few enough names that it can grow.
#[verifier::external_body]
pub(crate) fn insert_header(headers: &mut hyper::HeaderMap, name: &[u8], value: &[u8])
    requires
        plain_name(name@),
        is_text(value@),
        header_fields(*old(headers)).dom().len() <= MAX_HEADER_NAMES,
    ensures
        header_fields(*final(headers)) == header_fields(*old(headers)).insert(name@, seq![value@]),
{
    let name = hyper::header::HeaderName::from_bytes(name).expect("a plain name");
    let value = hyper::header::HeaderValue::from_bytes(value).expect("header text");
    headers.insert(name, value);
}

/// `HeaderMap::keys` hands out each name once, in lower case, in no particular
/// order.
#[verifier::external_body]
pub(crate) fn header_names(headers: &hyper::HeaderMap) -> (names: Vec<Vec<u8>>)
    ensures
        views(names@).no_duplicates(),
        views(names@).to_set() == header_fields(*headers).dom(),
        forall|i: int| 0 <= i < names@.len() ==> lower(#[trigger] names@[i]@) == names@[i]@,
{
    headers.keys().map(|name| name.as_str().as_bytes().to_vec()).collect()
}

/// `HeaderMap::len` counts the values, not the names.
#[verifier::external_body]
pub(crate) fn header_count(headers: &hyper::HeaderMap) -> (count: usize)
    ensures
        count == field_count(header_fields(*headers)),
        header_fields(*headers).dom().len() <= count,
{
    headers.len()
}

/// The sum over all names of a weight of the name and its values.
pub open spec fn weighed(
    fields: Map<Seq<u8>, Seq<Seq<u8>>>,
    weight: spec_fn(Seq<u8>, Seq<Seq<u8>>) -> nat,
) -> nat
    decreases fields.dom().len(),
    when fields.dom().finite()
{
    if fields.dom().len() == 0 {
        0
    } else {
        let name = fields.dom().choose();
        weight(name, fields[name]) + weighed(fields.remove(name), weight)
    }
}

/// How many values the fields hold in all.
pub open spec fn field_count(fields: Map<Seq<u8>, Seq<Seq<u8>>>) -> nat {
    weighed(fields, |name: Seq<u8>, values: Seq<Seq<u8>>| values.len())
}

/// The bytes that a name and each of its values take together.
pub open spec fn field_size(name: Seq<u8>, values: Seq<Seq<u8>>) -> nat
    decreases values.len(),
{
    if values.len() == 0 {
        0
    } else {
        field_size(name, values.drop_last()) + name.len() + values.last().len()
    }
}

/// The bytes of all fields, the name counted again for each of its values.
pub open spec fn fields_size(fields: Map<Seq<u8>, Seq<Seq<u8>>>) -> nat {
    weighed(fields, |name: Seq<u8>, values: Seq<Seq<u8>>| field_size(name, values))
}

proof fn lemma_weighed_remove(
    fields: Map<Seq<u8>, Seq<Seq<u8>>>,
    weight: spec_fn(Seq<u8>, Seq<Seq<u8>>) -> nat,
    name: Seq<u8>,
)
    requires
        fields.dom().finite(),
        fields.dom().contains(name),
    ensures
        weighed(fields, weight) == weight(name, fields[name]) + weighed(
            fields.remove(name),
            weight,
        ),
    decreases fields.dom().len(),
{
    let first: Seq<u8> = fields.dom().choose();
    if first != name {
        lemma_weighed_remove(fields.remove(first), weight, name);
        let rest = fields.remove(name);
        assert(rest.dom().contains(first));
        lemma_weighed_remove(rest, weight, first);
        assert(fields.remove(first).remove(name) =~= rest.remove(first));
    }
}

/// The bytes of all fields, held to the largest `usize`.
pub open spec fn counted_size(fields: Map<Seq<u8>, Seq<Seq<u8>>>) -> nat {
    if fields_size(fields) > usize::MAX { usize::MAX as nat } else { fields_size(fields) }
}

/// The bytes of all header fields, held to the largest `usize`.
pub fn headers_size(headers: &hyper::HeaderMap) -> (size: usize)
    ensures
        size == counted_size(header_fields(*headers)),
        header_fields(*headers).dom().finite(),
{
    let names: Vec<Vec<u8>> = header_names(headers);
    let ghost fields = header_fields(*headers);
    let ghost weight = |name: Seq<u8>, values: Seq<Seq<u8>>| field_size(name, values);
    let ghost mut rest = fields;
    let ghost mut counted: nat = 0;
    let mut total: usize = 0;
    let mut i: usize = 0;
    proof {
        views(names@).unique_seq_to_set();
        assert(fields.dom().finite());
    }
    while i < names.len()
        invariant
            i <= names@.len(),
            fields == header_fields(*headers),
            weight == (|name: Seq<u8>, values: Seq<Seq<u8>>| field_size(name, values)),
            views(names@).no_duplicates(),
            views(names@).to_set() == fields.dom(),
            forall|k: int| 0 <= k < names@.len() ==> lower(#[trigger] names@[k]@) == names@[k]@,
            rest.dom().finite(),
            fields.dom().finite(),
            forall|k: int|
                i <= k < names@.len() ==> rest.dom().contains(#[trigger] views(names@)[k]),
            forall|name: Seq<u8>| #[trigger]
                rest.dom().contains(name) ==> fields.dom().contains(name) && rest[name]
                    == fields[name],
            forall|name: Seq<u8>| #[trigger]
                rest.dom().contains(name) ==> exists|k: int|
                    i <= k < names@.len() && views(names@)[k] == name,
            fields_size(fields) == counted + weighed(rest, weight),
            total == (if counted > usize::MAX { usize::MAX as nat } else { counted }),
        decreases names@.len() - i,
    {
        let values: Vec<Vec<u8>> = header_values(headers, names[i].as_slice());
        let ghost name: Seq<u8> = names@[i as int]@;
        proof {
            assert(views(names@)[i as int] == name);
            assert(rest.dom().contains(name));
            lemma_weighed_remove(rest, weight, name);
            assert(views(values@) == fields[name]);
        }
        let ghost before: nat = counted;
        let mut j: usize = 0;
        while j < values.len()
            invariant
                i < names@.len(),
                name == names@[i as int]@,
                j <= values@.len(),
                counted == before + field_size(name, views(values@).take(j as int)),
                total == (if counted > usize::MAX { usize::MAX as nat } else { counted }),
            decreases values@.len() - j,
        {
            total = total.saturating_add(names[i].len()).saturating_add(values[j].len());
            proof {
                let longer: Seq<Seq<u8>> = views(values@).take(j + 1);
                assert(longer.drop_last() =~= views(values@).take(j as int));
                assert(longer.last() == values@[j as int]@);
                counted = counted + name.len() + values@[j as int]@.len();
            }
            j = j + 1;
        }
        proof {
            assert(views(values@).take(j as int) =~= views(values@));
            let smaller = rest.remove(name);
            assert forall|k: int| i + 1 <= k < names@.len() implies smaller.dom().contains(
                #[trigger] views(names@)[k],
            ) by {
                assert(views(names@)[k] != views(names@)[i as int]);
            }
            assert forall|other: Seq<u8>| #[trigger]
                smaller.dom().contains(other) implies exists|k: int|
                i + 1 <= k < names@.len() && views(names@)[k] == other by {
                assert(rest.dom().contains(other));
                let k: int = choose|k: int| i <= k < names@.len() && views(names@)[k] == other;
                assert(k != i);
            }
            rest = smaller;
        }
        i = i + 1;
    }
    proof {
        assert(rest.dom() =~= Set::<Seq<u8>>::empty());
    }
    total
}

/// The members of comma-separated lists: the pieces of every value that is text,
/// without the white space around them.
pub open spec fn list_members(values: Seq<Seq<u8>>) -> Seq<Seq<u8>>
    decreases values.len(),
{
    if values.len() == 0 {
        Seq::empty()
    } else {
        list_members(values.drop_last()) + value_members(values.last())
    }
}

/// The members of one comma-separated list.
pub open spec fn value_members(value: Seq<u8>) -> Seq<Seq<u8>> {
    if is_text(value) {
        split_at_each(value, COMMA).map_values(|piece: Seq<u8>| trimmed(piece))
    } else {
        Seq::empty()
    }
}

/// Whether one of the members, in lower case, is `name`.
pub open spec fn one_in_lower_case(members: Seq<Seq<u8>>, name: Seq<u8>) -> bool {
    exists|k: int| 0 <= k < members.len() && lower(#[trigger] members[k]) == name
}

/// Whether a list names `member`, whatever the case of its letters.
pub open spec fn names_member(members: Seq<Seq<u8>>, member: Seq<u8>) -> bool {
    one_in_lower_case(members, lower(member))
}

/// The members of comma-separated lists.
pub fn members_of(values: &Vec<Vec<u8>>) -> (members: Vec<Vec<u8>>)
    ensures
        views(members@) == list_members(views(values@)),
{
    let mut members: Vec<Vec<u8>> = Vec::new();
    let mut i: usize = 0;
    let ghost all: Seq<Seq<u8>> = views(values@);
    proof {
        assert(views(members@) =~= list_members(all.take(0)));
    }
    while i < values.len()
        invariant
            i <= values@.len(),
            all == views(values@),
            views(members@) =~= list_members(all.take(i as int)),
        decreases values@.len() - i,
    {
        let ghost before: Seq<Seq<u8>> = views(members@);
        proof {
            assert(all.take(i + 1).drop_last() =~= all.take(i as int));
            assert(all.take(i + 1).last() == values@[i as int]@);
        }
        if is_header_text(values[i].as_slice()) {
            let pieces: Vec<Vec<u8>> = split(values[i].as_slice(), COMMA);
            let ghost found: Seq<Seq<u8>> = value_members(values@[i as int]@);
            let mut j: usize = 0;
            while j < pieces.len()
                invariant
                    j <= pieces@.len(),
                    found == views(pieces@).map_values(|piece: Seq<u8>| trimmed(piece)),
                    views(members@) =~= before + found.take(j as int),
                decreases pieces@.len() - j,
            {
                let ghost sofar: Seq<Seq<u8>> = views(members@);
                members.push(copy_of(trim(pieces[j].as_slice())));
                proof {
                    assert(views(pieces@)[j as int] == pieces@[j as int]@);
                    assert(views(members@) =~= sofar.push(trimmed(pieces@[j as int]@)));
                    assert(found.take(j + 1) =~= found.take(j as int).push(found[j as int]));
                    assert(found[j as int] == trimmed(pieces@[j as int]@));
                }
                j = j + 1;
            }
            proof {
                assert(found.take(j as int) =~= found);
            }
        }
        i = i + 1;
    }
    proof {
        assert(all.take(i as int) =~= all);
    }
    members
}

/// Whether one of the list's members is `wanted`, whatever the case of letters.
pub fn has_member(members: &Vec<Vec<u8>>, wanted: &[u8]) -> (yes: bool)
    ensures
        yes == names_member(views(members@), wanted@),
{
    let mut i: usize = 0;
    while i < members.len()
        invariant
            i <= members@.len(),
            forall|k: int| 0 <= k < i ==> lower(#[trigger] views(members@)[k]) != lower(wanted@),
        decreases members@.len() - i,
    {
        if eq_ignore_ascii_case(members[i].as_slice(), wanted) {
            proof {
                assert(views(members@)[i as int] == members@[i as int]@);
            }
            return true;
        }
        i = i + 1;
    }
    false
}

/// The one value under a name, where there is exactly one.
pub fn exact_header(headers: &hyper::HeaderMap, name: &[u8]) -> (value: Option<Vec<u8>>)
    ensures
        match value {
            Some(v) => values_of(header_fields(*headers), name@) == seq![v@],
            None => values_of(header_fields(*headers), name@).len() != 1,
        },
{
    let mut values: Vec<Vec<u8>> = header_values(headers, name);
    if values.len() != 1 {
        return None;
    }
    proof {
        assert(views(values@) =~= seq![values@[0]@]);
    }
    values.pop()
}

/// Whether a comma-separated list header names a token.
pub fn header_has_token(headers: &hyper::HeaderMap, name: &[u8], expected: &[u8]) -> (yes: bool)
    ensures
        yes == names_member(list_members(values_of(header_fields(*headers), name@)), expected@),
{
    let values: Vec<Vec<u8>> = header_values(headers, name);
    let members: Vec<Vec<u8>> = members_of(&values);
    has_member(&members, expected)
}

/// Whether a byte may stand in a token: letters, digits and some punctuation.
pub open spec fn token_byte(b: u8) -> bool {
    48 <= b <= 57 || 65 <= b <= 90 || 97 <= b <= 122 || b == 33 || b == 35 || b == 36 || b == 37
        || b == 38 || b == 39 || b == 42 || b == 43 || b == 45 || b == 46 || b == 94 || b == 95
        || b == 96 || b == 124 || b == 126
}

/// Whether the bytes are an HTTP token.
pub open spec fn is_token(s: Seq<u8>) -> bool {
    s.len() > 0 && forall|i: int| 0 <= i < s.len() ==> token_byte(#[trigger] s[i])
}

/// Whether the bytes are an HTTP token.
pub fn is_http_token(value: &[u8]) -> (yes: bool)
    ensures
        yes == is_token(value@),
{
    if value.len() == 0 {
        return false;
    }
    let mut i: usize = 0;
    while i < value.len()
        invariant
            i <= value@.len(),
            forall|k: int| 0 <= k < i ==> token_byte(#[trigger] value@[k]),
        decreases value@.len() - i,
    {
        let b: u8 = value[i];
        if !((48 <= b && b <= 57) || (65 <= b && b <= 90) || (97 <= b && b <= 122) || b == 33 || b
            == 35 || b == 36 || b == 37 || b == 38 || b == 39 || b == 42 || b == 43 || b == 45 || b
            == 46 || b == 94 || b == 95 || b == 96 || b == 124 || b == 126) {
            return false;
        }
        i = i + 1;
    }
    true
}

/// The header names that always concern one connection only.
pub open spec fn connection_only_name(name: Seq<u8>) -> bool {
    ||| name == "connection".spec_bytes()
    ||| name == "keep-alive".spec_bytes()
    ||| name == "proxy-authenticate".spec_bytes()
    ||| name == "proxy-authorization".spec_bytes()
    ||| name == "te".spec_bytes()
    ||| name == "trailer".spec_bytes()
    ||| name == "transfer-encoding".spec_bytes()
    ||| name == "upgrade".spec_bytes()
    ||| name == "proxy-connection".spec_bytes()
}

/// Whether a field concerns one connection only: by its name, or because the
/// `Connection` header names it.
pub open spec fn hop_by_hop(fields: Map<Seq<u8>, Seq<Seq<u8>>>, name: Seq<u8>) -> bool {
    ||| connection_only_name(name)
    ||| one_in_lower_case(connection_options(fields), name)
}

/// What the `Connection` header lists.
pub open spec fn connection_options(fields: Map<Seq<u8>, Seq<Seq<u8>>>) -> Seq<Seq<u8>> {
    list_members(values_of(fields, "connection".spec_bytes()))
}

/// The fields that concern more than one connection.
pub open spec fn end_to_end(fields: Map<Seq<u8>, Seq<Seq<u8>>>) -> Map<Seq<u8>, Seq<Seq<u8>>> {
    fields.restrict(Set::new(|name: Seq<u8>| !hop_by_hop(fields, name)))
}

/// The fields without those that one of the names, in lower case, stands for.
pub open spec fn without_names(
    fields: Map<Seq<u8>, Seq<Seq<u8>>>,
    names: Seq<Seq<u8>>,
) -> Map<Seq<u8>, Seq<Seq<u8>>> {
    fields.restrict(Set::new(|name: Seq<u8>| !one_in_lower_case(names, name)))
}

/// Takes every field under one of the names out.
fn remove_headers(headers: &mut hyper::HeaderMap, names: &Vec<Vec<u8>>)
    ensures
        header_fields(*final(headers)) == without_names(header_fields(*old(headers)), views(names@)),
{
    let ghost before = header_fields(*headers);
    let ghost all: Seq<Seq<u8>> = views(names@);
    let mut i: usize = 0;
    proof {
        assert(without_names(before, all.take(0)) =~= before);
    }
    while i < names.len()
        invariant
            i <= names@.len(),
            all == views(names@),
            header_fields(*headers) == without_names(before, all.take(i as int)),
        decreases names@.len() - i,
    {
        remove_header(headers, names[i].as_slice());
        proof {
            let shorter: Seq<Seq<u8>> = all.take(i as int);
            let longer: Seq<Seq<u8>> = all.take(i + 1);
            assert(longer[i as int] == names@[i as int]@);
            assert forall|name: Seq<u8>| #[trigger]
                one_in_lower_case(longer, name) <==> (one_in_lower_case(shorter, name) || lower(
                    all[i as int],
                ) == name) by {
                if one_in_lower_case(shorter, name) {
                    let k: int = choose|k: int|
                        0 <= k < shorter.len() && lower(#[trigger] shorter[k]) == name;
                    assert(longer[k] == shorter[k]);
                }
                if one_in_lower_case(longer, name) {
                    let k: int = choose|k: int|
                        0 <= k < longer.len() && lower(#[trigger] longer[k]) == name;
                    if k < i {
                        assert(shorter[k] == longer[k]);
                    }
                }
            }
            assert(without_names(before, longer) =~= without_names(before, shorter).remove(
                lower(all[i as int]),
            ));
        }
        i = i + 1;
    }
    proof {
        assert(all.take(i as int) =~= all);
    }
}

proof fn lemma_connection_names()
    ensures
        forall|name: Seq<u8>| #[trigger] connection_only_name(name) ==> lower(name) == name,
{
    reveal_strlit("connection");
    reveal_strlit("keep-alive");
    reveal_strlit("proxy-authenticate");
    reveal_strlit("proxy-authorization");
    reveal_strlit("te");
    reveal_strlit("trailer");
    reveal_strlit("transfer-encoding");
    reveal_strlit("upgrade");
    reveal_strlit("proxy-connection");
    is_ascii_spec_bytes("connection");
    is_ascii_spec_bytes("keep-alive");
    is_ascii_spec_bytes("proxy-authenticate");
    is_ascii_spec_bytes("proxy-authorization");
    is_ascii_spec_bytes("te");
    is_ascii_spec_bytes("trailer");
    is_ascii_spec_bytes("transfer-encoding");
    is_ascii_spec_bytes("upgrade");
    is_ascii_spec_bytes("proxy-connection");
    assert forall|name: Seq<u8>| #[trigger] connection_only_name(name) implies lower(name)
        == name by {
        assert(lower(name) =~= name);
    }
}

/// Takes every field that concerns one connection only out.
pub fn remove_hop_by_hop(headers: &mut hyper::HeaderMap)
    ensures
        header_fields(*final(headers)) == end_to_end(header_fields(*old(headers))),
{
    let ghost fields = header_fields(*headers);
    let values: Vec<Vec<u8>> = header_values(headers, "connection".as_bytes());
    let named: Vec<Vec<u8>> = members_of(&values);
    remove_headers(headers, &named);
    remove_header(headers, "connection".as_bytes());
    remove_header(headers, "keep-alive".as_bytes());
    remove_header(headers, "proxy-authenticate".as_bytes());
    remove_header(headers, "proxy-authorization".as_bytes());
    remove_header(headers, "te".as_bytes());
    remove_header(headers, "trailer".as_bytes());
    remove_header(headers, "transfer-encoding".as_bytes());
    remove_header(headers, "upgrade".as_bytes());
    remove_header(headers, "proxy-connection".as_bytes());
    proof {
        lemma_connection_names();
        assert(connection_only_name("connection".spec_bytes()));
        assert(connection_only_name("keep-alive".spec_bytes()));
        assert(connection_only_name("proxy-authenticate".spec_bytes()));
        assert(connection_only_name("proxy-authorization".spec_bytes()));
        assert(connection_only_name("te".spec_bytes()));
        assert(connection_only_name("trailer".spec_bytes()));
        assert(connection_only_name("transfer-encoding".spec_bytes()));
        assert(connection_only_name("upgrade".spec_bytes()));
        assert(connection_only_name("proxy-connection".spec_bytes()));
        assert(header_fields(*headers) =~= end_to_end(fields));
    }
}

/// No field that concerns one connection only is left, and cleaning again
/// changes nothing.
pub proof fn cleaning_leaves_no_hop_by_hop_field(
    fields: Map<Seq<u8>, Seq<Seq<u8>>>,
    name: Seq<u8>,
)
    ensures
        hop_by_hop(fields, name) ==> !end_to_end(fields).dom().contains(name),
        end_to_end(end_to_end(fields)) == end_to_end(fields),
{
    let cleaned = end_to_end(fields);
    lemma_connection_names();
    assert(connection_only_name("connection".spec_bytes()));
    assert(hop_by_hop(fields, "connection".spec_bytes()));
    assert(!cleaned.dom().contains("connection".spec_bytes()));
    assert(values_of(cleaned, "connection".spec_bytes()) =~= Seq::empty());
    assert(connection_options(cleaned) =~= Seq::empty());
    assert(end_to_end(cleaned) =~= cleaned);
}

/// Cleaning keeps every other field just as it was.
pub proof fn cleaning_keeps_other_fields(fields: Map<Seq<u8>, Seq<Seq<u8>>>, name: Seq<u8>)
    requires
        fields.dom().contains(name),
        !hop_by_hop(fields, name),
    ensures
        end_to_end(fields).dom().contains(name),
        end_to_end(fields)[name] == fields[name],
{
}

/// What concerns one connection only is never passed on: not the fields that always do,
/// and not one that the `Connection` field names, whatever the case of its letters.
pub proof fn connection_fields_are_not_passed_on(
    fields: Map<Seq<u8>, Seq<Seq<u8>>>,
    option: Seq<u8>,
)
    ensures
        !end_to_end(fields).dom().contains("connection".spec_bytes()),
        !end_to_end(fields).dom().contains("keep-alive".spec_bytes()),
        !end_to_end(fields).dom().contains("proxy-authenticate".spec_bytes()),
        !end_to_end(fields).dom().contains("proxy-authorization".spec_bytes()),
        !end_to_end(fields).dom().contains("te".spec_bytes()),
        !end_to_end(fields).dom().contains("trailer".spec_bytes()),
        !end_to_end(fields).dom().contains("transfer-encoding".spec_bytes()),
        !end_to_end(fields).dom().contains("upgrade".spec_bytes()),
        !end_to_end(fields).dom().contains("proxy-connection".spec_bytes()),
        list_members(values_of(fields, "connection".spec_bytes())).contains(option)
            ==> !end_to_end(fields).dom().contains(lower(option)),
{
    let options = list_members(values_of(fields, "connection".spec_bytes()));
    if options.contains(option) {
        let at: int = choose|k: int| 0 <= k < options.len() && options[k] == option;
        assert(lower(options[at]) == lower(option));
        assert(one_in_lower_case(options, lower(option)));
    }
}

/// Every other field is passed on with all its values, in their order.
pub proof fn other_fields_are_passed_on(fields: Map<Seq<u8>, Seq<Seq<u8>>>, name: Seq<u8>)
    requires
        fields.dom().contains(name),
        name != "connection".spec_bytes(),
        name != "keep-alive".spec_bytes(),
        name != "proxy-authenticate".spec_bytes(),
        name != "proxy-authorization".spec_bytes(),
        name != "te".spec_bytes(),
        name != "trailer".spec_bytes(),
        name != "transfer-encoding".spec_bytes(),
        name != "upgrade".spec_bytes(),
        name != "proxy-connection".spec_bytes(),
        forall|option: Seq<u8>|
            #[trigger] list_members(values_of(fields, "connection".spec_bytes())).contains(option)
                ==> lower(option) != name,
    ensures
        end_to_end(fields).dom().contains(name),
        end_to_end(fields)[name] == fields[name],
{
    let options = list_members(values_of(fields, "connection".spec_bytes()));
    if one_in_lower_case(options, name) {
        let at: int = choose|k: int| 0 <= k < options.len() && lower(#[trigger] options[k]) == name;
        assert(options.contains(options[at]));
    }
}

/// A list names a member just where one of its comma-separated pieces is that member,
/// but for white space around it and the case of its letters.
pub proof fn lists_name_their_members(value: Seq<u8>, member: Seq<u8>)
    requires
        is_text(value),
    ensures
        names_member(list_members(seq![value]), member) <==> exists|k: int|
            0 <= k < split_at_each(value, 44).len() && lower(
                trimmed(#[trigger] split_at_each(value, 44)[k]),
            ) == lower(member),
{
    let values = seq![value];
    let members = list_members(values);
    reveal_with_fuel(list_members, 2);
    assert(values.drop_last() =~= Seq::<Seq<u8>>::empty());
    assert(values.last() == value);
    assert(members =~= value_members(value));
    let pieces = split_at_each(value, 44);
    assert forall|k: int| 0 <= k < pieces.len() implies members[k] == trimmed(
        #[trigger] pieces[k],
    ) by {}
    if names_member(members, member) {
        let at: int = choose|k: int|
            0 <= k < members.len() && lower(#[trigger] members[k]) == lower(member);
        assert(lower(trimmed(pieces[at])) == lower(member));
    }
    if exists|k: int| 0 <= k < pieces.len() && lower(trimmed(#[trigger] pieces[k])) == lower(member) {
        let at: int = choose|k: int|
            0 <= k < pieces.len() && lower(trimmed(#[trigger] pieces[k])) == lower(member);
        assert(lower(members[at]) == lower(member));
    }
}

pub(crate) proof fn lemma_plain_is_lower(name: Seq<u8>)
    requires
        forall|i: int| 0 <= i < name.len() ==> !(65 <= #[trigger] name[i] <= 90),
    ensures
        lower(name) == name,
{
    assert(lower(name) =~= name);
}

/// A field that is not there has no values, and one that is there has its own.
pub proof fn fields_have_their_values(fields: Map<Seq<u8>, Seq<Seq<u8>>>, name: Seq<u8>)
    requires
        forall|i: int| 0 <= i < name.len() ==> !(65 <= #[trigger] name[i] <= 90),
    ensures
        fields.dom().contains(name) ==> values_of(fields, name) == fields[name],
        !fields.dom().contains(name) ==> values_of(fields, name).len() == 0,
{
    lemma_plain_is_lower(name);
}

/// A field counts once for each of its values, and takes the bytes of its name and of the
/// value each time; the fields together take what each of them takes.
pub proof fn sizes_count_every_value(
    fields: Map<Seq<u8>, Seq<Seq<u8>>>,
    name: Seq<u8>,
    values: Seq<Seq<u8>>,
    value: Seq<u8>,
)
    requires
        fields.dom().finite(),
        !fields.dom().contains(name),
    ensures
        field_count(no_fields()) == 0,
        fields_size(no_fields()) == 0,
        field_count(fields.insert(name, values)) == field_count(fields) + values.len(),
        fields_size(fields.insert(name, values.push(value))) == fields_size(
            fields.insert(name, values),
        ) + name.len() + value.len(),
        fields_size(fields.insert(name, Seq::empty())) == fields_size(fields),
        fields_size(fields) <= usize::MAX ==> counted_size(fields) == fields_size(fields),
        fields_size(fields) > usize::MAX ==> counted_size(fields) == usize::MAX,
{
    let size = |name: Seq<u8>, values: Seq<Seq<u8>>| field_size(name, values);
    let count = |name: Seq<u8>, values: Seq<Seq<u8>>| values.len();
    let one = fields.insert(name, values);
    let more = fields.insert(name, values.push(value));
    let none = fields.insert(name, Seq::<Seq<u8>>::empty());
    assert(one.remove(name) =~= fields);
    assert(more.remove(name) =~= fields);
    assert(none.remove(name) =~= fields);
    lemma_weighed_remove(one, size, name);
    lemma_weighed_remove(more, size, name);
    lemma_weighed_remove(none, size, name);
    lemma_weighed_remove(one, count, name);
    assert(values.push(value).drop_last() =~= values);
}

/// A token is made of visible characters that separate nothing: at least one, and neither
/// spaces nor quotation marks, brackets, commas, colons and the like.
pub proof fn tokens_separate_nothing(s: Seq<u8>)
    ensures
        is_token(s) <==> s.len() > 0 && forall|i: int|
            0 <= i < s.len() ==> {
                let b = #[trigger] s[i];
                &&& 33 <= b <= 126
                &&& b != 34 && b != 40 && b != 41 && b != 44 && b != 47
                &&& !(58 <= b <= 64)
                &&& !(91 <= b <= 93)
                &&& b != 123 && b != 125
            },
{
    if is_token(s) {
        assert forall|i: int| 0 <= i < s.len() implies ({
            let b = #[trigger] s[i];
            &&& 33 <= b <= 126
            &&& b != 34 && b != 40 && b != 41 && b != 44 && b != 47
            &&& !(58 <= b <= 64)
            &&& !(91 <= b <= 93)
            &&& b != 123 && b != 125
        }) by {
            assert(token_byte(s[i]));
        }
    }
}

} // verus!
