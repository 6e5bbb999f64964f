//! The page that shows the request history, newest first, within a bound.

use vstd::prelude::*;
use vstd::slice::slice_subrange;
use vstd::string::*;
use vstd::utf8::*;

use crate::bytes::{
    find_byte, first_or_len, lemma_first_or_len, same_bytes, split, split_at_each, views,
    AMPERSAND, EQUALS,
};
use crate::request_history::{
    history_wf, HistoryState, RequestHistoryEntry, RequestHistorySnapshot, MAX_REQUEST_HISTORY_ENTRIES,
    MAX_REQUEST_HISTORY_RESPONSE_BYTES,
};
use crate::text::{
    all_digits, decimal, decimal_value, lemma_decimal_digits, parse_number_up_to, push_decimal,
    unsigned_part,
};

verus! {

/// A hexadecimal digit, in lower case.
pub open spec fn hex_digit(n: int) -> char {
    "0123456789abcdef"@[n]
}

/// How a character stands inside a JSON string: quotation marks, backslashes and
/// control characters are escaped, with a letter where JSON has one.
pub open spec fn json_char(c: char) -> Seq<char> {
    let code = c as u32;
    if c == '"' || c == '\\' {
        seq!['\\', c]
    } else if code == 0x08 {
        seq!['\\', 'b']
    } else if code == 0x09 {
        seq!['\\', 't']
    } else if code == 0x0a {
        seq!['\\', 'n']
    } else if code == 0x0c {
        seq!['\\', 'f']
    } else if code == 0x0d {
        seq!['\\', 'r']
    } else if code < 0x20 {
        seq!['\\', 'u', '0', '0', hex_digit(code as int / 16), hex_digit(code as int % 16)]
    } else {
        seq![c]
    }
}

/// How a text stands inside a JSON string.
pub open spec fn json_escaped(text: Seq<char>) -> Seq<char>
    decreases text.len(),
{
    if text.len() == 0 {
        Seq::empty()
    } else {
        json_escaped(text.drop_last()) + json_char(text.last())
    }
}

/// How JSON writes a text.
#[verifier::opaque]
pub open spec fn json_text(text: Seq<char>) -> Seq<char> {
    seq!['"'] + json_escaped(text) + seq!['"']
}

/// Calls `serde_json::to_string`, which writes a text as a JSON string: between
/// quotation marks, with the characters escaped that [`json_char`] names and all others
/// as they are.
#[verifier::external_body]
pub(crate) fn json_string(text: &str) -> (written: String)
    ensures
        written@ == json_text(text@),
{
    serde_json::to_string(text).expect("a text is always written")
}

/// Which part of the history is asked for: the requests before an identifier, and
/// how many at most.
#[derive(Debug, Clone, Copy, PartialEq, Eq, Structural)]
pub struct RequestHistoryQuery {
    pub before: Option<u64>,
    pub limit: Option<usize>,
}

impl Default for RequestHistoryQuery {
    fn default() -> (query: RequestHistoryQuery)
        ensures
            query == (RequestHistoryQuery { before: None, limit: None }),
    {
        RequestHistoryQuery { before: None, limit: None }
    }
}

/// The query is not one that can be answered.
#[derive(Debug, Clone, Copy, PartialEq, Eq, Structural)]
pub struct InvalidRequestHistoryQuery;

/// The number that decimal digits alone write, no more than `max`.
pub open spec fn plain_number(s: Seq<u8>, max: nat) -> Option<nat> {
    if s.len() == 0 || !all_digits(s) || decimal_value(s) > max {
        None
    } else {
        Some(decimal_value(s))
    }
}

/// The query with one parameter more, where that can be: a name once, and a
/// number in its bounds.
pub open spec fn with_parameter(
    query: RequestHistoryQuery,
    parameter: Seq<u8>,
) -> Option<RequestHistoryQuery> {
    let at = first_or_len(parameter, EQUALS);
    let name = parameter.take(at);
    let value = parameter.skip(at + 1);
    if at == parameter.len() {
        None
    } else if name == "before".spec_bytes() && query.before is None {
        match plain_number(value, u64::MAX as nat) {
            Some(n) => if n == 0 {
                None
            } else {
                Some(RequestHistoryQuery { before: Some(n as u64), ..query })
            },
            None => None,
        }
    } else if name == "limit".spec_bytes() && query.limit is None {
        match plain_number(value, MAX_REQUEST_HISTORY_ENTRIES as nat) {
            Some(n) => if n == 0 {
                None
            } else {
                Some(RequestHistoryQuery { limit: Some(n as usize), ..query })
            },
            None => None,
        }
    } else {
        None
    }
}

/// The query that parameters make together.
pub open spec fn query_of_parameters(parameters: Seq<Seq<u8>>) -> Option<RequestHistoryQuery>
    decreases parameters.len(),
{
    if parameters.len() == 0 {
        Some(RequestHistoryQuery { before: None, limit: None })
    } else {
        match query_of_parameters(parameters.drop_last()) {
            None => None,
            Some(query) => with_parameter(query, parameters.last()),
        }
    }
}

/// The query that a text asks; no text and the empty text ask for everything.
pub open spec fn query_asked(text: Option<Seq<char>>) -> Option<RequestHistoryQuery> {
    match text {
        None => Some(RequestHistoryQuery { before: None, limit: None }),
        Some(text) => if encode_utf8(text).len() == 0 {
            Some(RequestHistoryQuery { before: None, limit: None })
        } else {
            query_of_parameters(split_at_each(encode_utf8(text), AMPERSAND))
        },
    }
}

fn read_plain_number(s: &[u8], max: u64) -> (r: Option<u64>)
    ensures
        r == (match plain_number(s@, max as nat) {
            Some(n) => Some(n as u64),
            None => None,
        }),
{
    if s.len() > 0 && s[0] == 43 {
        proof {
            assert(!all_digits(s@)) by {
                assert(!(48 <= s@[0] <= 57));
            }
        }
        return None;
    }
    proof {
        assert(unsigned_part(s@) == s@);
    }
    parse_number_up_to(s, max)
}

proof fn lemma_refused_stays_refused(parameters: Seq<Seq<u8>>, n: int)
    requires
        0 <= n <= parameters.len(),
        query_of_parameters(parameters.take(n)) is None,
    ensures
        query_of_parameters(parameters) is None,
    decreases parameters.len() - n,
{
    if n == parameters.len() {
        assert(parameters.take(n) =~= parameters);
    } else {
        assert(parameters.take(n + 1).drop_last() =~= parameters.take(n));
        lemma_refused_stays_refused(parameters, n + 1);
    }
}

impl RequestHistoryQuery {
    fn add(self, parameter: &[u8]) -> (result: Option<RequestHistoryQuery>)
        ensures
            result == with_parameter(self, parameter@),
    {
        let end: usize = parameter.len();
        let at: usize = match find_byte(parameter, EQUALS) {
            Some(at) => at,
            None => {
                proof {
                    lemma_first_or_len(parameter@, EQUALS, end as int);
                }
                return None;
            },
        };
        proof {
            lemma_first_or_len(parameter@, EQUALS, at as int);
            assert(parameter@.subrange(0, at as int) =~= parameter@.take(at as int));
            assert(parameter@.subrange(at + 1, end as int) =~= parameter@.skip(at + 1));
        }
        let name: &[u8] = slice_subrange(parameter, 0, at);
        let value: &[u8] = slice_subrange(parameter, at + 1, end);
        if same_bytes(name, "before".as_bytes()) && self.before.is_none() {
            match read_plain_number(value, u64::MAX) {
                None => None,
                Some(n) => {
                    if n == 0 {
                        None
                    } else {
                        Some(RequestHistoryQuery { before: Some(n), limit: self.limit })
                    }
                },
            }
        } else if same_bytes(name, "limit".as_bytes()) && self.limit.is_none() {
            match read_plain_number(value, MAX_REQUEST_HISTORY_ENTRIES as u64) {
                None => None,
                Some(n) => {
                    if n == 0 {
                        None
                    } else {
                        Some(RequestHistoryQuery { before: self.before, limit: Some(n as usize) })
                    }
                },
            }
        } else {
            None
        }
    }

    /// Reads the query of a request.
    pub fn parse(query: Option<&str>) -> (result: Result<
        RequestHistoryQuery,
        InvalidRequestHistoryQuery,
    >)
        ensures
            match query_asked(
                match query {
                    Some(text) => Some(text@),
                    None => None,
                },
            ) {
                Some(expected) => result == Ok::<_, InvalidRequestHistoryQuery>(expected),
                None => result is Err,
            },
    {
        let text: &[u8] = match query {
            None => return Ok(RequestHistoryQuery::default()),
            Some(text) => text.as_bytes(),
        };
        if text.len() == 0 {
            return Ok(RequestHistoryQuery::default());
        }
        let parameters: Vec<Vec<u8>> = split(text, AMPERSAND);
        let ghost all: Seq<Seq<u8>> = views(parameters@);
        let mut parsed: RequestHistoryQuery = RequestHistoryQuery::default();
        let mut i: usize = 0;
        while i < parameters.len()
            invariant
                i <= parameters@.len(),
                query is Some,
                text@ == encode_utf8(query->0@),
                text@.len() > 0,
                all == views(parameters@),
                all == split_at_each(text@, AMPERSAND),
                query_of_parameters(all.take(i as int)) == Some(parsed),
            decreases parameters@.len() - i,
        {
            proof {
                assert(all.take(i + 1).drop_last() =~= all.take(i as int));
                assert(all.take(i + 1).last() == parameters@[i as int]@);
            }
            match parsed.add(parameters[i].as_slice()) {
                None => {
                    proof {
                        lemma_refused_stays_refused(all, i + 1);
                    }
                    return Err(InvalidRequestHistoryQuery);
                },
                Some(more) => {
                    parsed = more;
                },
            }
            i = i + 1;
        }
        proof {
            assert(all.take(i as int) =~= all);
        }
        Ok(parsed)
    }
}

/// How JSON writes a truth value.
pub open spec fn json_bool(yes: bool) -> Seq<char> {
    if yes { "true"@ } else { "false"@ }
}

fn bool_text(yes: bool) -> (text: &'static str)
    ensures
        text@ == json_bool(yes),
{
    if yes {
        "true"
    } else {
        "false"
    }
}

/// The text with an entry behind it.
pub open spec fn with_entry(out: Seq<char>, entry: RequestHistoryEntry) -> Seq<char> {
    out + "{\"request_id\":"@ + decimal(entry.request_id as nat) + ",\"hostname\":"@ + json_text(
        entry.hostname@,
    ) + ",\"tunnel_id\":"@ + json_text(entry.tunnel_id@) + ",\"method\":"@ + json_text(
        entry.method@,
    ) + ",\"path\":"@ + json_text(entry.path@) + ",\"path_truncated\":"@ + json_bool(
        entry.path_truncated,
    ) + ",\"protocol\":\""@ + entry.protocol.text() + "\",\"response_status\":"@ + decimal(
        entry.response_status as nat,
    ) + ",\"response_header_ms\":"@ + decimal(entry.response_header_ms as nat)
        + ",\"outcome\":\""@ + entry.outcome.text() + "\"}"@
}

/// The text with entries behind it, separated by commas.
pub open spec fn with_entries(out: Seq<char>, entries: Seq<RequestHistoryEntry>) -> Seq<char>
    decreases entries.len(),
{
    if entries.len() == 0 {
        out
    } else {
        let front = with_entries(out, entries.drop_last());
        with_entry(if entries.len() > 1 { front + ","@ } else { front }, entries.last())
    }
}

/// What a page is about: the history it is taken from, where it starts, how many
/// requests there are from there on, and how many it shows.
pub struct HistoryPage {
    pub capacity: nat,
    pub recorded_total: nat,
    pub evicted_total: nat,
    pub sequence_exhaustions: nat,
    pub entries: Seq<RequestHistoryEntry>,
    pub start: nat,
    pub eligible: nat,
    pub returned: nat,
}

/// The identifier before which the next page continues, where there is more.
pub open spec fn next_before(page: HistoryPage) -> Option<u64> {
    if page.returned < page.eligible && page.returned > 0 {
        Some(page.entries[page.start + page.returned - 1].request_id)
    } else {
        None
    }
}

/// How an optional number is written.
pub open spec fn json_number(n: Option<u64>) -> Seq<char> {
    match n {
        Some(n) => decimal(n as nat),
        None => "null"@,
    }
}

/// The page before its requests.
pub open spec fn page_head(page: HistoryPage) -> Seq<char> {
    "{\"version\":1,\"capacity\":"@ + decimal(page.capacity) + ",\"retained\":"@ + decimal(
        page.entries.len(),
    ) + ",\"eligible\":"@ + decimal(page.eligible) + ",\"returned\":"@ + decimal(page.returned)
        + ",\"recorded_total\":"@ + decimal(page.recorded_total) + ",\"evicted_total\":"@
        + decimal(page.evicted_total) + ",\"sequence_exhaustions\":"@ + decimal(
        page.sequence_exhaustions,
    ) + ",\"truncated\":"@ + json_bool(page.returned < page.eligible) + ",\"has_more\":"@
        + json_bool(page.returned < page.eligible) + ",\"next_before\":"@ + json_number(
        next_before(page),
    ) + ",\"requests\":["@
}

/// The page, as one line of JSON.
pub open spec fn page_json(page: HistoryPage) -> Seq<char> {
    with_entries(
        page_head(page),
        page.entries.subrange(page.start as int, (page.start + page.returned) as int),
    ) + "]}\n"@
}

/// The page of a snapshot.
pub open spec fn page_of(
    snapshot: RequestHistorySnapshot,
    start: nat,
    eligible: nat,
    returned: nat,
) -> HistoryPage {
    HistoryPage {
        capacity: snapshot.capacity as nat,
        recorded_total: snapshot.recorded_total as nat,
        evicted_total: snapshot.evicted_total as nat,
        sequence_exhaustions: snapshot.sequence_exhaustions as nat,
        entries: snapshot.entries@,
        start,
        eligible,
        returned,
    }
}

fn push_entry(out: &mut String, entry: &RequestHistoryEntry)
    ensures
        final(out)@ == with_entry(old(out)@, *entry),
{
    out.append("{\"request_id\":");
    push_decimal(out, entry.request_id);
    out.append(",\"hostname\":");
    out.append(json_string(entry.hostname.as_str()).as_str());
    out.append(",\"tunnel_id\":");
    out.append(json_string(entry.tunnel_id.as_str()).as_str());
    out.append(",\"method\":");
    out.append(json_string(entry.method.as_str()).as_str());
    out.append(",\"path\":");
    out.append(json_string(entry.path.as_str()).as_str());
    out.append(",\"path_truncated\":");
    out.append(bool_text(entry.path_truncated));
    out.append(",\"protocol\":\"");
    out.append(entry.protocol.as_str());
    out.append("\",\"response_status\":");
    push_decimal(out, entry.response_status as u64);
    out.append(",\"response_header_ms\":");
    push_decimal(out, entry.response_header_ms);
    out.append(",\"outcome\":\"");
    out.append(entry.outcome.as_str());
    out.append("\"}");
}

/// Writes the page that shows `returned` of the requests from `start` on.
pub fn serialize_request_history(
    snapshot: &RequestHistorySnapshot,
    start: usize,
    eligible: usize,
    returned: usize,
) -> (body: String)
    requires
        start + eligible == snapshot.entries@.len(),
        returned <= eligible,
    ensures
        body@ == page_json(
            page_of(*snapshot, start as nat, eligible as nat, returned as nat),
        ),
{
    let ghost page: HistoryPage = page_of(
        *snapshot,
        start as nat,
        eligible as nat,
        returned as nat,
    );
    let has_more: bool = returned < eligible;
    let retained: usize = snapshot.entries.len();
    let mut body: String = "{\"version\":1,\"capacity\":".to_owned();
    push_decimal(&mut body, snapshot.capacity as u64);
    body.append(",\"retained\":");
    push_decimal(&mut body, retained as u64);
    body.append(",\"eligible\":");
    push_decimal(&mut body, eligible as u64);
    body.append(",\"returned\":");
    push_decimal(&mut body, returned as u64);
    body.append(",\"recorded_total\":");
    push_decimal(&mut body, snapshot.recorded_total);
    body.append(",\"evicted_total\":");
    push_decimal(&mut body, snapshot.evicted_total);
    body.append(",\"sequence_exhaustions\":");
    push_decimal(&mut body, snapshot.sequence_exhaustions);
    body.append(",\"truncated\":");
    body.append(bool_text(has_more));
    body.append(",\"has_more\":");
    body.append(bool_text(has_more));
    body.append(",\"next_before\":");
    if has_more && returned > 0 {
        push_decimal(&mut body, snapshot.entries[start + returned - 1].request_id);
    } else {
        body.append("null");
    }
    body.append(",\"requests\":[");
    proof {
        assert(body@ == page_head(page));
    }
    let ghost shown: Seq<RequestHistoryEntry> = snapshot.entries@.subrange(
        start as int,
        start + returned,
    );
    let mut i: usize = 0;
    proof {
        assert(shown.take(0) =~= Seq::<RequestHistoryEntry>::empty());
    }
    while i < returned
        invariant
            i <= returned,
            start + returned <= retained,
            retained == snapshot.entries@.len(),
            shown == snapshot.entries@.subrange(start as int, start + returned),
            body@ == with_entries(page_head(page), shown.take(i as int)),
        decreases returned - i,
    {
        proof {
            assert(shown.take(i + 1).drop_last() =~= shown.take(i as int));
            assert(shown.take(i + 1).last() == snapshot.entries@[start + i]);
        }
        if i > 0 {
            body.append(",");
        }
        push_entry(&mut body, &snapshot.entries[start + i]);
        i = i + 1;
    }
    proof {
        assert(shown.take(i as int) =~= shown);
    }
    body.append("]}\n");
    body
}

/// Where a page starts: at the first request before the identifier asked for.
pub open spec fn page_start(entries: Seq<RequestHistoryEntry>, before: Option<u64>) -> nat
    decreases entries.len(),
{
    match before {
        None => 0,
        Some(id) => if entries.len() == 0 || entries[0].request_id < id {
            0
        } else {
            1 + page_start(entries.skip(1), before)
        },
    }
}

fn find_start(entries: &Vec<RequestHistoryEntry>, before: Option<u64>) -> (start: usize)
    ensures
        start == page_start(entries@, before),
        start <= entries@.len(),
{
    let id: u64 = match before {
        None => return 0,
        Some(id) => id,
    };
    let mut i: usize = 0;
    proof {
        assert(entries@.skip(0) =~= entries@);
    }
    while i < entries.len() && entries[i].request_id >= id
        invariant
            i <= entries@.len(),
            before == Some(id),
            page_start(entries@, before) == i + page_start(entries@.skip(i as int), before),
        decreases entries@.len() - i,
    {
        proof {
            assert(entries@.skip(i as int).skip(1) =~= entries@.skip(i + 1));
        }
        i = i + 1;
    }
    i
}

/// How many requests a page may show at most.
pub open spec fn page_limit(capacity: nat, query: RequestHistoryQuery, eligible: nat) -> nat {
    let limit = match query.limit {
        Some(limit) => limit as nat,
        None => capacity,
    };
    if limit <= eligible { limit } else { eligible }
}

/// The bytes of the page that shows so many requests.
pub open spec fn page_size(
    snapshot: RequestHistorySnapshot,
    start: nat,
    eligible: nat,
    returned: nat,
) -> nat {
    encode_utf8(page_json(page_of(snapshot, start, eligible, returned))).len()
}

/// Ten to the power of `k`.
pub open spec fn pow10(k: nat) -> nat
    decreases k,
{
    if k == 0 { 1 } else { 10 * pow10((k - 1) as nat) }
}

proof fn lemma_decimal_len(n: nat, k: nat)
    requires
        k >= 1,
        n < pow10(k),
    ensures
        decimal(n).len() <= k,
        is_ascii_chars(decimal(n)),
    decreases k,
{
    if n >= 10 {
        if k == 1 {
            reveal_with_fuel(pow10, 2);
        }
        lemma_decimal_len(n / 10, (k - 1) as nat);
    }
}

proof fn lemma_u64_decimal(n: nat)
    requires
        n <= u64::MAX,
    ensures
        decimal(n).len() <= 20,
        is_ascii_chars(decimal(n)),
{
    reveal_with_fuel(pow10, 21);
    assert(pow10(20) == 100_000_000_000_000_000_000);
    lemma_decimal_len(n, 20);
}

proof fn lemma_ascii_add(a: Seq<char>, b: Seq<char>)
    requires
        is_ascii_chars(a),
        is_ascii_chars(b),
    ensures
        is_ascii_chars(a + b),
{
    is_ascii_chars_concat(a + b, a, b);
}

/// The bytes that a page's fixed texts and numbers take at most.
pub const MAX_PAGE_HEAD_BYTES: usize = 512;

proof fn lemma_head_is_short(page: HistoryPage)
    requires
        page.capacity <= u64::MAX,
        page.recorded_total <= u64::MAX,
        page.evicted_total <= u64::MAX,
        page.sequence_exhaustions <= u64::MAX,
        page.entries.len() <= u64::MAX,
        page.eligible <= u64::MAX,
        page.returned <= u64::MAX,
    ensures
        is_ascii_chars(page_head(page)),
        page_head(page).len() <= MAX_PAGE_HEAD_BYTES - 3,
{
    lemma_u64_decimal(page.capacity);
    lemma_u64_decimal(page.recorded_total);
    lemma_u64_decimal(page.evicted_total);
    lemma_u64_decimal(page.sequence_exhaustions);
    lemma_u64_decimal(page.entries.len());
    lemma_u64_decimal(page.eligible);
    lemma_u64_decimal(page.returned);
    reveal_strlit("{\"version\":1,\"capacity\":");
    reveal_strlit(",\"retained\":");
    reveal_strlit(",\"eligible\":");
    reveal_strlit(",\"returned\":");
    reveal_strlit(",\"recorded_total\":");
    reveal_strlit(",\"evicted_total\":");
    reveal_strlit(",\"sequence_exhaustions\":");
    reveal_strlit(",\"truncated\":");
    reveal_strlit(",\"has_more\":");
    reveal_strlit(",\"next_before\":");
    reveal_strlit(",\"requests\":[");
    reveal_strlit("true");
    reveal_strlit("false");
    reveal_strlit("null");
    let more: Seq<char> = json_bool(page.returned < page.eligible);
    let next: Seq<char> = json_number(next_before(page));
    if next_before(page) is Some {
        lemma_u64_decimal(next_before(page)->0 as nat);
    }
    let t0: Seq<char> = "{\"version\":1,\"capacity\":"@;
    let t1: Seq<char> = t0 + decimal(page.capacity);
    lemma_ascii_add(t0, decimal(page.capacity));
    let t2: Seq<char> = t1 + ",\"retained\":"@;
    lemma_ascii_add(t1, ",\"retained\":"@);
    let t3: Seq<char> = t2 + decimal(page.entries.len());
    lemma_ascii_add(t2, decimal(page.entries.len()));
    let t4: Seq<char> = t3 + ",\"eligible\":"@;
    lemma_ascii_add(t3, ",\"eligible\":"@);
    let t5: Seq<char> = t4 + decimal(page.eligible);
    lemma_ascii_add(t4, decimal(page.eligible));
    let t6: Seq<char> = t5 + ",\"returned\":"@;
    lemma_ascii_add(t5, ",\"returned\":"@);
    let t7: Seq<char> = t6 + decimal(page.returned);
    lemma_ascii_add(t6, decimal(page.returned));
    let t8: Seq<char> = t7 + ",\"recorded_total\":"@;
    lemma_ascii_add(t7, ",\"recorded_total\":"@);
    let t9: Seq<char> = t8 + decimal(page.recorded_total);
    lemma_ascii_add(t8, decimal(page.recorded_total));
    let t10: Seq<char> = t9 + ",\"evicted_total\":"@;
    lemma_ascii_add(t9, ",\"evicted_total\":"@);
    let t11: Seq<char> = t10 + decimal(page.evicted_total);
    lemma_ascii_add(t10, decimal(page.evicted_total));
    let t12: Seq<char> = t11 + ",\"sequence_exhaustions\":"@;
    lemma_ascii_add(t11, ",\"sequence_exhaustions\":"@);
    let t13: Seq<char> = t12 + decimal(page.sequence_exhaustions);
    lemma_ascii_add(t12, decimal(page.sequence_exhaustions));
    let t14: Seq<char> = t13 + ",\"truncated\":"@;
    lemma_ascii_add(t13, ",\"truncated\":"@);
    let t15: Seq<char> = t14 + more;
    lemma_ascii_add(t14, more);
    let t16: Seq<char> = t15 + ",\"has_more\":"@;
    lemma_ascii_add(t15, ",\"has_more\":"@);
    let t17: Seq<char> = t16 + more;
    lemma_ascii_add(t16, more);
    let t18: Seq<char> = t17 + ",\"next_before\":"@;
    lemma_ascii_add(t17, ",\"next_before\":"@);
    let t19: Seq<char> = t18 + next;
    lemma_ascii_add(t18, next);
    lemma_ascii_add(t19, ",\"requests\":["@);
    assert(page_head(page) == t19 + ",\"requests\":["@);
}

proof fn lemma_empty_page_fits(
    snapshot: RequestHistorySnapshot,
    start: nat,
    eligible: nat,
)
    requires
        start + eligible == snapshot.entries@.len(),
        snapshot.entries@.len() <= usize::MAX,
    ensures
        page_size(snapshot, start, eligible, 0) <= MAX_PAGE_HEAD_BYTES,
{
    let page: HistoryPage = page_of(snapshot, start, eligible, 0);
    lemma_head_is_short(page);
    let shown: Seq<RequestHistoryEntry> = page.entries.subrange(start as int, start as int);
    assert(shown =~= Seq::<RequestHistoryEntry>::empty());
    assert(with_entries(page_head(page), shown) == page_head(page));
    reveal_strlit("]}\n");
    lemma_ascii_add(page_head(page), "]}\n"@);
    is_ascii_chars_encode_utf8(page_json(page));
}

proof fn lemma_encode_add(a: Seq<char>, b: Seq<char>)
    ensures
        encode_utf8(a + b) == encode_utf8(a) + encode_utf8(b),
    decreases a.len(),
{
    if a.len() == 0 {
        assert(a + b =~= b);
        assert(encode_utf8(a) + encode_utf8(b) =~= encode_utf8(b));
    } else {
        lemma_encode_add(a.drop_first(), b);
        assert((a + b).drop_first() =~= a.drop_first() + b);
        assert(encode_utf8(a + b) =~= encode_utf8(a) + encode_utf8(b));
    }
}

proof fn lemma_encode_is_no_shorter(a: Seq<char>)
    ensures
        encode_utf8(a).len() >= a.len(),
    decreases a.len(),
{
    if a.len() > 0 {
        lemma_encode_is_no_shorter(a.drop_first());
        encode_utf8_first_scalar(a);
        assert(encode_scalar(a[0] as u32).len() >= 1);
    }
}

proof fn lemma_parts_added(out: Seq<char>, first: Seq<char>, second: Seq<char>)
    ensures
        out + (first + second) == out + first + second,
{
    assert(out + (first + second) =~= out + first + second);
}

proof fn lemma_entry_added(out: Seq<char>, entry: RequestHistoryEntry)
    ensures
        with_entry(out, entry) == out + with_entry(Seq::empty(), entry),
{
    let none: Seq<char> = Seq::empty();
    assert(out + none =~= out);
    lemma_parts_added(out, none, "{\"request_id\":"@);
    let t1 = none + "{\"request_id\":"@;
    lemma_parts_added(out, t1, decimal(entry.request_id as nat));
    let t2 = t1 + decimal(entry.request_id as nat);
    lemma_parts_added(out, t2, ",\"hostname\":"@);
    let t3 = t2 + ",\"hostname\":"@;
    lemma_parts_added(out, t3, json_text(entry.hostname@));
    let t4 = t3 + json_text(entry.hostname@);
    lemma_parts_added(out, t4, ",\"tunnel_id\":"@);
    let t5 = t4 + ",\"tunnel_id\":"@;
    lemma_parts_added(out, t5, json_text(entry.tunnel_id@));
    let t6 = t5 + json_text(entry.tunnel_id@);
    lemma_parts_added(out, t6, ",\"method\":"@);
    let t7 = t6 + ",\"method\":"@;
    lemma_parts_added(out, t7, json_text(entry.method@));
    let t8 = t7 + json_text(entry.method@);
    lemma_parts_added(out, t8, ",\"path\":"@);
    let t9 = t8 + ",\"path\":"@;
    lemma_parts_added(out, t9, json_text(entry.path@));
    let t10 = t9 + json_text(entry.path@);
    lemma_parts_added(out, t10, ",\"path_truncated\":"@);
    let t11 = t10 + ",\"path_truncated\":"@;
    lemma_parts_added(out, t11, json_bool(entry.path_truncated));
    let t12 = t11 + json_bool(entry.path_truncated);
    lemma_parts_added(out, t12, ",\"protocol\":\""@);
    let t13 = t12 + ",\"protocol\":\""@;
    lemma_parts_added(out, t13, entry.protocol.text());
    let t14 = t13 + entry.protocol.text();
    lemma_parts_added(out, t14, "\",\"response_status\":"@);
    let t15 = t14 + "\",\"response_status\":"@;
    lemma_parts_added(out, t15, decimal(entry.response_status as nat));
    let t16 = t15 + decimal(entry.response_status as nat);
    lemma_parts_added(out, t16, ",\"response_header_ms\":"@);
    let t17 = t16 + ",\"response_header_ms\":"@;
    lemma_parts_added(out, t17, decimal(entry.response_header_ms as nat));
    let t18 = t17 + decimal(entry.response_header_ms as nat);
    lemma_parts_added(out, t18, ",\"outcome\":\""@);
    let t19 = t18 + ",\"outcome\":\""@;
    lemma_parts_added(out, t19, entry.outcome.text());
    let t20 = t19 + entry.outcome.text();
    lemma_parts_added(out, t20, "\"}"@);
}

proof fn lemma_entry_is_long(entry: RequestHistoryEntry)
    ensures
        with_entry(Seq::empty(), entry).len() >= 100,
{
    reveal_strlit("{\"request_id\":");
    reveal_strlit(",\"hostname\":");
    reveal_strlit(",\"tunnel_id\":");
    reveal_strlit(",\"method\":");
    reveal_strlit(",\"path\":");
    reveal_strlit(",\"path_truncated\":");
    reveal_strlit(",\"protocol\":\"");
    reveal_strlit("\",\"response_status\":");
    reveal_strlit(",\"response_header_ms\":");
    reveal_strlit(",\"outcome\":\"");
    reveal_strlit("\"}");
}

proof fn lemma_head_len(page: HistoryPage)
    ensures
        page_head(page).len() == "{\"version\":1,\"capacity\":"@.len() + decimal(
            page.capacity,
        ).len() + ",\"retained\":"@.len() + decimal(page.entries.len()).len()
            + ",\"eligible\":"@.len() + decimal(page.eligible).len() + ",\"returned\":"@.len()
            + decimal(page.returned).len() + ",\"recorded_total\":"@.len() + decimal(
            page.recorded_total,
        ).len() + ",\"evicted_total\":"@.len() + decimal(page.evicted_total).len()
            + ",\"sequence_exhaustions\":"@.len() + decimal(page.sequence_exhaustions).len()
            + ",\"truncated\":"@.len() + json_bool(page.returned < page.eligible).len()
            + ",\"has_more\":"@.len() + json_bool(page.returned < page.eligible).len()
            + ",\"next_before\":"@.len() + json_number(next_before(page)).len()
            + ",\"requests\":["@.len(),
{
}

proof fn lemma_heads_are_alike(a: HistoryPage, b: HistoryPage)
    requires
        a == (HistoryPage { returned: a.returned, ..b }),
        a.returned <= u64::MAX,
        b.returned <= u64::MAX,
    ensures
        page_head(a).len() <= page_head(b).len() + 50,
{
    lemma_head_len(a);
    lemma_head_len(b);
    lemma_u64_decimal(a.returned);
    lemma_u64_decimal(b.returned);
    reveal_strlit("true");
    reveal_strlit("false");
    reveal_strlit("null");
    if next_before(a) is Some {
        lemma_u64_decimal(next_before(a)->0 as nat);
    }
}

proof fn lemma_page_size(
    snapshot: RequestHistorySnapshot,
    start: nat,
    eligible: nat,
    returned: nat,
)
    requires
        start + eligible == snapshot.entries@.len(),
        snapshot.entries@.len() <= usize::MAX,
        returned <= eligible,
    ensures
        page_size(snapshot, start, eligible, returned) == page_head(
            page_of(snapshot, start, eligible, returned),
        ).len() + encode_utf8(
            with_entries(
                Seq::empty(),
                snapshot.entries@.subrange(start as int, (start + returned) as int),
            ),
        ).len() + encode_utf8("]}\n"@).len(),
{
    let page: HistoryPage = page_of(snapshot, start, eligible, returned);
    let shown: Seq<RequestHistoryEntry> = snapshot.entries@.subrange(
        start as int,
        (start + returned) as int,
    );
    let head: Seq<char> = page_head(page);
    let body: Seq<char> = with_entries(Seq::empty(), shown);
    lemma_entries_added(head, shown);
    lemma_head_is_short(page);
    is_ascii_chars_encode_utf8(head);
    lemma_encode_add(head + body, "]}\n"@);
    lemma_encode_add(head, body);
}

proof fn lemma_entries_grow(entries: Seq<RequestHistoryEntry>)
    requires
        entries.len() > 0,
    ensures
        encode_utf8(with_entries(Seq::empty(), entries)).len() >= encode_utf8(
            with_entries(Seq::empty(), entries.drop_last()),
        ).len() + 100,
{
    let none: Seq<char> = Seq::empty();
    let body: Seq<char> = with_entries(none, entries.drop_last());
    let last: Seq<char> = with_entry(none, entries.last());
    let front: Seq<char> = if entries.len() > 1 { body + ","@ } else { body };
    lemma_entry_added(front, entries.last());
    lemma_encode_add(front, last);
    lemma_encode_add(body, ","@);
    lemma_encode_is_no_shorter(last);
    lemma_entry_is_long(entries.last());
}

/// Showing one request more makes a page longer.
pub proof fn longer_pages_take_more_bytes(
    snapshot: RequestHistorySnapshot,
    start: nat,
    eligible: nat,
    returned: nat,
)
    requires
        start + eligible == snapshot.entries@.len(),
        snapshot.entries@.len() <= usize::MAX,
        returned < eligible,
    ensures
        page_size(snapshot, start, eligible, returned) < page_size(
            snapshot,
            start,
            eligible,
            (returned + 1) as nat,
        ),
{
    lemma_page_size(snapshot, start, eligible, returned);
    lemma_page_size(snapshot, start, eligible, (returned + 1) as nat);
    let more: Seq<RequestHistoryEntry> = snapshot.entries@.subrange(
        start as int,
        (start + returned + 1) as int,
    );
    assert(more.drop_last() =~= snapshot.entries@.subrange(
        start as int,
        (start + returned) as int,
    ));
    lemma_entries_grow(more);
    lemma_heads_are_alike(
        page_of(snapshot, start, eligible, returned),
        page_of(snapshot, start, eligible, (returned + 1) as nat),
    );
}

proof fn lemma_entries_added(out: Seq<char>, entries: Seq<RequestHistoryEntry>)
    ensures
        with_entries(out, entries) == out + with_entries(Seq::empty(), entries),
    decreases entries.len(),
{
    let none: Seq<char> = Seq::empty();
    if entries.len() == 0 {
        assert(out + none =~= out);
    } else {
        let front: Seq<RequestHistoryEntry> = entries.drop_last();
        lemma_entries_added(out, front);
        let body: Seq<char> = with_entries(none, front);
        let before: Seq<char> = if entries.len() > 1 { body + ","@ } else { body };
        lemma_parts_added(out, body, ","@);
        lemma_entry_added(out + before, entries.last());
        lemma_entry_added(before, entries.last());
        lemma_parts_added(out, before, with_entry(none, entries.last()));
    }
}

proof fn lemma_larger_pages_do_not_fit(
    snapshot: RequestHistorySnapshot,
    start: nat,
    eligible: nat,
    from: nat,
    to: nat,
)
    requires
        start + eligible == snapshot.entries@.len(),
        snapshot.entries@.len() <= usize::MAX,
        from <= to <= eligible,
    ensures
        page_size(snapshot, start, eligible, from) <= page_size(snapshot, start, eligible, to),
    decreases to - from,
{
    if from < to {
        longer_pages_take_more_bytes(snapshot, start, eligible, from);
        lemma_larger_pages_do_not_fit(snapshot, start, eligible, from + 1, to);
    }
}

/// Whether a page shows as many requests as it may: no more than `limit`, and as
/// many as fit.
pub open spec fn is_fullest(
    snapshot: RequestHistorySnapshot,
    start: nat,
    eligible: nat,
    limit: nat,
    returned: nat,
) -> bool {
    &&& returned <= limit
    &&& page_size(snapshot, start, eligible, returned) <= MAX_REQUEST_HISTORY_RESPONSE_BYTES
    &&& forall|other: nat|
        returned < other <= limit ==> #[trigger] page_size(snapshot, start, eligible, other)
            > MAX_REQUEST_HISTORY_RESPONSE_BYTES
}

/// Whether a page is what a query asks for: it starts with the first request before
/// the identifier asked for, and shows as many as asked for and as fit.
pub open spec fn page_answers(
    snapshot: RequestHistorySnapshot,
    query: RequestHistoryQuery,
    page: HistoryPage,
) -> bool {
    let start = page_start(snapshot.entries@, query.before);
    let eligible = (snapshot.entries@.len() - start) as nat;
    let limit = page_limit(snapshot.capacity as nat, query, eligible);
    &&& page == page_of(snapshot, start, eligible, page.returned)
    &&& is_fullest(snapshot, start, eligible, limit, page.returned)
}

/// Writes the page that a query asks for: from the first request before the
/// identifier asked for, as many as asked for, and no more than fit.
pub fn render_request_history(
    snapshot: &RequestHistorySnapshot,
    query: RequestHistoryQuery,
) -> (body: String)
    ensures
        encode_utf8(body@).len() <= MAX_REQUEST_HISTORY_RESPONSE_BYTES,
        exists|page: HistoryPage| #[trigger]
            page_answers(*snapshot, query, page) && body@ == page_json(page),
{
    let start: usize = find_start(&snapshot.entries, query.before);
    let eligible: usize = snapshot.entries.len() - start;
    let wanted: usize = match query.limit {
        Some(limit) => limit,
        None => snapshot.capacity,
    };
    let limit: usize = if wanted <= eligible { wanted } else { eligible };
    let mut lower: usize = 0;
    let mut upper: usize = limit;
    proof {
        lemma_empty_page_fits(*snapshot, start as nat, eligible as nat);
    }
    while lower < upper
        invariant
            lower <= upper <= limit <= eligible,
            start + eligible == snapshot.entries@.len(),
            page_size(*snapshot, start as nat, eligible as nat, lower as nat)
                <= MAX_REQUEST_HISTORY_RESPONSE_BYTES,
            upper < limit ==> page_size(
                *snapshot,
                start as nat,
                eligible as nat,
                (upper + 1) as nat,
            ) > MAX_REQUEST_HISTORY_RESPONSE_BYTES,
        decreases upper - lower,
    {
        let half: usize = (upper - lower) / 2 + (upper - lower) % 2;
        let candidate: usize = lower + half;
        let body: String = serialize_request_history(snapshot, start, eligible, candidate);
        if body.as_str().as_bytes().len() <= MAX_REQUEST_HISTORY_RESPONSE_BYTES {
            lower = candidate;
        } else {
            upper = candidate - 1;
        }
    }
    let body: String = serialize_request_history(snapshot, start, eligible, lower);
    proof {
        let s: nat = page_start(snapshot.entries@, query.before);
        let e: nat = (snapshot.entries@.len() - s) as nat;
        assert(s == start as nat && e == eligible as nat);
        assert(limit as nat == page_limit(snapshot.capacity as nat, query, e));
        assert(lower == upper);
        assert(page_size(*snapshot, s, e, lower as nat) <= MAX_REQUEST_HISTORY_RESPONSE_BYTES);
        assert(body@ == page_json(page_of(*snapshot, s, e, lower as nat)));
        assert forall|other: nat|
            lower < other <= limit implies #[trigger] page_size(*snapshot, s, e, other)
            > MAX_REQUEST_HISTORY_RESPONSE_BYTES by {
            lemma_larger_pages_do_not_fit(*snapshot, s, e, (lower + 1) as nat, other);
        }
        assert(is_fullest(*snapshot, s, e, limit as nat, lower as nat));
        assert(page_answers(*snapshot, query, page_of(*snapshot, s, e, lower as nat)));
    }
    body
}

/// Whether identifiers go down from one request to the next.
pub open spec fn newest_first(entries: Seq<RequestHistoryEntry>) -> bool {
    forall|i: int, j: int|
        0 <= i < j < entries.len() ==> (#[trigger] entries[i]).request_id > (
        #[trigger] entries[j]).request_id
}

proof fn lemma_start_after(entries: Seq<RequestHistoryEntry>, at: int)
    requires
        newest_first(entries),
        0 <= at < entries.len(),
    ensures
        page_start(entries, Some(entries[at].request_id)) == at + 1,
    decreases at,
{
    let before: Option<u64> = Some(entries[at].request_id);
    let rest: Seq<RequestHistoryEntry> = entries.skip(1);
    assert(!(entries[0].request_id < entries[at].request_id));
    if at == 0 {
        if rest.len() > 0 {
            assert(rest[0] == entries[1]);
        }
        assert(page_start(rest, before) == 0);
    } else {
        assert(newest_first(rest)) by {
            assert forall|i: int, j: int| 0 <= i < j < rest.len() implies (
            #[trigger] rest[i]).request_id > (#[trigger] rest[j]).request_id by {
                assert(rest[i] == entries[i + 1] && rest[j] == entries[j + 1]);
            }
        }
        assert(rest[at - 1] == entries[at]);
        lemma_start_after(rest, at - 1);
    }
}

/// Asking for the page before the identifier that a page names continues just
/// behind it: no request is left out, and none is shown twice.
pub proof fn pages_continue_without_gap_or_repeat(page: HistoryPage)
    requires
        newest_first(page.entries),
        page.start + page.eligible == page.entries.len(),
        page.returned <= page.eligible,
        next_before(page) is Some,
    ensures
        page_start(page.entries, next_before(page)) == page.start + page.returned,
{
    lemma_start_after(page.entries, page.start + page.returned - 1);
}

/// A page names no identifier to continue from just where it shows nothing, or
/// all there is.
pub proof fn last_page_names_no_continuation(page: HistoryPage)
    requires
        page.returned <= page.eligible,
    ensures
        next_before(page) is None <==> page.returned == 0 || page.returned == page.eligible,
{
}

/// What a well-formed history shows is newest first.
pub proof fn histories_show_newest_first(history: HistoryState)
    requires
        history_wf(history),
    ensures
        newest_first(history.entries.reverse()),
{
    let shown: Seq<RequestHistoryEntry> = history.entries.reverse();
    assert forall|i: int, j: int| 0 <= i < j < shown.len() implies (#[trigger] shown[i]).request_id
        > (#[trigger] shown[j]).request_id by {
        assert(shown[i] == history.entries[history.entries.len() - 1 - i]);
        assert(shown[j] == history.entries[history.entries.len() - 1 - j]);
    }
}

/// One page only answers a query.
pub proof fn a_query_has_one_answer(
    snapshot: RequestHistorySnapshot,
    query: RequestHistoryQuery,
    page: HistoryPage,
    other: HistoryPage,
)
    requires
        page_answers(snapshot, query, page),
        page_answers(snapshot, query, other),
    ensures
        page == other,
{
    let start = page_start(snapshot.entries@, query.before);
    let eligible = (snapshot.entries@.len() - start) as nat;
    assert(page_size(snapshot, start, eligible, page.returned)
        <= MAX_REQUEST_HISTORY_RESPONSE_BYTES);
    assert(page_size(snapshot, start, eligible, other.returned)
        <= MAX_REQUEST_HISTORY_RESPONSE_BYTES);
}

/// Whether there are requests behind those that a page shows.
pub open spec fn has_more(page: HistoryPage) -> bool {
    page.returned < page.eligible
}

/// The requests that a page shows.
pub open spec fn shown_on(page: HistoryPage) -> Seq<RequestHistoryEntry> {
    page.entries.subrange(page.start as int, (page.start + page.returned) as int)
}

/// The requests that pages show, one page after the other.
pub open spec fn shown_on_all(pages: Seq<HistoryPage>) -> Seq<RequestHistoryEntry>
    decreases pages.len(),
{
    if pages.len() == 0 {
        Seq::empty()
    } else {
        shown_on(pages[0]) + shown_on_all(pages.skip(1))
    }
}

/// Whether pages are what a reader gets who asks for the page before an identifier,
/// then, as long as there are more requests, for the page before the identifier that
/// the last page named.
pub open spec fn pages_follow(
    snapshot: RequestHistorySnapshot,
    before: Option<u64>,
    limit: Option<usize>,
    pages: Seq<HistoryPage>,
) -> bool
    decreases pages.len(),
{
    &&& pages.len() > 0
    &&& page_answers(snapshot, RequestHistoryQuery { before, limit }, pages[0])
    &&& if has_more(pages[0]) {
        &&& next_before(pages[0]) is Some
        &&& pages_follow(snapshot, next_before(pages[0]), limit, pages.skip(1))
    } else {
        pages.len() == 1
    }
}

proof fn lemma_start_within(entries: Seq<RequestHistoryEntry>, before: Option<u64>)
    ensures
        page_start(entries, before) <= entries.len(),
    decreases entries.len(),
{
    if before is Some && entries.len() > 0 {
        lemma_start_within(entries.skip(1), before);
    }
}

proof fn lemma_pages_show_the_rest(
    snapshot: RequestHistorySnapshot,
    before: Option<u64>,
    limit: Option<usize>,
    pages: Seq<HistoryPage>,
)
    requires
        newest_first(snapshot.entries@),
        pages_follow(snapshot, before, limit, pages),
    ensures
        shown_on_all(pages) == snapshot.entries@.skip(
            page_start(snapshot.entries@, before) as int,
        ),
        !has_more(pages.last()),
    decreases pages.len(),
{
    let entries = snapshot.entries@;
    let page = pages[0];
    let rest = pages.skip(1);
    reveal_with_fuel(pages_follow, 2);
    reveal_with_fuel(shown_on_all, 2);
    lemma_start_within(entries, before);
    if has_more(page) {
        pages_continue_without_gap_or_repeat(page);
        lemma_pages_show_the_rest(snapshot, next_before(page), limit, rest);
        assert(rest.last() == pages.last());
        assert(shown_on(page) + entries.skip((page.start + page.returned) as int) =~= entries.skip(
            page.start as int,
        ));
    } else {
        assert(rest =~= Seq::<HistoryPage>::empty());
        assert(shown_on_all(pages) =~= entries.skip(page.start as int));
    }
}

/// A reader who starts with the newest request and follows the pages to the end is
/// shown every request of the history once, the newest first, and the last page names
/// no identifier to continue from.
pub proof fn pages_show_the_whole_history(
    snapshot: RequestHistorySnapshot,
    limit: Option<usize>,
    pages: Seq<HistoryPage>,
)
    requires
        newest_first(snapshot.entries@),
        pages_follow(snapshot, None, limit, pages),
    ensures
        shown_on_all(pages) == snapshot.entries@,
        newest_first(shown_on_all(pages)),
        !has_more(pages.last()),
        next_before(pages.last()) is None,
{
    lemma_pages_show_the_rest(snapshot, None, limit, pages);
    assert(snapshot.entries@.skip(0) =~= snapshot.entries@);
}

proof fn lemma_fullest_exists(
    snapshot: RequestHistorySnapshot,
    start: nat,
    eligible: nat,
    limit: nat,
    bound: nat,
) -> (returned: nat)
    requires
        start + eligible == snapshot.entries@.len(),
        bound <= limit <= eligible,
        forall|other: nat|
            bound < other <= limit ==> #[trigger] page_size(snapshot, start, eligible, other)
                > MAX_REQUEST_HISTORY_RESPONSE_BYTES,
    ensures
        is_fullest(snapshot, start, eligible, limit, returned),
    decreases bound,
{
    assert(snapshot.entries.len() == snapshot.entries@.len());
    if page_size(snapshot, start, eligible, bound) <= MAX_REQUEST_HISTORY_RESPONSE_BYTES {
        bound
    } else {
        lemma_empty_page_fits(snapshot, start, eligible);
        lemma_fullest_exists(snapshot, start, eligible, limit, (bound - 1) as nat)
    }
}

/// Whether every request of a history fits on a page of its own, wherever the page
/// starts.
pub open spec fn each_request_fits(snapshot: RequestHistorySnapshot) -> bool {
    forall|start: nat|
        start < snapshot.entries@.len() ==> #[trigger] page_size(
            snapshot,
            start,
            (snapshot.entries@.len() - start) as nat,
            1,
        ) <= MAX_REQUEST_HISTORY_RESPONSE_BYTES
}

proof fn lemma_pages_come_to_an_end(
    snapshot: RequestHistorySnapshot,
    before: Option<u64>,
    limit: Option<usize>,
) -> (pages: Seq<HistoryPage>)
    requires
        newest_first(snapshot.entries@),
        each_request_fits(snapshot),
        match limit {
            Some(limit) => limit >= 1,
            None => snapshot.capacity >= 1,
        },
    ensures
        pages_follow(snapshot, before, limit, pages),
    decreases snapshot.entries@.len() - page_start(snapshot.entries@, before),
{
    let entries = snapshot.entries@;
    let query = RequestHistoryQuery { before, limit };
    lemma_start_within(entries, before);
    let start = page_start(entries, before);
    let eligible = (entries.len() - start) as nat;
    let most = page_limit(snapshot.capacity as nat, query, eligible);
    let returned = lemma_fullest_exists(snapshot, start, eligible, most, most);
    let page = page_of(snapshot, start, eligible, returned);
    assert(page_answers(snapshot, query, page));
    if has_more(page) {
        if returned == 0 {
            assert(page_size(snapshot, start, eligible, 1) <= MAX_REQUEST_HISTORY_RESPONSE_BYTES);
        }
        pages_continue_without_gap_or_repeat(page);
        lemma_start_within(entries, next_before(page));
        let rest = lemma_pages_come_to_an_end(snapshot, next_before(page), limit);
        let pages = seq![page] + rest;
        assert(pages.skip(1) =~= rest);
        pages
    } else {
        seq![page]
    }
}

/// Following the pages comes to an end, where at least one request is asked for at a
/// time and every request fits on a page of its own.
pub proof fn pages_come_to_an_end(snapshot: RequestHistorySnapshot, limit: Option<usize>)
    requires
        newest_first(snapshot.entries@),
        each_request_fits(snapshot),
        match limit {
            Some(limit) => limit >= 1,
            None => snapshot.capacity >= 1,
        },
    ensures
        exists|pages: Seq<HistoryPage>| pages_follow(snapshot, None, limit, pages),
{
    let pages = lemma_pages_come_to_an_end(snapshot, None, limit);
}

/// A page starts with the first request that is older than the one that was named, or with
/// the newest where none was.
pub proof fn pages_start_where_asked(entries: Seq<RequestHistoryEntry>, before: Option<u64>)
    ensures
        ({
            let start = page_start(entries, before);
            &&& before is None ==> start == 0
            &&& start <= entries.len()
            &&& before is Some && start < entries.len() ==> entries[start as int].request_id
                < before->0
            &&& before is Some ==> forall|i: int|
                0 <= i < start ==> (#[trigger] entries[i]).request_id >= before->0
        }),
    decreases entries.len(),
{
    if before is Some && entries.len() > 0 && entries[0].request_id >= before->0 {
        let rest: Seq<RequestHistoryEntry> = entries.skip(1);
        pages_start_where_asked(rest, before);
        assert forall|i: int| 0 <= i < page_start(entries, before) implies (
        #[trigger] entries[i]).request_id >= before->0 by {
            if i > 0 {
                assert(rest[i - 1] == entries[i]);
            }
        }
    }
}

/// A page shows no more requests than were asked for, than are kept and than are left; and
/// where nothing was asked for, as many as are kept.
pub proof fn pages_show_as_many_as_asked(
    capacity: nat,
    query: RequestHistoryQuery,
    eligible: nat,
)
    ensures
        ({
            let limit = page_limit(capacity, query, eligible);
            &&& limit <= eligible
            &&& query.limit matches Some(n) ==> limit <= n && (limit == n || limit == eligible)
            &&& query.limit is None ==> limit <= capacity && (limit == capacity || limit
                == eligible)
        }),
{
}

/// A query asks for the requests before an identifier, and for a number of them, by name;
/// numbers start with 1 and a page holds at most 128 requests, each name may stand once,
/// and nothing else may be asked.
pub proof fn queries_are_read_by_name(query: RequestHistoryQuery, n: nat)
    ensures
        ({
            let digits = decimal(n).map_values(|c: char| c as u8);
            let before = with_parameter(query, "before".spec_bytes() + seq![61u8] + digits);
            let limit = with_parameter(query, "limit".spec_bytes() + seq![61u8] + digits);
            &&& before is Some <==> query.before is None && 1 <= n <= u64::MAX
            &&& before is Some ==> before->0.before == Some(n as u64) && before->0.limit
                == query.limit
            &&& limit is Some <==> query.limit is None && 1 <= n <= 128
            &&& limit is Some ==> limit->0.limit == Some(n as usize) && limit->0.before
                == query.before
        }),
{
    let digits: Seq<u8> = decimal(n).map_values(|c: char| c as u8);
    lemma_decimal_digits(n);
    reveal_strlit("before");
    is_ascii_spec_bytes("before");
    reveal_strlit("limit");
    is_ascii_spec_bytes("limit");
    let first: Seq<u8> = "before".spec_bytes();
    let second: Seq<u8> = "limit".spec_bytes();
    lemma_named_parameter(first, digits);
    lemma_named_parameter(second, digits);
    assert(first.len() != second.len());
}

/// A parameter with another name, or without a value, cannot be asked.
pub proof fn other_parameters_are_refused(
    query: RequestHistoryQuery,
    name: Seq<u8>,
    value: Seq<u8>,
)
    requires
        !name.contains(61),
        name != "before".spec_bytes(),
        name != "limit".spec_bytes(),
    ensures
        with_parameter(query, name + seq![61u8] + value) is None,
        with_parameter(query, name) is None,
{
    lemma_named_parameter(name, value);
    assert forall|k: int| 0 <= k < name.len() implies name[k] != EQUALS by {}
    lemma_first_or_len(name, EQUALS, name.len() as int);
}

proof fn lemma_named_parameter(name: Seq<u8>, value: Seq<u8>)
    requires
        forall|k: int| 0 <= k < name.len() ==> name[k] != 61,
    ensures
        ({
            let whole = name + seq![61u8] + value;
            let at = first_or_len(whole, EQUALS);
            &&& at == name.len()
            &&& at < whole.len()
            &&& whole.take(at) == name
            &&& whole.skip(at + 1) == value
        }),
{
    let whole: Seq<u8> = name + seq![61u8] + value;
    lemma_first_or_len(whole, EQUALS, name.len() as int);
    assert(whole.take(name.len() as int) =~= name);
    assert(whole.skip(name.len() as int + 1) =~= value);
}

/// Whether a text stands somewhere in another.
#[verifier::opaque]
pub open spec fn stands_in(text: Seq<char>, part: Seq<char>) -> bool {
    exists|before: Seq<char>, after: Seq<char>| text == #[trigger] (before + part + after)
}

proof fn lemma_stands(before: Seq<char>, name: Seq<char>, value: Seq<char>)
    ensures
        stands_in(before + name + value, name + value),
{
    reveal(stands_in);
    assert(before + name + value =~= before + (name + value) + Seq::<char>::empty());
}

broadcast proof fn lemma_stands_longer(text: Seq<char>, more: Seq<char>, part: Seq<char>)
    requires
        stands_in(text, part),
    ensures
        #[trigger] stands_in(text + more, part),
{
    reveal(stands_in);
    let (before, after) = choose|before: Seq<char>, after: Seq<char>|
        text == #[trigger] (before + part + after);
    assert(text + more =~= before + part + (after + more));
}

/// A request is shown with each of its values under its own name.
pub proof fn entries_show_their_values(out: Seq<char>, entry: RequestHistoryEntry)
    ensures
        stands_in(with_entry(out, entry), "{\"request_id\":"@ + decimal(entry.request_id as nat)),
        stands_in(with_entry(out, entry), ",\"hostname\":"@ + json_text(entry.hostname@)),
        stands_in(with_entry(out, entry), ",\"tunnel_id\":"@ + json_text(entry.tunnel_id@)),
        stands_in(with_entry(out, entry), ",\"method\":"@ + json_text(entry.method@)),
        stands_in(with_entry(out, entry), ",\"path\":"@ + json_text(entry.path@)),
        stands_in(with_entry(out, entry), ",\"path_truncated\":"@ + json_bool(entry.path_truncated)),
        stands_in(with_entry(out, entry), ",\"protocol\":\""@ + entry.protocol.text()),
        stands_in(with_entry(out, entry), "\",\"response_status\":"@ + decimal(entry.response_status as nat)),
        stands_in(with_entry(out, entry), ",\"response_header_ms\":"@ + decimal(entry.response_header_ms as nat)),
        stands_in(with_entry(out, entry), ",\"outcome\":\""@ + entry.outcome.text()),
{
    broadcast use lemma_stands_longer;

    lemma_stands(out, "{\"request_id\":"@, decimal(entry.request_id as nat));
    let t0: Seq<char> = out + "{\"request_id\":"@ + decimal(entry.request_id as nat);
    lemma_stands(t0, ",\"hostname\":"@, json_text(entry.hostname@));
    let t1: Seq<char> = t0 + ",\"hostname\":"@ + json_text(entry.hostname@);
    lemma_stands(t1, ",\"tunnel_id\":"@, json_text(entry.tunnel_id@));
    let t2: Seq<char> = t1 + ",\"tunnel_id\":"@ + json_text(entry.tunnel_id@);
    lemma_stands(t2, ",\"method\":"@, json_text(entry.method@));
    let t3: Seq<char> = t2 + ",\"method\":"@ + json_text(entry.method@);
    lemma_stands(t3, ",\"path\":"@, json_text(entry.path@));
    let t4: Seq<char> = t3 + ",\"path\":"@ + json_text(entry.path@);
    lemma_stands(t4, ",\"path_truncated\":"@, json_bool(entry.path_truncated));
    let t5: Seq<char> = t4 + ",\"path_truncated\":"@ + json_bool(entry.path_truncated);
    lemma_stands(t5, ",\"protocol\":\""@, entry.protocol.text());
    let t6: Seq<char> = t5 + ",\"protocol\":\""@ + entry.protocol.text();
    lemma_stands(t6, "\",\"response_status\":"@, decimal(entry.response_status as nat));
    let t7: Seq<char> = t6 + "\",\"response_status\":"@ + decimal(entry.response_status as nat);
    lemma_stands(t7, ",\"response_header_ms\":"@, decimal(entry.response_header_ms as nat));
    let t8: Seq<char> = t7 + ",\"response_header_ms\":"@ + decimal(entry.response_header_ms as nat);
    lemma_stands(t8, ",\"outcome\":\""@, entry.outcome.text());
    let t9: Seq<char> = t8 + ",\"outcome\":\""@ + entry.outcome.text();
}

/// What a page is about stands at its head, each number under its own name.
pub proof fn pages_show_what_they_are_about(page: HistoryPage)
    ensures
        stands_in(page_head(page), "{\"version\":1,\"capacity\":"@ + decimal(page.capacity)),
        stands_in(page_head(page), ",\"retained\":"@ + decimal(page.entries.len())),
        stands_in(page_head(page), ",\"eligible\":"@ + decimal(page.eligible)),
        stands_in(page_head(page), ",\"returned\":"@ + decimal(page.returned)),
        stands_in(page_head(page), ",\"recorded_total\":"@ + decimal(page.recorded_total)),
        stands_in(page_head(page), ",\"evicted_total\":"@ + decimal(page.evicted_total)),
        stands_in(page_head(page), ",\"sequence_exhaustions\":"@ + decimal(page.sequence_exhaustions)),
        stands_in(page_head(page), ",\"truncated\":"@ + (if page.returned < page.eligible { "true"@ } else { "false"@ })),
        stands_in(page_head(page), ",\"has_more\":"@ + (if page.returned < page.eligible { "true"@ } else { "false"@ })),
        stands_in(page_head(page), ",\"next_before\":"@ + (match next_before(page) { Some(n) => decimal(n as nat), None => "null"@ })),
{
    broadcast use lemma_stands_longer;

    lemma_stands(Seq::empty(), "{\"version\":1,\"capacity\":"@, decimal(page.capacity));
    assert(Seq::<char>::empty() + "{\"version\":1,\"capacity\":"@ =~= "{\"version\":1,\"capacity\":"@);
    let t0: Seq<char> = "{\"version\":1,\"capacity\":"@ + decimal(page.capacity);
    lemma_stands(t0, ",\"retained\":"@, decimal(page.entries.len()));
    let t1: Seq<char> = t0 + ",\"retained\":"@ + decimal(page.entries.len());
    lemma_stands(t1, ",\"eligible\":"@, decimal(page.eligible));
    let t2: Seq<char> = t1 + ",\"eligible\":"@ + decimal(page.eligible);
    lemma_stands(t2, ",\"returned\":"@, decimal(page.returned));
    let t3: Seq<char> = t2 + ",\"returned\":"@ + decimal(page.returned);
    lemma_stands(t3, ",\"recorded_total\":"@, decimal(page.recorded_total));
    let t4: Seq<char> = t3 + ",\"recorded_total\":"@ + decimal(page.recorded_total);
    lemma_stands(t4, ",\"evicted_total\":"@, decimal(page.evicted_total));
    let t5: Seq<char> = t4 + ",\"evicted_total\":"@ + decimal(page.evicted_total);
    lemma_stands(t5, ",\"sequence_exhaustions\":"@, decimal(page.sequence_exhaustions));
    let t6: Seq<char> = t5 + ",\"sequence_exhaustions\":"@ + decimal(page.sequence_exhaustions);
    lemma_stands(t6, ",\"truncated\":"@, json_bool(page.returned < page.eligible));
    let t7: Seq<char> = t6 + ",\"truncated\":"@ + json_bool(page.returned < page.eligible);
    lemma_stands(t7, ",\"has_more\":"@, json_bool(page.returned < page.eligible));
    let t8: Seq<char> = t7 + ",\"has_more\":"@ + json_bool(page.returned < page.eligible);
    lemma_stands(t8, ",\"next_before\":"@, json_number(next_before(page)));
    let t9: Seq<char> = t8 + ",\"next_before\":"@ + json_number(next_before(page));
}

/// A page ends with the requests that it shows, one behind the other, from where it starts.
pub proof fn pages_list_their_requests(out: Seq<char>, entries: Seq<RequestHistoryEntry>)
    ensures
        with_entries(out, Seq::empty()) == out,
        entries.len() == 1 ==> with_entries(out, entries) == with_entry(out, entries[0]),
        entries.len() > 1 ==> with_entries(out, entries) == with_entry(
            with_entries(out, entries.drop_last()) + seq![','],
            entries.last(),
        ),
{
    reveal_with_fuel(with_entries, 2);
    reveal_strlit(",");
    assert(","@ =~= seq![',']);
    if entries.len() == 1 {
        assert(entries.drop_last() =~= Seq::empty());
    }
}

} // verus!
