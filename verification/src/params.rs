//! Connection parameters: where requests go and what every request carries.
use crate::text::{ascii_text, from_ascii, is_ascii_bytes, text_eq};
use vstd::prelude::*;
use vstd::string::*;
use vstd::utf8::*;

verus! {

/// The url that requests go to when no other is given.
pub open spec fn default_base_url() -> Seq<char> {
    "http://localhost:9200"@
}

/// Whether a byte stands for itself in a query string.
pub open spec fn is_unreserved(byte: u8) -> bool {
    ||| byte == 0x2a
    ||| byte == 0x2d
    ||| byte == 0x2e
    ||| byte == 0x5f
    ||| 0x30 <= byte <= 0x39
    ||| 0x41 <= byte <= 0x5a
    ||| 0x61 <= byte <= 0x7a
}

/// The upper case hexadecimal digit for a number below sixteen.
pub open spec fn hex_digit(nibble: u8) -> u8 {
    if nibble < 10 {
        (0x30 + nibble) as u8
    } else {
        (0x41 + (nibble - 10)) as u8
    }
}

/// A byte as it stands in a query string: itself where it is unreserved, a
/// plus sign for a space, and otherwise a percent sign and two hexadecimal
/// digits.
pub open spec fn encode_byte(byte: u8) -> Seq<u8> {
    if is_unreserved(byte) {
        seq![byte]
    } else if byte == 0x20 {
        seq![0x2bu8]
    } else {
        seq![0x25u8, hex_digit(byte / 16), hex_digit(byte % 16)]
    }
}

/// Bytes as they stand in a query string, byte by byte.
pub open spec fn encode_bytes(bytes: Seq<u8>) -> Seq<u8>
    decreases bytes.len(),
{
    if bytes.len() == 0 {
        Seq::empty()
    } else {
        encode_bytes(bytes.drop_last()) + encode_byte(bytes.last())
    }
}

/// A key and its value as they stand in a query string.
pub open spec fn encode_pair(key: Seq<char>, value: Seq<char>) -> Seq<u8> {
    encode_bytes(encode_utf8(key)) + seq![0x3du8] + encode_bytes(encode_utf8(value))
}

/// The query string for the given parameters: a question mark before the
/// first pair, an ampersand before each other pair, nothing for no pair.
pub open spec fn query_bytes(pairs: Seq<(Seq<char>, Seq<char>)>) -> Seq<u8>
    decreases pairs.len(),
{
    if pairs.len() == 0 {
        Seq::empty()
    } else {
        query_bytes(pairs.drop_last()) + seq![
            if pairs.len() == 1 {
                0x3fu8
            } else {
                0x26u8
            },
        ] + encode_pair(pairs.last().0, pairs.last().1)
    }
}

/// The query string for the given parameters, as text.
pub open spec fn query_text(pairs: Seq<(Seq<char>, Seq<char>)>) -> Seq<char> {
    ascii_text(query_bytes(pairs))
}

/// The place of `key` among the keys of `pairs`, or their number where it is
/// not among them.
pub open spec fn position_of(pairs: Seq<(Seq<char>, Seq<char>)>, key: Seq<char>) -> int
    decreases pairs.len(),
{
    if pairs.len() == 0 {
        0
    } else if pairs[0].0 == key {
        0
    } else {
        1 + position_of(pairs.subrange(1, pairs.len() as int), key)
    }
}

/// The pairs after `key` is given `value`: the value takes the place of the
/// one that the key had, or the pair comes last where the key is new.
pub open spec fn with_pair(pairs: Seq<(Seq<char>, Seq<char>)>, key: Seq<char>, value: Seq<char>) -> Seq<
    (Seq<char>, Seq<char>),
> {
    let at = position_of(pairs, key);
    if at < pairs.len() {
        pairs.update(at, (key, value))
    } else {
        pairs.push((key, value))
    }
}

/// Whether no key occurs twice.
pub open spec fn distinct_keys(pairs: Seq<(Seq<char>, Seq<char>)>) -> bool {
    forall|i: int, j: int|
        0 <= i < pairs.len() && 0 <= j < pairs.len() && i != j ==> pairs[i].0 != pairs[j].0
}

/// How often `key` occurs among the keys of `pairs`.
pub open spec fn occurrences(pairs: Seq<(Seq<char>, Seq<char>)>, key: Seq<char>) -> nat
    decreases pairs.len(),
{
    if pairs.len() == 0 {
        0
    } else {
        occurrences(pairs.drop_last(), key) + if pairs.last().0 == key {
            1nat
        } else {
            0nat
        }
    }
}

/// The value that `key` has among `pairs`.
pub open spec fn value_of(pairs: Seq<(Seq<char>, Seq<char>)>, key: Seq<char>) -> Option<Seq<char>> {
    let at = position_of(pairs, key);
    if at < pairs.len() {
        Some(pairs[at].1)
    } else {
        None
    }
}

/// Pairs of texts as a mathematical value.
pub open spec fn pairs_view(pairs: Seq<(String, String)>) -> Seq<(Seq<char>, Seq<char>)> {
    Seq::new(pairs.len(), |i: int| (pairs[i].0@, pairs[i].1@))
}

/// The place that `position_of` names holds the key, and no place before it
/// does.
pub proof fn lemma_position_of(pairs: Seq<(Seq<char>, Seq<char>)>, key: Seq<char>)
    ensures
        0 <= position_of(pairs, key) <= pairs.len(),
        position_of(pairs, key) < pairs.len() ==> pairs[position_of(pairs, key)].0 == key,
        forall|i: int| 0 <= i < position_of(pairs, key) ==> pairs[i].0 != key,
    decreases pairs.len(),
{
    if pairs.len() > 0 && pairs[0].0 != key {
        let rest = pairs.subrange(1, pairs.len() as int);
        lemma_position_of(rest, key);
        assert forall|i: int| 0 <= i < position_of(pairs, key) implies pairs[i].0 != key by {
            if i > 0 {
                assert(rest[i - 1] == pairs[i]);
            }
        }
    }
}

/// A key that no place before `at` holds and that the place `at` holds, or
/// that no place holds where `at` is the number of pairs, has its place at
/// `at`.
pub proof fn lemma_position_is(pairs: Seq<(Seq<char>, Seq<char>)>, key: Seq<char>, at: int)
    requires
        0 <= at <= pairs.len(),
        forall|i: int| 0 <= i < at ==> pairs[i].0 != key,
        at < pairs.len() ==> pairs[at].0 == key,
    ensures
        position_of(pairs, key) == at,
    decreases pairs.len(),
{
    if pairs.len() > 0 && at > 0 {
        let rest = pairs.subrange(1, pairs.len() as int);
        assert forall|i: int| 0 <= i < at - 1 implies rest[i].0 != key by {
            assert(rest[i] == pairs[i + 1]);
        }
        lemma_position_is(rest, key, at - 1);
    }
}

/// Giving a key a value leaves no key twice.
pub proof fn lemma_with_pair_distinct(
    pairs: Seq<(Seq<char>, Seq<char>)>,
    key: Seq<char>,
    value: Seq<char>,
)
    requires
        distinct_keys(pairs),
    ensures
        distinct_keys(with_pair(pairs, key, value)),
{
    lemma_position_of(pairs, key);
    let after = with_pair(pairs, key, value);
    let at = position_of(pairs, key);
    assert forall|i: int, j: int|
        0 <= i < after.len() && 0 <= j < after.len() && i != j implies after[i].0 != after[j].0 by {
        if at < pairs.len() {
            assert(after[i].0 == pairs[i].0);
            assert(after[j].0 == pairs[j].0);
        } else {
            if i < pairs.len() && j < pairs.len() {
                assert(after[i].0 == pairs[i].0);
                assert(after[j].0 == pairs[j].0);
            }
        }
    }
}

/// Among pairs with no key twice, a key that some place holds occurs once.
pub proof fn lemma_occurs_once(pairs: Seq<(Seq<char>, Seq<char>)>, key: Seq<char>, at: int)
    requires
        distinct_keys(pairs),
        0 <= at < pairs.len(),
        pairs[at].0 == key,
    ensures
        occurrences(pairs, key) == 1,
    decreases pairs.len(),
{
    let front = pairs.drop_last();
    if at == pairs.len() - 1 {
        lemma_occurs_never(front, key);
    } else {
        assert(front[at] == pairs[at]);
        lemma_occurs_once(front, key, at);
    }
}

/// A key that no place holds does not occur.
pub proof fn lemma_occurs_never(pairs: Seq<(Seq<char>, Seq<char>)>, key: Seq<char>)
    requires
        forall|i: int| 0 <= i < pairs.len() ==> pairs[i].0 != key,
    ensures
        occurrences(pairs, key) == 0,
    decreases pairs.len(),
{
    if pairs.len() > 0 {
        let front = pairs.drop_last();
        assert forall|i: int| 0 <= i < front.len() implies front[i].0 != key by {
            assert(front[i] == pairs[i]);
        }
        lemma_occurs_never(front, key);
    }
}

/// Giving a key a value makes the key occur exactly once, with that value,
/// whether the key was there before or not. A key that was there keeps its
/// place, so the number of pairs stays what it was.
pub proof fn lemma_override_occurs_once(
    pairs: Seq<(Seq<char>, Seq<char>)>,
    key: Seq<char>,
    value: Seq<char>,
)
    requires
        distinct_keys(pairs),
    ensures
        occurrences(with_pair(pairs, key, value), key) == 1,
        value_of(with_pair(pairs, key, value), key) == Some(value),
        occurrences(pairs, key) == 1 ==> with_pair(pairs, key, value).len() == pairs.len(),
        occurrences(pairs, key) == 0 ==> with_pair(pairs, key, value) == pairs.push((key, value)),
{
    lemma_position_of(pairs, key);
    lemma_with_pair_distinct(pairs, key, value);
    let at = position_of(pairs, key);
    let after = with_pair(pairs, key, value);
    assert(after[at].0 == key);
    lemma_occurs_once(after, key, at);
    assert forall|i: int| 0 <= i < at implies after[i].0 != key by {
        assert(after[i].0 == pairs[i].0);
    }
    lemma_position_is(after, key, at);
    if at < pairs.len() {
        lemma_occurs_once(pairs, key, at);
    } else {
        lemma_occurs_never(pairs, key);
    }
}

/// Giving a key a value leaves every other key with the value that it had.
pub proof fn lemma_override_keeps_others(
    pairs: Seq<(Seq<char>, Seq<char>)>,
    key: Seq<char>,
    value: Seq<char>,
    other: Seq<char>,
)
    requires
        other != key,
    ensures
        value_of(with_pair(pairs, key, value), other) == value_of(pairs, other),
{
    lemma_position_of(pairs, key);
    lemma_position_of(pairs, other);
    let after = with_pair(pairs, key, value);
    let at = position_of(pairs, other);
    assert forall|i: int| 0 <= i < at implies after[i].0 != other by {
        if i == position_of(pairs, key) {
        } else {
            assert(after[i].0 == pairs[i].0);
        }
    }
    if at < pairs.len() {
        assert(after[at] == pairs[at]);
        lemma_position_is(after, other, at);
    } else {
        assert forall|i: int| 0 <= i < after.len() implies after[i].0 != other by {
            if i < pairs.len() && i != position_of(pairs, key) {
                assert(after[i].0 == pairs[i].0);
            }
        }
        lemma_position_is(after, other, after.len() as int);
    }
}

/// Whether a byte can stand in an encoded key or value: an unreserved byte,
/// a plus sign or a percent sign.
pub open spec fn is_encoded_byte(byte: u8) -> bool {
    is_unreserved(byte) || byte == 0x2b || byte == 0x25
}

/// Whether a byte can stand in a query string: what can stand in an encoded
/// key or value, an equals sign, an ampersand or a question mark.
pub open spec fn is_query_byte(byte: u8) -> bool {
    is_encoded_byte(byte) || byte == 0x3d || byte == 0x26 || byte == 0x3f
}

/// Encoded bytes hold nothing but unreserved bytes, plus signs and percent
/// signs, whatever was encoded.
pub proof fn lemma_encoded_bytes(bytes: Seq<u8>)
    ensures
        forall|i: int|
            0 <= i < encode_bytes(bytes).len() ==> is_encoded_byte(#[trigger] encode_bytes(bytes)[i]),
    decreases bytes.len(),
{
    if bytes.len() > 0 {
        lemma_encoded_bytes(bytes.drop_last());
        let front = encode_bytes(bytes.drop_last());
        let last = encode_byte(bytes.last());
        assert forall|i: int| 0 <= i < last.len() implies is_encoded_byte(#[trigger] last[i]) by {}
        assert forall|i: int| 0 <= i < encode_bytes(bytes).len() implies is_encoded_byte(
            #[trigger] encode_bytes(bytes)[i],
        ) by {
            if i < front.len() {
                assert(encode_bytes(bytes)[i] == front[i]);
            } else {
                assert(encode_bytes(bytes)[i] == last[i - front.len()]);
            }
        }
    }
}

/// A query string holds nothing but bytes that can stand in one, so it is
/// made of ASCII characters alone; and where there are parameters, it starts
/// with a question mark.
pub proof fn lemma_query_bytes(pairs: Seq<(Seq<char>, Seq<char>)>)
    ensures
        forall|i: int|
            0 <= i < query_bytes(pairs).len() ==> is_query_byte(#[trigger] query_bytes(pairs)[i]),
        is_ascii_bytes(query_bytes(pairs)),
        pairs.len() > 0 ==> query_bytes(pairs).len() > 0 && query_bytes(pairs)[0] == 0x3f,
        pairs.len() == 0 ==> query_bytes(pairs).len() == 0,
    decreases pairs.len(),
{
    if pairs.len() > 0 {
        let front = query_bytes(pairs.drop_last());
        lemma_query_bytes(pairs.drop_last());
        let key = encode_bytes(encode_utf8(pairs.last().0));
        let value = encode_bytes(encode_utf8(pairs.last().1));
        lemma_encoded_bytes(encode_utf8(pairs.last().0));
        lemma_encoded_bytes(encode_utf8(pairs.last().1));
        let mark = seq![
            if pairs.len() == 1 {
                0x3fu8
            } else {
                0x26u8
            },
        ];
        let pair = encode_pair(pairs.last().0, pairs.last().1);
        assert(pair == key + seq![0x3du8] + value);
        assert forall|i: int| 0 <= i < pair.len() implies is_query_byte(#[trigger] pair[i]) by {
            if i < key.len() {
                assert(pair[i] == key[i]);
            } else if i == key.len() {
            } else {
                assert(pair[i] == value[i - key.len() - 1]);
            }
        }
        let all = query_bytes(pairs);
        assert(all == front + mark + pair);
        assert forall|i: int| 0 <= i < all.len() implies is_query_byte(#[trigger] all[i]) by {
            if i < front.len() {
                assert(all[i] == front[i]);
            } else if i == front.len() {
                assert(all[i] == mark[0]);
            } else {
                assert(all[i] == pair[i - front.len() - 1]);
            }
        }
        if pairs.len() == 1 {
            assert(front.len() == 0);
            assert(all[0] == mark[0]);
        } else {
            assert(all[0] == front[0]);
        }
    }
    assert forall|i: int| 0 <= i < query_bytes(pairs).len() implies #[trigger] query_bytes(
        pairs,
    )[i] < 128 by {
        assert(is_query_byte(query_bytes(pairs)[i]));
    }
}

/// The upper case hexadecimal digit for a number below sixteen.
fn hex(nibble: u8) -> (digit: u8)
    requires
        nibble < 16,
    ensures
        digit == hex_digit(nibble),
{
    if nibble < 10 {
        0x30 + nibble
    } else {
        0x41 + (nibble - 10)
    }
}

/// Whether a byte stands for itself in a query string.
fn unreserved(byte: u8) -> (unchanged: bool)
    ensures
        unchanged == is_unreserved(byte),
{
    byte == 0x2a || byte == 0x2d || byte == 0x2e || byte == 0x5f || (0x30 <= byte && byte <= 0x39)
        || (0x41 <= byte && byte <= 0x5a) || (0x61 <= byte && byte <= 0x7a)
}

/// Appends `text` to `out` as it stands in a query string.
fn push_encoded(out: &mut Vec<u8>, text: &str)
    ensures
        final(out)@ == old(out)@ + encode_bytes(encode_utf8(text@)),
{
    let bytes = text.as_bytes();
    let ghost before = out@;
    let mut i: usize = 0;
    assert(bytes@.subrange(0, 0) =~= Seq::<u8>::empty());
    assert(out@ =~= before + encode_bytes(bytes@.subrange(0, 0)));
    while i < bytes.len()
        invariant
            i <= bytes.len(),
            bytes@ == encode_utf8(text@),
            out@ == before + encode_bytes(bytes@.subrange(0, i as int)),
        decreases bytes.len() - i,
    {
        let byte = bytes[i];
        let ghost prefix = bytes@.subrange(0, i as int);
        let ghost next = bytes@.subrange(0, i + 1);
        assert(next.drop_last() =~= prefix);
        assert(next.last() == byte);
        let ghost so_far = out@;
        if unreserved(byte) {
            out.push(byte);
        } else if byte == 0x20 {
            out.push(0x2b);
        } else {
            out.push(0x25);
            out.push(hex(byte / 16));
            out.push(hex(byte % 16));
        }
        assert(out@ =~= so_far + encode_byte(byte));
        assert(out@ =~= before + encode_bytes(next));
        i += 1;
    }
    assert(bytes@.subrange(0, bytes@.len() as int) =~= bytes@);
}

/// Connection parameters as a mathematical value.
pub struct RequestParamsView {
    pub base_url: Seq<char>,
    pub url_params: Seq<(Seq<char>, Seq<char>)>,
    pub headers: Seq<(Seq<char>, Seq<char>)>,
}

/// Parameters that every request of a client shares: the base url, the url
/// query parameters and the headers.
///
/// A request can work on a copy of its own, with parameters added or given
/// another value; the parameters of the client stay as they are. No url
/// parameter occurs twice, and each stays where it first came in. Headers are
/// kept in the order given, and a name may occur more than once.
#[derive(Debug, PartialEq, Eq)]
pub struct RequestParams {
    base_url: String,
    url_params: Vec<(String, String)>,
    headers: Vec<(String, String)>,
}

impl View for RequestParams {
    type V = RequestParamsView;

    closed spec fn view(&self) -> RequestParamsView {
        RequestParamsView {
            base_url: self.base_url@,
            url_params: pairs_view(self.url_params@),
            headers: pairs_view(self.headers@),
        }
    }
}

/// A copy of some pairs of texts.
fn clone_pairs(pairs: &Vec<(String, String)>) -> (copies: Vec<(String, String)>)
    ensures
        pairs_view(copies@) == pairs_view(pairs@),
{
    let mut copies: Vec<(String, String)> = Vec::new();
    let mut i: usize = 0;
    while i < pairs.len()
        invariant
            i <= pairs.len(),
            copies.len() == i,
            forall|k: int|
                0 <= k < i ==> copies@[k].0@ == pairs@[k].0@ && copies@[k].1@ == pairs@[k].1@,
        decreases pairs.len() - i,
    {
        copies.push((pairs[i].0.clone(), pairs[i].1.clone()));
        i += 1;
    }
    assert(pairs_view(copies@) =~= pairs_view(pairs@));
    copies
}

impl Clone for RequestParams {
    /// A copy that holds the same parameters.
    fn clone(&self) -> (copy: RequestParams)
        ensures
            copy@ == self@,
    {
        proof {
            use_type_invariant(self);
        }
        RequestParams {
            base_url: self.base_url.clone(),
            url_params: clone_pairs(&self.url_params),
            headers: clone_pairs(&self.headers),
        }
    }
}

impl Default for RequestParams {
    /// Parameters for a node on this machine.
    fn default() -> (params: RequestParams)
        ensures
            params@ == (RequestParamsView {
                base_url: default_base_url(),
                url_params: Seq::empty(),
                headers: Seq::empty(),
            }),
    {
        RequestParams::new("http://localhost:9200")
    }
}

impl RequestParams {
    #[verifier::type_invariant]
    spec fn well_formed(self) -> bool {
        distinct_keys(pairs_view(self.url_params@))
    }

    /// Parameters for the given base url, with no url parameters and no
    /// headers.
    ///
    /// The base url is taken as given. It is meant to be a fully qualified
    /// url, but nothing here checks that it is one: a request under a base
    /// url that is none fails when the transport is asked to send it.
    pub fn new(base: &str) -> (params: RequestParams)
        ensures
            params@ == (RequestParamsView {
                base_url: base@,
                url_params: Seq::empty(),
                headers: Seq::empty(),
            }),
    {
        let params = RequestParams {
            base_url: base.to_owned(),
            url_params: Vec::new(),
            headers: Vec::new(),
        };
        assert(pairs_view(params.url_params@) =~= Seq::empty());
        assert(pairs_view(params.headers@) =~= Seq::empty());
        params
    }

    /// Sets the base url. The url is taken as given, as in `new`.
    pub fn base_url(self, base: &str) -> (params: RequestParams)
        ensures
            params@ == (RequestParamsView { base_url: base@, ..self@ }),
    {
        proof {
            use_type_invariant(&self);
        }
        RequestParams { base_url: base.to_owned(), url_params: self.url_params, headers: self.headers }
    }

    /// Sets a url parameter.
    ///
    /// A key that is already there keeps its place and gets the new value; a
    /// new key comes last.
    pub fn url_param(self, key: &str, value: &str) -> (params: RequestParams)
        ensures
            params@ == (RequestParamsView {
                url_params: with_pair(self@.url_params, key@, value@),
                ..self@
            }),
            distinct_keys(params@.url_params),
    {
        proof {
            use_type_invariant(&self);
        }
        let ghost before = pairs_view(self.url_params@);
        let base_url = self.base_url;
        let headers = self.headers;
        let mut url_params = self.url_params;
        let mut i: usize = 0;
        while i < url_params.len()
            invariant
                i <= url_params.len(),
                before == pairs_view(url_params@),
                forall|k: int| 0 <= k < i ==> before[k].0 != key@,
            ensures
                i < url_params.len() ==> before[i as int].0 == key@,
            decreases url_params.len() - i,
        {
            if text_eq(url_params[i].0.as_str(), key) {
                break ;
            }
            i += 1;
        }
        proof {
            lemma_position_is(before, key@, i as int);
            lemma_with_pair_distinct(before, key@, value@);
        }
        if i < url_params.len() {
            url_params.set(i, (key.to_owned(), value.to_owned()));
        } else {
            url_params.push((key.to_owned(), value.to_owned()));
        }
        assert(pairs_view(url_params@) =~= with_pair(before, key@, value@));
        RequestParams { base_url, url_params, headers }
    }

    /// Adds a header.
    pub fn header(self, name: &str, value: &str) -> (params: RequestParams)
        ensures
            params@ == (RequestParamsView { headers: self@.headers.push((name@, value@)), ..self@ }),
    {
        proof {
            use_type_invariant(&self);
        }
        let ghost before = pairs_view(self.headers@);
        let base_url = self.base_url;
        let url_params = self.url_params;
        let mut headers = self.headers;
        headers.push((name.to_owned(), value.to_owned()));
        assert(pairs_view(headers@) =~= before.push((name@, value@)));
        RequestParams { base_url, url_params, headers }
    }

    /// The base url.
    pub fn get_base_url(&self) -> (base: &str)
        ensures
            base@ == self@.base_url,
    {
        self.base_url.as_str()
    }

    /// The url parameters, with no key twice.
    pub fn get_url_params(&self) -> (pairs: &Vec<(String, String)>)
        ensures
            pairs_view(pairs@) == self@.url_params,
            distinct_keys(self@.url_params),
    {
        proof {
            use_type_invariant(self);
        }
        &self.url_params
    }

    /// The headers that a request carries: the content type of the payload
    /// first, then the headers of these parameters in their order.
    pub fn get_headers(&self) -> (headers: Vec<(String, String)>)
        ensures
            pairs_view(headers@) == seq![("Content-Type"@, "application/json"@)] + self@.headers,
    {
        let mut headers: Vec<(String, String)> = Vec::new();
        headers.push((String::from_str("Content-Type"), String::from_str("application/json")));
        let mut i: usize = 0;
        while i < self.headers.len()
            invariant
                i <= self.headers.len(),
                headers.len() == i + 1,
                headers@[0].0@ == "Content-Type"@,
                headers@[0].1@ == "application/json"@,
                forall|k: int|
                    0 <= k < i ==> headers@[k + 1].0@ == self.headers@[k].0@ && headers@[k + 1].1@
                        == self.headers@[k].1@,
            decreases self.headers.len() - i,
        {
            headers.push((self.headers[i].0.clone(), self.headers[i].1.clone()));
            i += 1;
        }
        assert(pairs_view(headers@) =~= seq![("Content-Type"@, "application/json"@)] + pairs_view(
            self.headers@,
        ));
        headers
    }

    /// The query string for the url parameters and its length in bytes;
    /// nothing where there are no url parameters.
    pub fn get_url_qry(&self) -> (query: (usize, Option<String>))
        ensures
            query.0 == query_bytes(self@.url_params).len(),
            match query.1 {
                Some(text) => self@.url_params.len() > 0 && text@ == query_text(self@.url_params),
                None => self@.url_params.len() == 0,
            },
    {
        if self.url_params.len() == 0 {
            assert(pairs_view(self.url_params@).len() == 0);
            return (0, None);
        }
        let ghost pairs = pairs_view(self.url_params@);
        let mut out: Vec<u8> = Vec::new();
        let mut i: usize = 0;
        assert(pairs.subrange(0, 0) =~= Seq::empty());
        while i < self.url_params.len()
            invariant
                i <= self.url_params.len(),
                pairs == pairs_view(self.url_params@),
                out@ == query_bytes(pairs.subrange(0, i as int)),
            decreases self.url_params.len() - i,
        {
            let ghost prefix = pairs.subrange(0, i as int);
            let ghost next = pairs.subrange(0, i + 1);
            assert(next.drop_last() =~= prefix);
            assert(next.last() == pairs[i as int]);
            let ghost so_far = out@;
            if i == 0 {
                out.push(0x3f);
            } else {
                out.push(0x26);
            }
            push_encoded(&mut out, self.url_params[i].0.as_str());
            out.push(0x3d);
            push_encoded(&mut out, self.url_params[i].1.as_str());
            assert(out@ =~= so_far + seq![
                if next.len() == 1 {
                    0x3fu8
                } else {
                    0x26u8
                },
            ] + encode_pair(pairs[i as int].0, pairs[i as int].1));
            i += 1;
        }
        assert(pairs.subrange(0, pairs.len() as int) =~= pairs);
        proof {
            lemma_query_bytes(pairs);
        }
        let length = out.len();
        (length, Some(from_ascii(out)))
    }
}

} // verus!
