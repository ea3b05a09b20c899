//! Authorising the client in the browser: where to send the user, where to
//! listen for the answer, and what the answer says.

use vstd::prelude::*;
use vstd::string::StrSliceExecFns;
use vstd::string::StringExecFns;
use crate::text::{
    decimal, halves_of, numeral, pieces, same, split, split_once, strings,
};

verus! {

/// The port on which the client listens first.
pub const DEFAULT_PORT: u16 = 9876;

/// The server's address: the scope's own domain where a scope is named,
/// else the address given, else the public server.
pub fn base_domain(scope: Option<&str>, url: Option<&str>) -> (domain: String)
    ensures
        domain@ == (if scope matches Some(s) && s@.len() > 0 {
            "https://"@ + scope->Some_0@ + ".corgea.app"@
        } else if url matches Some(u) && u@.len() > 0 {
            url->Some_0@
        } else {
            "https://www.corgea.app"@
        }),
{
    if let Some(s) = scope {
        if s.unicode_len() > 0 {
            let mut domain = String::from_str("https://");
            domain.append(s);
            domain.append(".corgea.app");
            return domain;
        }
    }
    if let Some(u) = url {
        if u.unicode_len() > 0 {
            return String::from_str(u);
        }
    }
    String::from_str("https://www.corgea.app")
}

/// What `urlencoding::encode` makes of a text.
pub uninterp spec fn url_encoded(text: Seq<char>) -> Seq<char>;

/// What `urlencoding::decode` makes of a text: nothing where the decoded
/// bytes are no text.
pub uninterp spec fn url_decoded(text: Seq<char>) -> Option<Seq<char>>;

/// `urlencoding::encode`: the text with every byte but letters, digits,
/// `-`, `_`, `.` and `~` written as a percent sign and two hexadecimal
/// digits. The contract names the result.
#[verifier::external_body]
fn encode(text: &str) -> (encoded: String)
    ensures
        encoded@ == url_encoded(text@),
{
    urlencoding::encode(text).into_owned()
}

/// `urlencoding::decode`, an error as `None`: the text with every percent
/// sign that two hexadecimal digits follow read, with them, as one byte. A
/// percent sign that no two such digits follow stays as it stands, and so
/// does everything else, a plus sign too; the error is that the bytes so
/// read are no UTF-8. The contract names the result.
#[verifier::external_body]
fn decode(text: &str) -> (decoded: Option<String>)
    ensures
        match decoded {
            Some(d) => url_decoded(text@) == Some(d@),
            None => url_decoded(text@) is None,
        },
{
    urlencoding::decode(text).ok().map(|d| d.into_owned())
}

/// The address on which the client listens for the answer.
pub open spec fn callback_address(port: u16) -> Seq<char> {
    "http://localhost:"@ + numeral(port as nat)
}

/// The address to which the user is sent: the server's page of
/// authorisation, told where the client listens.
pub fn authorization_url(base_domain: &str, port: u16) -> (address: String)
    ensures
        address@ == base_domain@ + "/authorize?callback="@ + url_encoded(callback_address(port)),
{
    let mut callback = String::from_str("http://localhost:");
    callback.append(decimal(port as u64).as_str());
    let mut address = String::from_str(base_domain);
    address.append("/authorize?callback=");
    address.append(encode(callback.as_str()).as_str());
    address
}

/// The port is one of those that are tried: the fifty from `start_port`
/// on, and the hundred from 9000, from 8000 and from 7000 on.
pub open spec fn is_candidate(start_port: u16, port: u16) -> bool {
    ||| start_port <= port < start_port + 50
    ||| 9000 <= port < 9100
    ||| 8000 <= port < 8100
    ||| 7000 <= port < 7100
}

/// The first port from `from` up to `to` that is free.
fn first_free(from: u16, to: u16, available: &impl Fn(u16) -> bool) -> (found: Option<u16>)
    requires
        from <= to,
        forall|port: u16| call_requires(available, (port,)),
    ensures
        match found {
            Some(port) => from <= port < to && call_ensures(available, (port,), true),
            None => forall|port: u16| from <= port < to ==> call_ensures(available, (port,), false),
        },
{
    let mut port = from;
    while port < to
        invariant
            from <= port <= to,
            forall|p: u16| call_requires(available, (p,)),
            forall|p: u16| from <= p < port ==> call_ensures(available, (p,), false),
        decreases to - port,
    {
        if available(port) {
            return Some(port);
        }
        port = port + 1;
    }
    None
}

/// A port on which the client can listen: the first that `available` finds
/// free among the ports from `start_port` on and then among those from
/// 9000, 8000 and 7000 on; nothing where none of them is free.
pub fn find_available_port(start_port: u16, available: impl Fn(u16) -> bool) -> (found: Option<u16>)
    requires
        start_port <= u16::MAX - 50,
        forall|port: u16| call_requires(available, (port,)),
    ensures
        match found {
            Some(port) => is_candidate(start_port, port) && call_ensures(available, (port,), true),
            None => forall|port: u16|
                is_candidate(start_port, port) ==> call_ensures(available, (port,), false),
        },
{
    if let Some(port) = first_free(start_port, start_port + 50, &available) {
        return Some(port);
    }
    if let Some(port) = first_free(9000, 9100, &available) {
        return Some(port);
    }
    if let Some(port) = first_free(8000, 8100, &available) {
        return Some(port);
    }
    first_free(7000, 7100, &available)
}

/// One parameter of a query.
pub struct QueryPair {
    pub key: String,
    pub value: String,
}

/// The key and the value that one parameter holds: what stands before and
/// after its first `=`, both decoded; nothing where it has no `=` or either
/// cannot be decoded.
pub open spec fn pair_of(param: Seq<char>) -> Option<(Seq<char>, Seq<char>)> {
    match halves_of(param, '=') {
        Some((key, value)) => match (url_decoded(key), url_decoded(value)) {
            (Some(k), Some(v)) => Some((k, v)),
            _ => None,
        },
        None => None,
    }
}

/// The keys and values that a list of parameters holds, in order.
pub open spec fn pairs_of(params: Seq<Seq<char>>) -> Seq<(Seq<char>, Seq<char>)>
    decreases params.len(),
{
    if params.len() == 0 {
        Seq::empty()
    } else {
        match pair_of(params.last()) {
            Some(pair) => pairs_of(params.drop_last()).push(pair),
            None => pairs_of(params.drop_last()),
        }
    }
}

/// The keys and values of a list of pairs.
pub open spec fn pairs_view(pairs: Seq<QueryPair>) -> Seq<(Seq<char>, Seq<char>)> {
    Seq::new(pairs.len(), |i: int| (pairs[i].key@, pairs[i].value@))
}

/// The parameters of a query, which `&` separates, in order.
pub fn parse_query_params(query: &str) -> (pairs: Vec<QueryPair>)
    ensures
        pairs_view(pairs@) == pairs_of(pieces(query@, '&')),
{
    let params = split(query, '&');
    let ghost all = strings(params@);
    let mut pairs: Vec<QueryPair> = Vec::new();
    let mut i: usize = 0;
    assert(all.take(0) =~= Seq::<Seq<char>>::empty());
    assert(pairs_view(pairs@) =~= Seq::<(Seq<char>, Seq<char>)>::empty());
    while i < params.len()
        invariant
            i <= params@.len(),
            all == strings(params@),
            pairs_view(pairs@) == pairs_of(all.take(i as int)),
        decreases params@.len() - i,
    {
        proof {
            assert(all.take(i as int + 1).drop_last() =~= all.take(i as int));
            assert(all.take(i as int + 1).last() == params@[i as int]@);
        }
        if let Some((key, value)) = split_once(params[i].as_str(), '=') {
            if let Some(k) = decode(key.as_str()) {
                if let Some(v) = decode(value.as_str()) {
                    let ghost before = pairs@;
                    let pair = QueryPair { key: k, value: v };
                    pairs.push(pair);
                    assert(pairs_view(before.push(pair)) =~= pairs_view(before).push((k@, v@)));
                }
            }
        }
        i = i + 1;
    }
    assert(all.take(i as int) =~= all);
    pairs
}

/// The value that `pairs` hold for `key`: that of the last pair of that
/// key.
pub open spec fn value_of(pairs: Seq<(Seq<char>, Seq<char>)>, key: Seq<char>) -> Option<Seq<char>>
    decreases pairs.len(),
{
    if pairs.len() == 0 {
        None
    } else if pairs.last().0 == key {
        Some(pairs.last().1)
    } else {
        value_of(pairs.drop_last(), key)
    }
}

/// The value that `pairs` hold for `key`.
pub fn get_param<'a>(pairs: &'a Vec<QueryPair>, key: &str) -> (value: Option<&'a str>)
    ensures
        match value {
            Some(v) => value_of(pairs_view(pairs@), key@) == Some(v@),
            None => value_of(pairs_view(pairs@), key@) is None,
        },
{
    let ghost all = pairs_view(pairs@);
    let mut i: usize = pairs.len();
    assert(all.take(i as int) =~= all);
    while i > 0
        invariant
            i <= pairs@.len(),
            all == pairs_view(pairs@),
            value_of(all, key@) == value_of(all.take(i as int), key@),
        decreases i,
    {
        proof {
            assert(all.take(i as int).drop_last() =~= all.take(i as int - 1));
            assert(all.take(i as int).last() == (
                pairs@[i as int - 1].key@,
                pairs@[i as int - 1].value@,
            ));
        }
        i = i - 1;
        if same(pairs[i].key.as_str(), key) {
            return Some(pairs[i].value.as_str());
        }
    }
    None
}

/// What the client says to a request on its callback address.
pub enum CallbackReply {
    /// The user has authorised the client, with this code.
    Authorized(String),
    /// The server has refused, with this error and this description.
    Refused(String, String),
    /// The request says nothing: the client goes on waiting.
    Waiting,
}

/// What the client says to a request, given the request's query: a code
/// authorises it; an error refuses it, with the description that comes
/// with it or else `Unknown error occurred`; anything else leaves it
/// waiting.
pub fn handle_callback(query: Option<&str>) -> (reply: CallbackReply)
    ensures
        match query {
            Some(q) => {
                let pairs = pairs_of(pieces(q@, '&'));
                match reply {
                    CallbackReply::Authorized(code) => value_of(pairs, "code"@) == Some(code@),
                    CallbackReply::Refused(error, description) => value_of(pairs, "code"@) is None
                        && value_of(pairs, "error"@) == Some(error@) && description@ == (
                    match value_of(pairs, "error_description"@) {
                        Some(d) => d,
                        None => "Unknown error occurred"@,
                    }),
                    CallbackReply::Waiting => value_of(pairs, "code"@) is None && value_of(
                        pairs,
                        "error"@,
                    ) is None,
                }
            },
            None => reply is Waiting,
        },
{
    match query {
        Some(q) => {
            let pairs = parse_query_params(q);
            if let Some(code) = get_param(&pairs, "code") {
                return CallbackReply::Authorized(String::from_str(code));
            }
            if let Some(error) = get_param(&pairs, "error") {
                let description = match get_param(&pairs, "error_description") {
                    Some(d) => String::from_str(d),
                    None => String::from_str("Unknown error occurred"),
                };
                return CallbackReply::Refused(String::from_str(error), description);
            }
            CallbackReply::Waiting
        },
        None => CallbackReply::Waiting,
    }
}

} // verus!
