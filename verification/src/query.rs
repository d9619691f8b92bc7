use vstd::prelude::*;
use crate::error::StoreError;
use crate::text::{parse_i32, parsed_i32};

verus! {

/// One `key=value` pair of a query string, decoded.
#[derive(Debug, PartialEq, Eq)]
pub struct Pair {
    pub key: String,
    pub value: String,
}

impl View for Pair {
    type V = (Seq<char>, Seq<char>);

    open spec fn view(&self) -> (Seq<char>, Seq<char>) {
        (self.key@, self.value@)
    }
}

impl Pair {
    /// The pair of `key` and `value`.
    pub fn new(key: &str, value: &str) -> (pair: Pair)
        ensures
            pair@ == (key@, value@),
    {
        Pair { key: String::from_str(key), value: String::from_str(value) }
    }
}

/// The views of a list of pairs, in the list's order.
pub open spec fn pair_views(pairs: Seq<Pair>) -> Seq<(Seq<char>, Seq<char>)> {
    pairs.map_values(|p: Pair| p@)
}

/// The pairs that `serde_urlencoded` reads from a query string, decoded, in
/// the order in which they stand there.
pub uninterp spec fn form_pairs(query: Seq<char>) -> Seq<(Seq<char>, Seq<char>)>;

/// Decodes a query string with `serde_urlencoded::from_str`, read as a list of
/// pairs of strings. Read so, that function has no failing branch: every
/// string is some list of pairs. The contract names the list: the decoded
/// pairs are `form_pairs` of the query.
#[verifier::external_body]
fn decode_pairs(query: &str) -> (pairs: Option<Vec<Pair>>)
    ensures
        pairs is Some,
        pair_views(pairs->Some_0@) == form_pairs(query@),
{
    match serde_urlencoded::from_str::<Vec<(String, String)>>(query) {
        Ok(list) => Some(list.into_iter().map(|(key, value)| Pair { key, value }).collect()),
        Err(_) => None,
    }
}

/// The query parameters that the handlers read. Each may be absent.
#[derive(Debug, PartialEq, Eq)]
pub struct Params {
    pub id: Option<i32>,
    pub date: Option<String>,
    pub message: Option<String>,
}

/// Query parameters as contracts speak of them.
pub struct ParamsView {
    pub id: Option<int>,
    pub date: Option<Seq<char>>,
    pub message: Option<Seq<char>>,
}

/// The view of a string that may be absent.
pub open spec fn text_view(text: Option<String>) -> Option<Seq<char>> {
    match text {
        Some(t) => Some(t@),
        None => None,
    }
}

impl View for Params {
    type V = ParamsView;

    open spec fn view(&self) -> ParamsView {
        ParamsView {
            id: match self.id {
                Some(id) => Some(id as int),
                None => None,
            },
            date: text_view(self.date),
            message: text_view(self.message),
        }
    }
}

/// The values given to `key`, in the order of the pairs.
pub open spec fn values_for(pairs: Seq<(Seq<char>, Seq<char>)>, key: Seq<char>) -> Seq<Seq<char>>
    decreases pairs.len(),
{
    if pairs.len() == 0 {
        Seq::empty()
    } else if pairs.last().0 == key {
        values_for(pairs.drop_last(), key).push(pairs.last().1)
    } else {
        values_for(pairs.drop_last(), key)
    }
}

/// The value of a parameter that is given at most once.
pub open spec fn only_value(values: Seq<Seq<char>>) -> Option<Seq<char>> {
    if values.len() == 1 {
        Some(values[0])
    } else {
        None
    }
}

/// The parameters that a list of pairs gives. There are none where `id`, `date`
/// or `message` is given more than once, or where `id` is no `i32` in decimal.
/// Pairs with other keys are passed over.
pub open spec fn params_of(pairs: Seq<(Seq<char>, Seq<char>)>) -> Option<ParamsView> {
    let ids = values_for(pairs, "id"@);
    let dates = values_for(pairs, "date"@);
    let messages = values_for(pairs, "message"@);
    if ids.len() > 1 || dates.len() > 1 || messages.len() > 1 {
        None
    } else if ids.len() == 1 && parsed_i32(ids[0]) is None {
        None
    } else {
        Some(
            ParamsView {
                id: if ids.len() == 1 {
                    Some(parsed_i32(ids[0])->Some_0 as int)
                } else {
                    None
                },
                date: only_value(dates),
                message: only_value(messages),
            },
        )
    }
}

/// Counts the pairs with the given key, and finds the first of them.
fn find_key(pairs: &Vec<Pair>, key: &str) -> (found: (usize, usize))
    ensures
        found.0 == values_for(pair_views(pairs@), key@).len(),
        found.0 > 0 ==> found.1 < pairs.len() && pairs[found.1 as int].value@ == values_for(
            pair_views(pairs@),
            key@,
        )[0],
{
    let ghost all = pair_views(pairs@);
    let mut count: usize = 0;
    let mut first: usize = 0;
    let mut i: usize = 0;
    while i < pairs.len()
        invariant
            i <= pairs.len(),
            all == pair_views(pairs@),
            count <= i,
            count == values_for(all.subrange(0, i as int), key@).len(),
            count > 0 ==> first < i && pairs[first as int].value@ == values_for(
                all.subrange(0, i as int),
                key@,
            )[0],
        decreases pairs.len() - i,
    {
        proof {
            assert(all.subrange(0, i + 1).drop_last() =~= all.subrange(0, i as int));
            assert(all.subrange(0, i + 1).last() == pairs[i as int]@);
        }
        if str::eq(pairs[i].key.as_str(), key) {
            if count == 0 {
                first = i;
            }
            count = count + 1;
        }
        i = i + 1;
    }
    assert(all.subrange(0, i as int) =~= all);
    (count, first)
}

/// Gathers the parameters `id`, `date` and `message` from decoded pairs.
pub fn collect_params(pairs: &Vec<Pair>) -> (r: Result<Params, StoreError>)
    ensures
        match r {
            Ok(params) => params_of(pair_views(pairs@)) == Some(params@),
            Err(e) => e == StoreError::MalformedInput && params_of(pair_views(pairs@)) is None,
        },
{
    let ids = find_key(pairs, "id");
    let dates = find_key(pairs, "date");
    let messages = find_key(pairs, "message");
    if ids.0 > 1 || dates.0 > 1 || messages.0 > 1 {
        return Err(StoreError::MalformedInput);
    }
    let id: Option<i32> = if ids.0 == 1 {
        match parse_i32(pairs[ids.1].value.as_str()) {
            Some(v) => Some(v),
            None => {
                return Err(StoreError::MalformedInput);
            },
        }
    } else {
        None
    };
    let date: Option<String> = if dates.0 == 1 {
        Some(pairs[dates.1].value.clone())
    } else {
        None
    };
    let message: Option<String> = if messages.0 == 1 {
        Some(pairs[messages.1].value.clone())
    } else {
        None
    };
    Ok(Params { id: id, date: date, message: message })
}

/// The parameters that a query string gives: those of its decoded pairs.
pub open spec fn query_params(query: Seq<char>) -> Option<ParamsView> {
    params_of(form_pairs(query))
}

/// Reads the parameters `id`, `date` and `message` from a query string.
pub fn read_params(query: &str) -> (r: Result<Params, StoreError>)
    ensures
        match r {
            Ok(params) => query_params(query@) == Some(params@),
            Err(e) => e == StoreError::MalformedInput && query_params(query@) is None,
        },
{
    let pairs = decode_pairs(query).unwrap();
    collect_params(&pairs)
}

} // verus!
