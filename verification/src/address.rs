//! Addresses of remote calls: an endpoint with its query parameters.

use crate::outcome::Failure;
use crate::wire::utf8;
use vstd::prelude::*;

verus! {

/// The parse error of the `url` crate.
#[verifier::external_type_specification]
#[verifier::external_body]
pub struct ExParseError(url::ParseError);

/// The most bytes, endpoint and parameters together, that an address is
/// made of.
pub const ADDRESS_LIMIT: usize = 0x10_0000;

/// The text of the address that `url::Url::parse_with_params` makes of the
/// endpoint `base` and the query parameters `params`, added in their order;
/// `None` where it refuses `base`.
pub uninterp spec fn url_text(base: Seq<char>, params: Seq<(Seq<char>, Seq<char>)>) -> Option<
    Seq<char>,
>;

/// Names and values as plain texts.
pub open spec fn pairs(params: Seq<(&str, &str)>) -> Seq<(Seq<char>, Seq<char>)> {
    params.map_values(|p: (&str, &str)| (p.0@, p.1@))
}

/// The bytes that the parameters hold, with two more for each of them.
pub open spec fn params_size(params: Seq<(Seq<char>, Seq<char>)>) -> nat
    decreases params.len(),
{
    if params.len() == 0 {
        0
    } else {
        params_size(params.drop_last()) + utf8(params.last().0).len() + utf8(
            params.last().1,
        ).len() + 2
    }
}

/// The bytes that endpoint and parameters hold together.
pub open spec fn address_size(base: Seq<char>, params: Seq<(Seq<char>, Seq<char>)>) -> nat {
    utf8(base).len() + params_size(params)
}

/// The address of `base` with `params`: what the `url` crate makes of them,
/// where they are within `ADDRESS_LIMIT`.
pub open spec fn address_text(base: Seq<char>, params: Seq<(Seq<char>, Seq<char>)>) -> Option<
    Seq<char>,
> {
    if address_size(base, params) <= ADDRESS_LIMIT {
        url_text(base, params)
    } else {
        None
    }
}

/// Calls `url::Url::parse_with_params` and gives the address as text. Trusted:
/// the result is a function of `base` and `params` alone, named `url_text`.
/// The crate keeps offsets in 32 bits and panics where a fragment has to be
/// put back behind a query that has outgrown them; `ADDRESS_LIMIT` keeps any
/// address far below that.
#[verifier::external_body]
fn parse_with_params(base: &str, params: &Vec<(&str, &str)>) -> (r: Result<
    String,
    url::ParseError,
>)
    requires
        address_size(base@, pairs(params@)) <= ADDRESS_LIMIT,
    ensures
        r matches Ok(u) ==> url_text(base@, pairs(params@)) == Some(u@),
        r is Err ==> url_text(base@, pairs(params@)) is None,
{
    url::Url::parse_with_params(base, params.iter()).map(String::from)
}

/// Whether endpoint and parameters are within `ADDRESS_LIMIT`.
fn within_limit(base: &str, params: &Vec<(&str, &str)>) -> (b: bool)
    ensures
        b == (address_size(base@, pairs(params@)) <= ADDRESS_LIMIT),
{
    let base_len = base.as_bytes().len();
    if base_len > ADDRESS_LIMIT {
        return false;
    }
    let mut room: usize = ADDRESS_LIMIT - base_len;
    let mut i: usize = 0;
    proof {
        assert(pairs(params@).take(0).len() == 0);
    }
    while i < params.len()
        invariant
            i <= params@.len(),
            room + utf8(base@).len() + params_size(pairs(params@).take(i as int))
                == ADDRESS_LIMIT,
        decreases params@.len() - i,
    {
        let name = params[i].0.as_bytes().len();
        let value = params[i].1.as_bytes().len();
        proof {
            let head = pairs(params@).take(i + 1);
            assert(head.drop_last() == pairs(params@).take(i as int));
            assert(head.last() == (params@[i as int].0@, params@[i as int].1@));
            lemma_params_size_grows(pairs(params@), i + 1);
        }
        if name > room || value > room - name || room - name - value < 2 {
            return false;
        }
        room = room - name - value - 2;
        i += 1;
    }
    proof {
        assert(pairs(params@).take(i as int) == pairs(params@));
    }
    true
}

/// The first `n` parameters hold no more than all of them.
proof fn lemma_params_size_grows(params: Seq<(Seq<char>, Seq<char>)>, n: int)
    requires
        0 <= n <= params.len(),
    ensures
        params_size(params.take(n)) <= params_size(params),
    decreases params.len() - n,
{
    if n < params.len() {
        lemma_params_size_grows(params, n + 1);
        assert(params.take(n + 1).drop_last() == params.take(n));
    } else {
        assert(params.take(n) == params);
    }
}

/// The address of the endpoint `base` with the query parameters `params`.
/// Fails with `Failure::Address` where the `url` crate refuses `base` or the
/// input is over `ADDRESS_LIMIT`.
pub fn address(base: &str, params: &Vec<(&str, &str)>) -> (r: Result<String, Failure>)
    ensures
        match r {
            Ok(text) => address_text(base@, pairs(params@)) == Some(text@),
            Err(e) => e == Failure::Address && address_text(base@, pairs(params@)) is None,
        },
{
    if !within_limit(base, params) {
        return Err(Failure::Address);
    }
    match parse_with_params(base, params) {
        Ok(text) => Ok(text),
        Err(_) => Err(Failure::Address),
    }
}

} // verus!
