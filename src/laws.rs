use vstd::prelude::*;
use crate::encoder::{encoded_len, text_of, token_count};
use crate::registry::{count_result, init_step};
use crate::scheme::{model_of, scheme_named, EncodingScheme};

verus! {

/// An initialize with a recognized name succeeds, and counting any non-empty
/// text afterwards gives a positive number (wherever the vocabulary can
/// encode that text at all).
pub proof fn ready_counts_are_positive(
    before: Option<EncodingScheme>,
    name: Seq<u8>,
    status: i32,
    after: Option<EncodingScheme>,
    text: Seq<u8>,
    n: nat,
)
    requires
        scheme_named(text_of(name)) is Some,
        init_step(before, Some(name), status, after),
        text_of(text).len() > 0,
        count_result(after, Some(text), n),
    ensures
        status == 0,
        after == scheme_named(text_of(name)),
        encoded_len(model_of(after->0), text_of(text)) is Some ==> n > 0,
{
}

/// An initialize with an unrecognized name reports `-2` and leaves the
/// registry as it was, ready or not.
pub proof fn unrecognized_name_changes_nothing(
    before: Option<EncodingScheme>,
    name: Seq<u8>,
    status: i32,
    after: Option<EncodingScheme>,
)
    requires
        scheme_named(text_of(name)) is None,
        init_step(before, Some(name), status, after),
    ensures
        status == -2,
        after == before,
{
}

/// An empty registry counts `0` for every text, absent or present.
pub proof fn empty_registry_counts_zero(text: Option<Seq<u8>>, n: nat)
    requires
        count_result(None, text, n),
    ensures
        n == 0,
{
}

/// Two resets in a row leave what one leaves: `s1` is the state after the
/// first (empty, whatever `s0` was), `s2` the state after the second.
pub proof fn reset_is_idempotent(
    s0: Option<EncodingScheme>,
    s1: Option<EncodingScheme>,
    s2: Option<EncodingScheme>,
)
    requires
        s1 is None,
        s2 is None,
    ensures
        s2 == s1,
        s2 is None,
{
}

/// After `initialize(a)` then `initialize(b)` with a recognized `b`, a count
/// goes by `b`'s vocabulary alone.
pub proof fn latest_initialize_wins(
    s0: Option<EncodingScheme>,
    a: Seq<u8>,
    status_a: i32,
    s1: Option<EncodingScheme>,
    b: Seq<u8>,
    status_b: i32,
    s2: Option<EncodingScheme>,
    text: Seq<u8>,
    n: nat,
)
    requires
        init_step(s0, Some(a), status_a, s1),
        init_step(s1, Some(b), status_b, s2),
        scheme_named(text_of(b)) is Some,
        count_result(s2, Some(text), n),
    ensures
        status_b == 0,
        s2 == scheme_named(text_of(b)),
        n == token_count(model_of(scheme_named(text_of(b))->0), text_of(text)),
{
}

/// Counting the same text twice on the same registry gives the same number.
pub proof fn count_is_deterministic(
    state: Option<EncodingScheme>,
    text: Option<Seq<u8>>,
    n1: nat,
    n2: nat,
)
    requires
        count_result(state, text, n1),
        count_result(state, text, n2),
    ensures
        n1 == n2,
{
}

} // verus!
