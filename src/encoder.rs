use vstd::prelude::*;
use vstd::utf8::{decode_utf8, valid_utf8};
use crate::scheme::{model_of, EncodingScheme};
use tiktoken_rs::CoreBPE;

verus! {

/// tiktoken_rs's loaded vocabulary; only carried by reference, never looked into.
#[verifier::external_type_specification]
#[verifier::external_body]
pub struct ExCoreBPE(CoreBPE);

/// What encoding `text` under the vocabulary tiktoken serves for `model`
/// gives: the number of tokens, special-token markers each counting as one,
/// or `None` where the splitting regex gives up on the text.
pub uninterp spec fn encoded_len(model: Seq<char>, text: Seq<char>) -> Option<nat>;

/// The count of tokens of `text` under `model`'s vocabulary, `0` where the
/// text cannot be encoded.
pub open spec fn token_count(model: Seq<char>, text: Seq<char>) -> nat {
    match encoded_len(model, text) {
        Some(n) => n,
        None => 0,
    }
}

/// What a caller's bytes stand for as text: their UTF-8 decoding, or the
/// empty text when they are not valid UTF-8.
pub open spec fn text_of(bytes: Seq<u8>) -> Seq<char> {
    if valid_utf8(bytes) {
        decode_utf8(bytes)
    } else {
        Seq::empty()
    }
}

/// A loaded vocabulary, together with the scheme it was loaded for.
pub struct Encoder {
    scheme: EncodingScheme,
    bpe: &'static CoreBPE,
}

impl View for Encoder {
    type V = EncodingScheme;

    closed spec fn view(&self) -> EncodingScheme {
        self.scheme
    }
}

/// Relies on tiktoken_rs::bpe_for_model: looks the model's tokenizer up and
/// hands out the shared vocabulary for it; `Err` only when no tokenizer is
/// found, and every `model_of(scheme)` has one. The only place an `Encoder`
/// is made, so that `bpe` always belongs to `model_of(scheme)`.
#[verifier::external_body]
fn load_for_model(scheme: EncodingScheme, model: &str) -> (r: Option<Encoder>)
    requires
        model@ == model_of(scheme),
    ensures
        r is Some,
        r matches Some(e) ==> e@ == scheme,
{
    tiktoken_rs::bpe_for_model(model).ok().map(|bpe| Encoder { scheme, bpe })
}

/// Relies on CoreBPE::encode with every special token allowed (the set
/// CoreBPE::special_tokens gives): the tokens of `text` under the encoder's
/// vocabulary. `Err` comes only from the splitting regex, which fails on
/// some texts (a run of about a million spaces overflows its backtracking
/// stack); the special-token regex is plain literals and cannot fail. The
/// split patterns cover every character and every piece maps to at least
/// one rank, so non-empty text gives at least one token; empty text gives
/// none.
#[verifier::external_body]
fn encode_len(e: &Encoder, text: &str) -> (r: Option<usize>)
    ensures
        r is None ==> encoded_len(model_of(e@), text@) is None,
        r matches Some(n) ==> encoded_len(model_of(e@), text@) == Some(n as nat),
        r matches Some(n) ==> (text@.len() > 0 ==> n > 0),
        text@.len() == 0 ==> r == Some(0usize),
{
    e.bpe.encode(text, &e.bpe.special_tokens()).ok().map(|(tokens, _)| tokens.len())
}

/// Relies on std::str::from_utf8: `Ok` exactly on valid UTF-8, holding the
/// characters those bytes encode.
#[verifier::external_body]
fn utf8_str(bytes: &[u8]) -> (r: Option<&str>)
    ensures
        r is Some == valid_utf8(bytes@),
        r matches Some(s) ==> s@ == decode_utf8(bytes@),
{
    std::str::from_utf8(bytes).ok()
}

/// Reads a caller's bytes as text; bytes that are not valid UTF-8 read as
/// the empty text.
pub fn text_or_empty(bytes: &[u8]) -> (r: &str)
    ensures
        r@ == text_of(bytes@),
{
    match utf8_str(bytes) {
        Some(s) => s,
        None => {
            proof {
                reveal_strlit("");
            }
            ""
        },
    }
}

impl Encoder {
    /// Obtains the encoder for a scheme from tiktoken's vocabularies.
    pub fn load(scheme: EncodingScheme) -> (r: Option<Encoder>)
        ensures
            r is Some,
        r matches Some(e) ==> e@ == scheme,
    {
        load_for_model(scheme, scheme.model_name())
    }

    /// The scheme this encoder was loaded for.
    pub fn scheme(&self) -> (r: EncodingScheme)
        ensures
            r == self@,
    {
        self.scheme
    }

    /// Counts the tokens of `text`, special-token markers included; `None`
    /// where the text cannot be split.
    pub fn count(&self, text: &str) -> (r: Option<usize>)
        ensures
            r is None ==> encoded_len(model_of(self@), text@) is None,
            r matches Some(n) ==> encoded_len(model_of(self@), text@) == Some(n as nat),
            r matches Some(n) ==> (text@.len() > 0 ==> n > 0),
            text@.len() == 0 ==> r == Some(0usize),
    {
        encode_len(self, text)
    }
}

} // verus!
