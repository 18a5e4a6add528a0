use vstd::prelude::*;
use crate::encoder::{encoded_len, text_of, text_or_empty, token_count, Encoder};
use crate::scheme::{model_of, scheme_named, EncodingScheme};

verus! {

/// Why an initialize did not leave a new encoder in place.
#[derive(Clone, Copy, Debug, PartialEq, Eq, Structural)]
pub enum InitError {
    NullInput,
    UnrecognizedScheme,
    LockFailure,
    ResolutionFailed,
}

/// The status an initialize reports for each failure; success is `0`.
pub open spec fn status_of(e: InitError) -> int {
    match e {
        InitError::NullInput => -1,
        InitError::UnrecognizedScheme => -2,
        InitError::LockFailure => -3,
        InitError::ResolutionFailed => -4,
    }
}

impl InitError {
    /// The integer status for this failure.
    pub fn code(&self) -> (r: i32)
        ensures
            r == status_of(*self),
    {
        match self {
            InitError::NullInput => -1,
            InitError::UnrecognizedScheme => -2,
            InitError::LockFailure => -3,
            InitError::ResolutionFailed => -4,
        }
    }
}

/// Why a scheme name did not resolve to an encoder.
#[derive(Clone, Copy, Debug, PartialEq, Eq, Structural)]
pub enum ResolveError {
    UnknownScheme,
    EncoderUnavailable,
}

/// Maps a scheme name to a freshly obtained encoder for that scheme.
pub fn resolve(name: &str) -> (r: Result<Encoder, ResolveError>)
    ensures
        match r {
            Ok(e) => scheme_named(name@) == Some(e@),
            Err(ResolveError::UnknownScheme) => scheme_named(name@) is None,
            Err(ResolveError::EncoderUnavailable) => scheme_named(name@) is Some,
        },
        scheme_named(name@) is Some ==> r is Ok,
{
    match EncodingScheme::from_name(name) {
        None => Err(ResolveError::UnknownScheme),
        Some(scheme) => match Encoder::load(scheme) {
            Some(e) => Ok(e),
            None => Err(ResolveError::EncoderUnavailable),
        },
    }
}

/// The slot holding at most one encoder. Viewed as the scheme it is ready
/// for, or `None` while empty.
pub struct Registry {
    slot: Option<Encoder>,
}

impl View for Registry {
    type V = Option<EncodingScheme>;

    closed spec fn view(&self) -> Option<EncodingScheme> {
        match self.slot {
            Some(e) => Some(e@),
            None => None,
        }
    }
}

impl Registry {
    /// An empty registry.
    pub fn new() -> (r: Registry)
        ensures
            r@ is None,
    {
        Registry { slot: None }
    }

    /// The scheme the registry is ready for, if any.
    pub fn active_scheme(&self) -> (r: Option<EncodingScheme>)
        ensures
            r == self@,
    {
        match &self.slot {
            Some(e) => Some(e.scheme()),
            None => None,
        }
    }
}

/// The contents of an optional byte buffer.
pub open spec fn bytes_of(b: Option<&[u8]>) -> Option<Seq<u8>> {
    match b {
        Some(s) => Some(s@),
        None => None,
    }
}

/// The status of an initialize of `encoding` when the lock could not be
/// taken; no state is touched then.
pub open spec fn init_status_unlocked(encoding: Option<Seq<u8>>) -> int {
    match encoding {
        None => -1,
        Some(b) => if scheme_named(text_of(b)) is None {
            -2
        } else {
            -3
        },
    }
}

/// An initialize of `encoding`, made with the lock held on state `before`,
/// reports `status` and leaves state `after`.
pub open spec fn init_step(
    before: Option<EncodingScheme>,
    encoding: Option<Seq<u8>>,
    status: i32,
    after: Option<EncodingScheme>,
) -> bool {
    match encoding {
        None => status == -1 && after == before,
        Some(b) => match scheme_named(text_of(b)) {
            None => status == -2 && after == before,
            Some(s) => status == 0 && after == Some(s),
        },
    }
}

/// The count a registry in `state` gives for `text`.
pub open spec fn count_of(state: Option<EncodingScheme>, text: Option<Seq<u8>>) -> nat {
    match (state, text) {
        (Some(s), Some(b)) => token_count(model_of(s), text_of(b)),
        _ => 0,
    }
}

/// A count of `text` on a registry in `state` gives `n`: the token count
/// under the active scheme; `0` for empty text, and positive for non-empty
/// text that the vocabulary can encode.
pub open spec fn count_result(state: Option<EncodingScheme>, text: Option<Seq<u8>>, n: nat) -> bool {
    &&& n == count_of(state, text)
    &&& text matches Some(b) ==> (text_of(b).len() == 0 ==> n == 0)
    &&& state matches Some(s) ==> (text matches Some(b) ==> (text_of(b).len() > 0 && encoded_len(
        model_of(s),
        text_of(b),
    ) is Some ==> n > 0))
}

/// The part of an initialize that needs no lock: reads `encoding` (the bytes
/// of a caller's string, `None` for an absent one) as a scheme name and
/// obtains that scheme's encoder. `Ok(None)` when the encoder could not be
/// obtained.
pub fn prepare_init(encoding: Option<&[u8]>) -> (r: Result<Option<Encoder>, InitError>)
    ensures
        match bytes_of(encoding) {
            None => r == Err::<Option<Encoder>, InitError>(InitError::NullInput),
            Some(b) => match scheme_named(text_of(b)) {
                None => r == Err::<Option<Encoder>, InitError>(InitError::UnrecognizedScheme),
                Some(s) => (r matches Ok(Some(e)) && e@ == s),
            },
        },
{
    let bytes = match encoding {
        None => return Err(InitError::NullInput),
        Some(b) => b,
    };
    match resolve(text_or_empty(bytes)) {
        Ok(e) => Ok(Some(e)),
        Err(ResolveError::UnknownScheme) => Err(InitError::UnrecognizedScheme),
        Err(ResolveError::EncoderUnavailable) => Ok(None),
    }
}

/// The part of an initialize made under the lock: puts `loaded` in the slot
/// (emptying it when nothing was loaded) and reports the status. `registry`
/// is the locked slot, or `None` when the lock could not be taken.
pub fn commit_init(registry: Option<&mut Registry>, loaded: Option<Encoder>) -> (r: i32)
    ensures
        match registry {
            Some(g) => match loaded {
                Some(e) => r == 0 && final(g)@ == Some(e@),
                None => r == -4 && final(g)@ is None,
            },
            None => r == -3,
        },
{
    match registry {
        None => InitError::LockFailure.code(),
        Some(g) => match loaded {
            Some(e) => {
                g.slot = Some(e);
                0
            },
            None => {
                g.slot = None;
                InitError::ResolutionFailed.code()
            },
        },
    }
}

/// Selects the encoding scheme named by `encoding` (the bytes of a caller's
/// string, `None` for an absent one). `registry` is the locked slot, or
/// `None` when the lock could not be taken.
pub fn tiktoken_init(registry: Option<&mut Registry>, encoding: Option<&[u8]>) -> (r: i32)
    ensures
        match registry {
            Some(g) => init_step(g@, bytes_of(encoding), r, final(g)@),
            None => r == init_status_unlocked(bytes_of(encoding)),
        },
{
    match prepare_init(encoding) {
        Err(e) => e.code(),
        Ok(loaded) => commit_init(registry, loaded),
    }
}

/// Counts the tokens of `text` under the active scheme; `0` when the text is
/// absent or empty, no scheme is active, the text cannot be encoded, or the
/// lock could not be taken (`None`).
pub fn tiktoken_count(registry: Option<&Registry>, text: Option<&[u8]>) -> (r: usize)
    ensures
        match registry {
            Some(g) => count_result(g@, bytes_of(text), r as nat),
            None => r == 0,
        },
{
    let bytes = match text {
        None => return 0,
        Some(b) => b,
    };
    match registry {
        None => 0,
        Some(g) => match &g.slot {
            Some(e) => match e.count(text_or_empty(bytes)) {
                Some(n) => n,
                None => 0,
            },
            None => 0,
        },
    }
}

/// Empties the registry; does nothing when the lock could not be taken.
pub fn tiktoken_cleanup(registry: Option<&mut Registry>)
    ensures
        match registry {
            Some(g) => final(g)@ is None,
            None => true,
        },
{
    if let Some(g) = registry {
        g.slot = None;
    }
}

} // verus!
