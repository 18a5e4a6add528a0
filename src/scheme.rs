use vstd::prelude::*;

verus! {

/// The closed set of encoding schemes the registry accepts by name.
#[derive(Clone, Copy, Debug, PartialEq, Eq, Structural)]
pub enum EncodingScheme {
    O200kBase,
    Cl100kBase,
    P50kBase,
    P50kEdit,
    R50kBase,
}

/// The scheme whose symbolic name is exactly `name`, if any.
pub open spec fn scheme_named(name: Seq<char>) -> Option<EncodingScheme> {
    if name == "o200k_base"@ {
        Some(EncodingScheme::O200kBase)
    } else if name == "cl100k_base"@ {
        Some(EncodingScheme::Cl100kBase)
    } else if name == "p50k_base"@ {
        Some(EncodingScheme::P50kBase)
    } else if name == "p50k_edit"@ {
        Some(EncodingScheme::P50kEdit)
    } else if name == "r50k_base"@ {
        Some(EncodingScheme::R50kBase)
    } else {
        None
    }
}

/// The model identifier under which tiktoken serves a scheme's vocabulary.
pub open spec fn model_of(s: EncodingScheme) -> Seq<char> {
    match s {
        EncodingScheme::O200kBase => "gpt-4o"@,
        EncodingScheme::Cl100kBase => "gpt-3.5-turbo"@,
        EncodingScheme::P50kBase => "text-davinci-003"@,
        EncodingScheme::P50kEdit => "text-davinci-edit-001"@,
        EncodingScheme::R50kBase => "gpt2"@,
    }
}

/// Character-by-character equality of two strings.
pub fn str_eq(a: &str, b: &str) -> (r: bool)
    ensures
        r == (a@ == b@),
{
    let n = a.unicode_len();
    if n != b.unicode_len() {
        return false;
    }
    let mut i: usize = 0;
    while i < n
        invariant
            n == a@.len(),
            n == b@.len(),
            i <= n,
            a@.subrange(0, i as int) == b@.subrange(0, i as int),
        decreases n - i,
    {
        if a.get_char(i) != b.get_char(i) {
            return false;
        }
        assert(a@.subrange(0, i + 1) == a@.subrange(0, i as int).push(a@[i as int]));
        assert(b@.subrange(0, i + 1) == b@.subrange(0, i as int).push(b@[i as int]));
        i = i + 1;
    }
    assert(a@ == a@.subrange(0, n as int));
    assert(b@ == b@.subrange(0, n as int));
    true
}

impl EncodingScheme {
    /// Looks a scheme up by its exact, case-sensitive name.
    pub fn from_name(name: &str) -> (r: Option<EncodingScheme>)
        ensures
            r == scheme_named(name@),
    {
        if str_eq(name, "o200k_base") {
            Some(EncodingScheme::O200kBase)
        } else if str_eq(name, "cl100k_base") {
            Some(EncodingScheme::Cl100kBase)
        } else if str_eq(name, "p50k_base") {
            Some(EncodingScheme::P50kBase)
        } else if str_eq(name, "p50k_edit") {
            Some(EncodingScheme::P50kEdit)
        } else if str_eq(name, "r50k_base") {
            Some(EncodingScheme::R50kBase)
        } else {
            None
        }
    }

    /// The model identifier used to obtain this scheme's encoder.
    pub fn model_name(&self) -> (r: &'static str)
        ensures
            r@ == model_of(*self),
    {
        match self {
            EncodingScheme::O200kBase => "gpt-4o",
            EncodingScheme::Cl100kBase => "gpt-3.5-turbo",
            EncodingScheme::P50kBase => "text-davinci-003",
            EncodingScheme::P50kEdit => "text-davinci-edit-001",
            EncodingScheme::R50kBase => "gpt2",
        }
    }
}

} // verus!
