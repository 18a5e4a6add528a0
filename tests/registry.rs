use tiktoken_ffi::encoder::{text_or_empty, Encoder};
use tiktoken_ffi::registry::{commit_init, prepare_init, resolve, InitError, ResolveError};
use tiktoken_ffi::scheme::EncodingScheme;
use tiktoken_ffi::{tiktoken_cleanup, tiktoken_count, tiktoken_init, Registry};

const SCHEMES: [&str; 5] = ["o200k_base", "cl100k_base", "p50k_base", "p50k_edit", "r50k_base"];

fn ready(name: &str) -> Registry {
    let mut reg = Registry::new();
    assert_eq!(tiktoken_init(Some(&mut reg), Some(name.as_bytes())), 0);
    reg
}

fn count(reg: &Registry, text: &str) -> usize {
    tiktoken_count(Some(reg), Some(text.as_bytes()))
}

#[test]
fn cl100k_counts_hello_world() {
    let mut reg = Registry::new();
    assert_eq!(tiktoken_init(Some(&mut reg), Some(b"cl100k_base".as_slice())), 0);
    assert_eq!(count(&reg, "hello world"), 2);
}

#[test]
fn unknown_scheme_leaves_registry_empty() {
    let mut reg = Registry::new();
    assert_eq!(tiktoken_init(Some(&mut reg), Some(b"unknown_scheme".as_slice())), -2);
    assert_eq!(count(&reg, "hello"), 0);
    assert_eq!(reg.active_scheme(), None);
}

#[test]
fn null_scheme_name_changes_nothing() {
    let mut empty = Registry::new();
    assert_eq!(tiktoken_init(Some(&mut empty), None), -1);
    assert_eq!(empty.active_scheme(), None);
    let mut reg = ready("p50k_base");
    assert_eq!(tiktoken_init(Some(&mut reg), None), -1);
    assert_eq!(reg.active_scheme(), Some(EncodingScheme::P50kBase));
}

#[test]
fn null_text_counts_zero_when_ready() {
    let reg = ready("cl100k_base");
    assert_eq!(tiktoken_count(Some(&reg), None), 0);
}

#[test]
fn every_scheme_counts_non_empty_text_positively() {
    for name in SCHEMES {
        let reg = ready(name);
        assert!(count(&reg, "hello") > 0, "{name}");
        assert!(count(&reg, " ") > 0, "{name}");
    }
}

#[test]
fn unknown_scheme_keeps_a_ready_registry_ready() {
    let mut reg = ready("o200k_base");
    assert_eq!(tiktoken_init(Some(&mut reg), Some(b"O200K_BASE".as_slice())), -2);
    assert_eq!(reg.active_scheme(), Some(EncodingScheme::O200kBase));
    assert!(count(&reg, "hello") > 0);
}

#[test]
fn empty_registry_counts_zero() {
    let reg = Registry::new();
    assert_eq!(count(&reg, "hello world"), 0);
    assert_eq!(count(&reg, ""), 0);
    assert_eq!(tiktoken_count(Some(&reg), None), 0);
}

#[test]
fn empty_text_counts_zero_when_ready() {
    let reg = ready("cl100k_base");
    assert_eq!(count(&reg, ""), 0);
}

#[test]
fn reset_twice_stays_empty() {
    let mut reg = ready("r50k_base");
    tiktoken_cleanup(Some(&mut reg));
    assert_eq!(reg.active_scheme(), None);
    tiktoken_cleanup(Some(&mut reg));
    assert_eq!(reg.active_scheme(), None);
    assert_eq!(count(&reg, "hello"), 0);
}

#[test]
fn reinitialize_uses_latest_scheme() {
    let text = "fn main() {\n        println!(\"héllo wörld\");\n}";
    let fresh = ready("cl100k_base");
    let mut reg = ready("r50k_base");
    let before = count(&reg, text);
    assert_eq!(tiktoken_init(Some(&mut reg), Some(b"cl100k_base".as_slice())), 0);
    assert_eq!(reg.active_scheme(), Some(EncodingScheme::Cl100kBase));
    assert_eq!(count(&reg, text), count(&fresh, text));
    assert_ne!(before, count(&reg, text));
}

#[test]
fn repeated_counts_agree() {
    let reg = ready("p50k_edit");
    let text = "The quick brown fox jumps over the lazy dog.";
    let first = count(&reg, text);
    assert_eq!(count(&reg, text), first);
    assert_eq!(count(&reg, text), first);
}

#[test]
fn special_token_counts_once() {
    let reg = ready("cl100k_base");
    assert_eq!(count(&reg, "<|endoftext|>"), 1);
}

#[test]
fn lock_failure_statuses() {
    assert_eq!(tiktoken_init(None, None), -1);
    assert_eq!(tiktoken_init(None, Some(b"bogus".as_slice())), -2);
    assert_eq!(tiktoken_init(None, Some(b"cl100k_base".as_slice())), -3);
    assert_eq!(tiktoken_count(None, Some(b"hello".as_slice())), 0);
    tiktoken_cleanup(None);
}

#[test]
fn invalid_utf8_reads_as_empty() {
    let mut reg = Registry::new();
    assert_eq!(tiktoken_init(Some(&mut reg), Some([0xffu8, 0xfe].as_slice())), -2);
    let reg = ready("cl100k_base");
    assert_eq!(tiktoken_count(Some(&reg), Some([b'h', 0xff, b'i'].as_slice())), 0);
    assert_eq!(text_or_empty(&[0xc3, 0x28]), "");
    assert_eq!(text_or_empty("héllo".as_bytes()), "héllo");
}

#[test]
fn status_codes() {
    assert_eq!(InitError::NullInput.code(), -1);
    assert_eq!(InitError::UnrecognizedScheme.code(), -2);
    assert_eq!(InitError::LockFailure.code(), -3);
    assert_eq!(InitError::ResolutionFailed.code(), -4);
}

#[test]
fn scheme_names_and_models() {
    assert_eq!(EncodingScheme::from_name("p50k_edit"), Some(EncodingScheme::P50kEdit));
    assert_eq!(EncodingScheme::from_name("r50k_base"), Some(EncodingScheme::R50kBase));
    assert_eq!(EncodingScheme::from_name("cl100k_base "), None);
    assert_eq!(EncodingScheme::from_name(""), None);
    assert_eq!(EncodingScheme::O200kBase.model_name(), "gpt-4o");
    assert_eq!(EncodingScheme::Cl100kBase.model_name(), "gpt-3.5-turbo");
    assert_eq!(EncodingScheme::R50kBase.model_name(), "gpt2");
}

#[test]
fn resolve_maps_names() {
    match resolve("p50k_base") {
        Ok(e) => assert_eq!(e.scheme(), EncodingScheme::P50kBase),
        Err(e) => panic!("{e:?}"),
    }
    assert!(matches!(resolve("gpt2"), Err(ResolveError::UnknownScheme)));
}

#[test]
fn encoder_counts_by_vocabulary() {
    let e = Encoder::load(EncodingScheme::Cl100kBase).unwrap_or_else(|| panic!("load"));
    assert_eq!(e.count("hello world"), Some(2));
    assert_eq!(e.count(""), Some(0));
}

#[test]
fn long_whitespace_run_counts_zero_instead_of_panicking() {
    let text = format!("{}a", " ".repeat(1_100_000));
    let e = Encoder::load(EncodingScheme::Cl100kBase).unwrap_or_else(|| panic!("load"));
    assert_eq!(e.count(&text), None);
    let reg = ready("cl100k_base");
    assert_eq!(count(&reg, &text), 0);
}

#[test]
fn init_in_two_steps() {
    assert!(matches!(prepare_init(None), Err(InitError::NullInput)));
    assert!(matches!(prepare_init(Some(b"nope".as_slice())), Err(InitError::UnrecognizedScheme)));
    let mut reg = ready("o200k_base");
    assert_eq!(commit_init(Some(&mut reg), None), -4);
    assert_eq!(reg.active_scheme(), None);
    match prepare_init(Some(b"p50k_edit".as_slice())) {
        Ok(loaded) => {
            assert!(loaded.is_some());
            assert_eq!(commit_init(None, None), -3);
            assert_eq!(commit_init(Some(&mut reg), loaded), 0);
        }
        Err(e) => panic!("{e:?}"),
    }
    assert_eq!(reg.active_scheme(), Some(EncodingScheme::P50kEdit));
}
