//! The client-side flag resolution, the dictionary edits, and the
//! text-injection error messages.

use voice_input::dict::EntryStatus;
use voice_input::dict::JsonFileDictRepo;
use voice_input::dict::WordEntry;
use voice_input::dict::delete_entry;
use voice_input::dict::upsert_entry;
use voice_input::resolve_direct_input_flag;
use voice_input::text_input::EnigoInputError;

#[test]
fn direct_input_flags_resolve() {
    assert_eq!(resolve_direct_input_flag(false, false), Ok(false));
    assert_eq!(resolve_direct_input_flag(true, false), Ok(true));
    assert_eq!(resolve_direct_input_flag(false, true), Ok(false));
    assert_eq!(
        resolve_direct_input_flag(true, true),
        Err("Cannot specify both --direct-input and --no-direct-input")
    );
}

fn entry(surface: &str, replacement: &str, hit: u32) -> WordEntry {
    WordEntry {
        surface: surface.to_string(),
        replacement: replacement.to_string(),
        hit,
        status: EntryStatus::Active,
    }
}

#[test]
fn upsert_adds_and_updates() {
    let mut entries: Vec<WordEntry> = Vec::new();
    upsert_entry(&mut entries, entry("foo", "bar", 0));
    upsert_entry(&mut entries, entry("foo", "baz", 2));

    assert_eq!(entries.len(), 1);
    assert_eq!(entries[0].surface, "foo");
    assert_eq!(entries[0].replacement, "baz");
    assert_eq!(entries[0].hit, 2);
}

#[test]
fn upsert_keeps_other_surfaces_in_place() {
    let mut entries: Vec<WordEntry> = Vec::new();
    upsert_entry(&mut entries, entry("foo", "bar", 0));
    upsert_entry(&mut entries, entry("qux", "quux", 1));
    upsert_entry(&mut entries, entry("foo", "baz", 5));

    assert_eq!(entries.len(), 2);
    assert_eq!(entries[0].surface, "foo");
    assert_eq!(entries[0].replacement, "baz");
    assert_eq!(entries[1].surface, "qux");
    assert_eq!(entries[1].replacement, "quux");
}

#[test]
fn delete_removes_entry() {
    let mut entries: Vec<WordEntry> = Vec::new();
    upsert_entry(&mut entries, entry("foo", "bar", 0));
    assert!(delete_entry(&mut entries, &"foo".to_string()));
    assert!(!delete_entry(&mut entries, &"foo".to_string()));
    assert!(entries.is_empty());
}

#[test]
fn repository_remembers_its_path() {
    let repo = JsonFileDictRepo::with_path("/data/dictionary.json".to_string());
    assert_eq!(repo.path(), "/data/dictionary.json");
}

#[test]
fn enigo_error_messages_name_the_failure() {
    let init = EnigoInputError::InitError("no display".to_string());
    assert_eq!(init.message(), "Enigo initialization failed: no display");
    let input = EnigoInputError::InputError("key refused".to_string());
    assert_eq!(input.message(), "Text input failed: key refused");
}
