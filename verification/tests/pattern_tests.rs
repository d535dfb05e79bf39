use lrcget::pattern::{lyrics_mark_instrumental, INSTRUMENTAL_MARKER};

fn some(s: &str) -> Option<String> {
    Some(String::from(s))
}

#[test]
fn marker_with_space_is_instrumental() {
    assert_eq!(lyrics_mark_instrumental(&some("[au: instrumental]")), Some(true));
}

#[test]
fn marker_without_space_is_instrumental() {
    assert_eq!(lyrics_mark_instrumental(&some("[au:instrumental]")), Some(true));
    assert_eq!(lyrics_mark_instrumental(&some("[ar: x]\n[au:\t  instrumental]\n")), Some(true));
}

#[test]
fn ordinary_lyrics_are_not_instrumental() {
    assert_eq!(lyrics_mark_instrumental(&some("[00:01.00] la la la")), Some(false));
    assert_eq!(lyrics_mark_instrumental(&some("instrumental")), Some(false));
    assert_eq!(lyrics_mark_instrumental(&some("[AU: instrumental]")), Some(false));
    assert_eq!(lyrics_mark_instrumental(&some("")), Some(false));
}

#[test]
fn no_synced_lyrics_is_not_instrumental() {
    assert_eq!(lyrics_mark_instrumental(&None), Some(false));
}

#[test]
fn marker_pattern_text() {
    assert_eq!(INSTRUMENTAL_MARKER, r"\[au:\s*instrumental\]");
}
