use ferinth::error::RequestError;
use ferinth::validate::{check_id_slug, check_id_slugs, check_sha1_hash};

#[test]
fn slug_alphanumeric_passes() {
    assert_eq!(check_id_slug("AANobbMI"), Ok(()));
}

#[test]
fn slug_with_hyphen_passes() {
    assert_eq!(check_id_slug("ok-zoomer"), Ok(()));
}

#[test]
fn slug_with_slash_fails() {
    assert_eq!(check_id_slug("bad/slug"), Err(RequestError::NotBase62));
}

#[test]
fn slug_all_allowed_classes_pass() {
    assert_eq!(check_id_slug("azAZ09-"), Ok(()));
    assert_eq!(check_id_slug("-"), Ok(()));
}

#[test]
fn slug_empty_passes() {
    assert_eq!(check_id_slug(""), Ok(()));
}

#[test]
fn slug_other_characters_fail() {
    for s in ["a b", "a_b", "a.b", "é", "abc?", "x%20", "ß-ok", "tab\t"] {
        assert_eq!(check_id_slug(s), Err(RequestError::NotBase62), "{}", s);
    }
}

#[test]
fn slugs_all_valid_pass() {
    assert_eq!(check_id_slugs(&["AANobbMI", "P7dR8mSH", "ok-zoomer"]), Ok(()));
    assert_eq!(check_id_slugs(&[]), Ok(()));
}

#[test]
fn slugs_one_invalid_fails() {
    assert_eq!(check_id_slugs(&["AANobbMI", "bad/slug", "ok"]), Err(RequestError::NotBase62));
    assert_eq!(check_id_slugs(&["bad slug"]), Err(RequestError::NotBase62));
}

#[test]
fn slugs_agree_with_each_member() {
    let ids = ["abc", "d-e", "f/g", "h i", "JK"];
    for a in ids {
        for b in ids {
            let each = check_id_slug(a).is_ok() && check_id_slug(b).is_ok();
            assert_eq!(check_id_slugs(&[a, b]).is_ok(), each);
        }
    }
}

#[test]
fn sha1_forty_lowercase_hex_passes() {
    assert_eq!(check_sha1_hash("0123456789abcdef0123456789abcdef01234567"), Ok(()));
    assert_eq!(check_sha1_hash(&"f".repeat(40)), Ok(()));
}

#[test]
fn sha1_thirty_nine_fails() {
    assert_eq!(check_sha1_hash(&"a".repeat(39)), Err(RequestError::NotSHA1));
}

#[test]
fn sha1_forty_one_fails() {
    assert_eq!(check_sha1_hash(&"a".repeat(41)), Err(RequestError::NotSHA1));
}

#[test]
fn sha1_uppercase_fails() {
    let s = format!("A{}", "0".repeat(39));
    assert_eq!(s.len(), 40);
    assert_eq!(check_sha1_hash(&s), Err(RequestError::NotSHA1));
}

#[test]
fn sha1_non_hex_fails() {
    let s = format!("{}g", "0".repeat(39));
    assert_eq!(check_sha1_hash(&s), Err(RequestError::NotSHA1));
    assert_eq!(check_sha1_hash(""), Err(RequestError::NotSHA1));
}

#[test]
fn error_messages_differ() {
    assert_ne!(RequestError::NotBase62.message(), RequestError::NotSHA1.message());
}
