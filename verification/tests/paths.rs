use sensemaker_widgets::content::{mk_meme_src, FileBytes, Meme, Paper};
use sensemaker_widgets::hash::{bytes_equal, copy_bytes, AgentPubKey, EntryHash, HeaderHash};
use sensemaker_widgets::path::{
    agent_address, compose_agent_path, compose_entry_hash_path, compose_paths, entry_address,
};

fn raw(first: u8) -> Vec<u8> {
    let mut bytes = vec![0u8; 39];
    bytes[0] = first;
    bytes
}

#[test]
fn meme_from_one_byte_file_is_padded_twice() {
    let file = FileBytes { filename: "a.png".to_string(), bytes: vec![b'A'] };
    let meme = Meme::from_file_bytes(file);
    assert_eq!(meme.filename, "a.png");
    assert_eq!(meme.blob_str, "QQ==");
}

#[test]
fn paper_from_file_uses_the_standard_alphabet() {
    let file = FileBytes { filename: "p.pdf".to_string(), bytes: vec![0xfb, 0xff, 0xbf] };
    let paper = Paper::from_file_bytes(file);
    assert_eq!(paper.filename, "p.pdf");
    assert_eq!(paper.blob_str, "+/+/");
}

#[test]
fn meme_from_text_file() {
    let file = FileBytes { filename: "t.txt".to_string(), bytes: b"hello world".to_vec() };
    assert_eq!(Meme::from_file_bytes(file).blob_str, "aGVsbG8gd29ybGQ=");
}

#[test]
fn meme_from_empty_file_has_empty_payload() {
    let file = FileBytes { filename: "e".to_string(), bytes: vec![] };
    assert_eq!(Meme::from_file_bytes(file).blob_str, "");
}

#[test]
fn meme_source_is_an_inline_image() {
    let meme = Meme { filename: "a.png".to_string(), blob_str: "QQ==".to_string() };
    assert_eq!(mk_meme_src(&meme), "data:img;base64,QQ==");
}

#[test]
fn hash_takes_39_bytes_only() {
    assert!(EntryHash::from_raw_39(vec![1u8; 39]).is_some());
    assert!(EntryHash::from_raw_39(vec![1u8; 38]).is_none());
    assert!(EntryHash::from_raw_39(vec![1u8; 40]).is_none());
    assert!(EntryHash::from_raw_39(vec![]).is_none());
    assert!(HeaderHash::from_raw_39(vec![1u8; 39]).is_some());
    assert!(HeaderHash::from_raw_39(vec![1u8; 36]).is_none());
    assert!(AgentPubKey::from_raw_39(vec![1u8; 39]).is_some());
    assert!(AgentPubKey::from_raw_39(vec![1u8; 32]).is_none());
}

#[test]
fn hash_gives_its_bytes_back() {
    let hash = EntryHash::from_raw_39(raw(7)).unwrap();
    assert_eq!(hash.get_raw_39(), &raw(7));
    let copy = hash.clone();
    assert!(copy.same_as(&hash));
    assert!(!copy.same_as(&EntryHash::from_raw_39(raw(8)).unwrap()));
    assert_eq!(hash.into_inner(), raw(7));
}

#[test]
fn bytes_compare_and_copy() {
    assert!(bytes_equal(&vec![1, 2, 3], &vec![1, 2, 3]));
    assert!(!bytes_equal(&vec![1, 2, 3], &vec![1, 2]));
    assert!(!bytes_equal(&vec![1, 2, 3], &vec![1, 2, 4]));
    assert!(bytes_equal(&vec![], &vec![]));
    assert_eq!(copy_bytes(&vec![9, 8, 7]), vec![9, 8, 7]);
}

#[test]
fn paths_are_joined_by_a_slash() {
    let path = compose_paths(&"widget.memez.memez".to_string(), &"abc".to_string());
    assert_eq!(path, "widget.memez.memez/abc");
    assert_eq!(compose_paths(&"".to_string(), &"".to_string()), "/");
}

#[test]
fn addresses_are_url_safe_base64() {
    // Every group of three bytes encodes to the digits 62, 63, 62, 63.
    let mut bytes = Vec::new();
    for _ in 0..13 {
        bytes.extend_from_slice(&[0xfb, 0xff, 0xbf]);
    }
    let entry = EntryHash::from_raw_39(bytes.clone()).unwrap();
    assert_eq!(entry_address(&entry), "-_-_".repeat(13));
    let agent = AgentPubKey::from_raw_39(bytes).unwrap();
    assert_eq!(agent_address(&agent), "-_-_".repeat(13));
}

#[test]
fn zero_hash_path() {
    let entry = EntryHash::from_raw_39(vec![0u8; 39]).unwrap();
    let path = compose_entry_hash_path(&"widget.memez.memez".to_string(), entry);
    assert_eq!(path, format!("widget.memez.memez/{}", "A".repeat(52)));
    let agent = AgentPubKey::from_raw_39(vec![0u8; 39]).unwrap();
    let path = compose_agent_path(&"widget.paperz.agent".to_string(), &agent);
    assert_eq!(path, format!("widget.paperz.agent/{}", "A".repeat(52)));
}

#[test]
fn distinct_pairs_have_distinct_paths() {
    let one = EntryHash::from_raw_39(raw(1)).unwrap();
    let two = EntryHash::from_raw_39(raw(2)).unwrap();
    let ns = "widget.memez.memez".to_string();
    let other = "widget.memez".to_string();
    let p11 = compose_entry_hash_path(&ns, one.clone());
    let p12 = compose_entry_hash_path(&ns, two.clone());
    let p21 = compose_entry_hash_path(&other, one.clone());
    assert_ne!(p11, p12);
    assert_ne!(p11, p21);
    assert_ne!(p12, p21);
    assert_eq!(p11, compose_entry_hash_path(&ns, one));
    // The address never holds the separator, so the namespace ends at the
    // last one.
    assert_eq!(p12.rfind('/'), Some(ns.len()));
}

#[test]
fn an_address_with_a_separator_can_collide() {
    let cut_early = compose_paths(&"a".to_string(), &"b/c".to_string());
    let cut_late = compose_paths(&"a/b".to_string(), &"c".to_string());
    assert_eq!(cut_early, "a/b/c");
    assert_eq!(cut_late, "a/b/c");
    // A namespace may hold the separator without harm.
    assert_ne!(
        compose_paths(&"a/b".to_string(), &"c".to_string()),
        compose_paths(&"a".to_string(), &"bc".to_string())
    );
}
