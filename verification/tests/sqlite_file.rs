use sqlite_vacuum::sqlite_file::check_header;
use sqlite_vacuum::sqlite_file::classify;
use sqlite_vacuum::sqlite_file::classify_header;
use sqlite_vacuum::sqlite_file::extension;
use sqlite_vacuum::sqlite_file::sqlite_magic_bytes;
use sqlite_vacuum::sqlite_file::Classification;
use sqlite_vacuum::sqlite_file::SQLiteFile;

#[test]
fn sqlite_file_test_path_accessor() {
    let path = String::from("/file");
    let db = SQLiteFile::new(&path);
    assert_eq!(db.path(), &path);
}

#[test]
fn sqlite_file_tests_test_path_accessor() {
    let path = String::from("/file");
    let db = SQLiteFile::new(&path);
    assert_eq!(db.path(), &path);
}

#[test]
fn extension_of_ordinary_names() {
    assert_eq!(extension("root/a.db"), Some(String::from("db")));
    assert_eq!(extension("root/b.sqlite"), Some(String::from("sqlite")));
    assert_eq!(extension("notes.txt"), Some(String::from("txt")));
    assert_eq!(extension("archive.tar.gz"), Some(String::from("gz")));
}

#[test]
fn extension_of_dotless_and_hidden_names() {
    assert_eq!(extension("root/data"), None);
    assert_eq!(extension("root/.hidden"), None);
    assert_eq!(extension(""), None);
    assert_eq!(extension("dir.d/plain"), None);
}

#[test]
fn magic_bytes_spell_the_format_header() {
    let magic = sqlite_magic_bytes();
    assert_eq!(magic.len(), 16);
    assert_eq!(&magic[..15], b"SQLite format 3");
    assert_eq!(magic[15], 0u8);
}

#[test]
fn header_check_accepts_the_magic_and_rejects_others() {
    let mut good = sqlite_magic_bytes();
    good.extend_from_slice(&[1, 2, 3, 4]);
    assert!(check_header(&good));

    let mut wrong_byte = sqlite_magic_bytes();
    wrong_byte[0] = b'X';
    assert!(!check_header(&wrong_byte));

    let truncated: Vec<u8> = sqlite_magic_bytes()[..8].to_vec();
    assert!(!check_header(&truncated));

    assert!(!check_header(&Vec::new()));
}

#[test]
fn fast_mode_accepts_the_extension_allow_list() {
    assert!(matches!(
        classify("root/a.db", true, 2000, false),
        Classification::Accept(_)
    ));
    assert!(matches!(
        classify("root/b.sqlite", true, 600, false),
        Classification::Accept(_)
    ));
    assert!(matches!(
        classify("root/b.txt", true, 2000, false),
        Classification::Reject
    ));
    assert!(matches!(
        classify("root/noext", true, 2000, false),
        Classification::Reject
    ));
}

#[test]
fn small_files_are_rejected_in_either_mode() {
    assert!(matches!(
        classify("root/a.db", true, 511, false),
        Classification::Reject
    ));
    assert!(matches!(
        classify("root/a.db", true, 511, true),
        Classification::Reject
    ));
    assert!(matches!(
        classify("root/a.db", true, 0, true),
        Classification::Reject
    ));
}

#[test]
fn non_files_are_rejected_in_either_mode() {
    assert!(matches!(
        classify("root/sub.db", false, 4096, false),
        Classification::Reject
    ));
    assert!(matches!(
        classify("root/sub.db", false, 4096, true),
        Classification::Reject
    ));
}

#[test]
fn mode_dependent_detection_on_one_fixture() {
    // One fixture: an unsupported extension but a valid header.
    let path = "root/backup.bak";
    let mut header = sqlite_magic_bytes();
    header.extend_from_slice(&[0, 0, 0, 0]);

    // Fast mode rejects it by its name alone.
    assert!(matches!(classify(path, true, 2000, false), Classification::Reject));

    // Aggressive mode asks for the header and then accepts it.
    assert!(matches!(
        classify(path, true, 2000, true),
        Classification::InspectHeader
    ));
    let accepted = classify_header(path, &header);
    assert!(accepted.is_some());
    assert_eq!(accepted.unwrap().path(), path);
}

#[test]
fn aggressive_mode_rejects_a_wrong_header() {
    let path = "root/fake.db";
    let header = vec![0u8; 32];
    assert!(classify_header(path, &header).is_none());
}
