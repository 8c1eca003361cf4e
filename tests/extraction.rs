use runzip::entry::{is_directory_name, plan_entry, stays_inside_root, EntryHeader, EntryKind};
use runzip::extract::{index_width, ArchiveFormat, Extractor};
use runzip::smart::{choose_layout, placement, Layout, Placement, Reconciler};
use runzip::{Error, FilenameEncoding};

fn header(name: &[u8], dir_flag: bool) -> EntryHeader {
    EntryHeader { raw_name: name.to_vec(), dir_flag }
}

#[test]
fn clean_run_reports_every_entry() {
    let mut ex = Extractor::new(FilenameEncoding::utf8());
    let names: [&[u8]; 4] = [b"proj/", b"proj/a.txt", b"proj/sub/", b"readme.txt"];
    let mut paths = Vec::new();
    for n in names.iter() {
        let plan = ex.accept(Ok(header(n, false))).unwrap();
        paths.push(plan.path);
    }
    assert_eq!(ex.written(), Some(4));
    assert_eq!(paths, vec!["proj/", "proj/a.txt", "proj/sub/", "readme.txt"]);
}

#[test]
fn empty_run_reports_zero() {
    let ex = Extractor::new(FilenameEncoding::utf8());
    assert_eq!(ex.written(), Some(0));
}

#[test]
fn trailing_separator_means_directory() {
    let enc = FilenameEncoding::utf8();
    let dir = plan_entry(&enc, &header(b"docs/", false)).unwrap();
    assert_eq!(dir.kind, EntryKind::Directory);
    let file = plan_entry(&enc, &header(b"docs/a.txt", false)).unwrap();
    assert_eq!(file.kind, EntryKind::File);
    let flagged = plan_entry(&enc, &header(b"docs", true)).unwrap();
    assert_eq!(flagged.kind, EntryKind::Directory);
    assert!(is_directory_name(b"x/"));
    assert!(!is_directory_name(b"x"));
    assert!(!is_directory_name(b""));
}

#[test]
fn wrong_password_halts_run() {
    let mut ex = Extractor::new(FilenameEncoding::utf8());
    assert!(ex.accept(Ok(header(b"a.txt", false))).is_ok());
    let r = ex.accept(Err(Error::from(zip::result::InvalidPassword)));
    assert!(matches!(r, Err(Error::InvalidPassword)));
    assert_eq!(ex.written(), None);
}

#[test]
fn undecodable_name_halts_run() {
    let mut ex = Extractor::new(FilenameEncoding::utf8());
    let r = ex.accept(Ok(header(&[0x93, 0xFA, 0x96, 0x7B], false)));
    assert!(matches!(r, Err(Error::EncodingError)));
    assert_eq!(ex.written(), None);
}

#[test]
fn shift_jis_name_decodes_under_its_label() {
    let raw: &[u8] = &[0x93, 0xFA, 0x96, 0x7B, b'/', b'a', b'.', b't', b'x', b't'];
    let sjis = FilenameEncoding::select(Some("shift_jis")).unwrap();
    assert_eq!(sjis.decode(raw).unwrap(), "日本/a.txt");
    let plan = plan_entry(&sjis, &header(raw, false)).unwrap();
    assert_eq!(plan.path, "日本/a.txt");
    let utf8 = FilenameEncoding::select(None).unwrap();
    assert!(matches!(utf8.decode(raw), Err(Error::EncodingError)));
    assert!(matches!(plan_entry(&utf8, &header(raw, false)), Err(Error::EncodingError)));
}

#[test]
fn utf8_name_decodes_unchanged() {
    let enc = FilenameEncoding::utf8();
    assert_eq!(enc.decode("naïve/ä.txt".as_bytes()).unwrap(), "naïve/ä.txt");
}

#[test]
fn unknown_label_is_encoding_error() {
    assert!(matches!(FilenameEncoding::select(Some("no-such-codec")), Err(Error::EncodingError)));
    assert!(matches!(FilenameEncoding::for_label(b"klingon"), Err(Error::EncodingError)));
    assert!(FilenameEncoding::for_label(b" Latin2 ").is_ok());
}

#[test]
fn escaping_names_are_refused() {
    let enc = FilenameEncoding::utf8();
    assert!(matches!(plan_entry(&enc, &header(b"../evil", false)), Err(Error::UnsafePath)));
    assert!(matches!(plan_entry(&enc, &header(b"/etc/passwd", false)), Err(Error::UnsafePath)));
    assert!(matches!(plan_entry(&enc, &header(b"a/../../b", false)), Err(Error::UnsafePath)));
    assert!(matches!(plan_entry(&enc, &header(b"a/..", true)), Err(Error::UnsafePath)));
    assert!(stays_inside_root("a/..b/c"));
    assert!(stays_inside_root("..."));
    assert!(stays_inside_root("a/b..//c"));
    assert!(stays_inside_root(""));
    assert!(!stays_inside_root(".."));
}

#[test]
fn escaping_name_halts_run() {
    let mut ex = Extractor::new(FilenameEncoding::utf8());
    let r = ex.accept(Ok(header(b"../x", false)));
    assert!(matches!(r, Err(Error::UnsafePath)));
    assert_eq!(ex.written(), None);
}

#[test]
fn index_width_counts_digits_plus_two() {
    assert_eq!(index_width(0), 3);
    assert_eq!(index_width(9), 3);
    assert_eq!(index_width(10), 4);
    assert_eq!(index_width(12345), 7);
    assert_eq!(index_width(usize::MAX), usize::MAX.to_string().len() + 2);
}

#[test]
fn wrapper_root_merges_up() {
    assert_eq!(choose_layout(&[true]), Layout::MergeUp);
    assert_eq!(choose_layout(&[true, true, true]), Layout::MergeUp);
    let mut rec = Reconciler::new(false);
    assert_eq!(rec.inspect(&[true]), Layout::MergeUp);
    assert_eq!(rec.place(false), Placement::Move);
    assert_eq!(rec.finish(), Layout::MergeUp);
}

#[test]
fn empty_root_merges_up() {
    assert_eq!(choose_layout(&[]), Layout::MergeUp);
}

#[test]
fn mixed_root_is_renamed() {
    assert_eq!(choose_layout(&[false]), Layout::Rename);
    assert_eq!(choose_layout(&[true, false, true]), Layout::Rename);
    let mut rec = Reconciler::new(false);
    assert_eq!(rec.inspect(&[false, true]), Layout::Rename);
    assert_eq!(rec.place(false), Placement::Move);
    assert_eq!(rec.finish(), Layout::Rename);
}

#[test]
fn force_clears_a_taken_path() {
    assert_eq!(placement(true, true), Placement::ClearThenMove);
    assert_eq!(placement(false, true), Placement::Move);
    let mut rec = Reconciler::new(true);
    assert_eq!(rec.inspect(&[false]), Layout::Rename);
    assert_eq!(rec.place(true), Placement::ClearThenMove);
    assert_eq!(rec.finish(), Layout::Rename);
}

#[test]
fn collision_without_force_stops() {
    assert_eq!(placement(true, false), Placement::Collision);
    assert_eq!(placement(false, false), Placement::Move);
    let mut rec = Reconciler::new(false);
    assert_eq!(rec.inspect(&[true, true]), Layout::MergeUp);
    assert_eq!(rec.place(false), Placement::Move);
    assert_eq!(rec.place(true), Placement::Collision);
}

#[test]
fn format_follows_extension() {
    assert_eq!(ArchiveFormat::for_extension(Some("rar")), ArchiveFormat::Rar);
    assert_eq!(ArchiveFormat::for_extension(Some("zip")), ArchiveFormat::Zip);
    assert_eq!(ArchiveFormat::for_extension(Some("RAR")), ArchiveFormat::Zip);
    assert_eq!(ArchiveFormat::for_extension(Some("rar5")), ArchiveFormat::Zip);
    assert_eq!(ArchiveFormat::for_extension(None), ArchiveFormat::Zip);
}
