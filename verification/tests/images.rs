use base64::Engine;
use publisher_backend::encoding::{can_encode, data_uri};
use publisher_backend::failure::{CommandError, IoFailure, Stage};
use publisher_backend::images::{
    delete_image, get_image_size, image_path, images_dir, images_dir_of, is_plain_name,
    list_images, names_of,
    read_image, read_image_checked, save_image, save_target, save_target_named, Listing,
};
use publisher_backend::workdir::StorePath;
use std::collections::BTreeMap;
use std::path::PathBuf;

const PREFIX: &str = "data:image/png;base64,";

fn workdir() -> StorePath {
    StorePath::at(PathBuf::from("/srv/publisher"))
}

fn missing() -> IoFailure {
    IoFailure { not_found: true, text: "No such file or directory (os error 2)".to_string() }
}

fn denied() -> IoFailure {
    IoFailure { not_found: false, text: "Permission denied (os error 13)".to_string() }
}

fn names(list: &[&str]) -> Vec<String> {
    list.iter().map(|s| s.to_string()).collect()
}

#[test]
fn plain_names_are_single_entries() {
    assert!(is_plain_name("photo.png"));
    assert!(is_plain_name(".hidden"));
    assert!(is_plain_name("..."));
    assert!(is_plain_name("a..b"));
    assert!(is_plain_name("été.png"));
    assert!(!is_plain_name(""));
    assert!(!is_plain_name("."));
    assert!(!is_plain_name(".."));
    assert!(!is_plain_name("a/b.png"));
    assert!(!is_plain_name("../secret"));
    assert!(!is_plain_name("/etc/passwd"));
    assert!(!is_plain_name("a\\b.png"));
    assert!(!is_plain_name("photo.png/"));
    assert!(!is_plain_name("C:x.png"));
    assert!(!is_plain_name("C:"));
    assert!(!is_plain_name(":"));
    assert!(!is_plain_name("photo.png:stream"));
}

#[test]
fn images_live_directly_under_images() {
    let dir = images_dir(workdir());
    assert_eq!(dir.root, PathBuf::from("/srv/publisher"));
    assert_eq!(dir.segments, names(&["images"]));
    let path = image_path(Ok(workdir()), "photo.png").unwrap();
    assert_eq!(path.root, PathBuf::from("/srv/publisher"));
    assert_eq!(path.segments, names(&["images", "photo.png"]));
    let bundled = image_path(Ok(workdir().child("_up_".to_string())), "a.png").unwrap();
    assert_eq!(bundled.segments, names(&["_up_", "images", "a.png"]));
}

#[test]
fn image_path_refuses_names_that_leave_the_directory() {
    for name in ["..", "../x.png", "sub/x.png", "", ".", "c:\\x.png", "C:x.png"] {
        let error = image_path(Ok(workdir()), name).unwrap_err();
        assert_eq!(error.stage, Stage::InvalidFilename);
        assert_eq!(error.message(), "Nom de fichier invalide");
    }
}

#[test]
fn image_path_passes_resolution_failure_on() {
    let failure = CommandError::bare(Stage::CurrentDirectory);
    assert_eq!(image_path(Err(failure.clone()), "photo.png"), Err(failure));
    let failure = CommandError::with_detail(Stage::ResourceDirectory, "unknown".to_string());
    assert_eq!(image_path(Err(failure.clone()), ".."), Err(failure));
}

#[test]
fn failed_resolution_stops_a_save_before_it_starts() {
    let failure = CommandError::bare(Stage::CurrentDirectory);
    assert_eq!(images_dir_of(Err(failure.clone())), Err(failure));
    let failure = CommandError::with_detail(Stage::ResourceDirectory, "unknown".to_string());
    assert_eq!(images_dir_of(Err(failure.clone())), Err(failure.clone()));
    assert_eq!(failure.message(), "Failed to get resource_dir: unknown");
}

#[test]
fn resolved_workdir_gives_its_images_directory() {
    let dir = images_dir_of(Ok(workdir())).unwrap();
    assert_eq!(dir.root, PathBuf::from("/srv/publisher"));
    assert_eq!(dir.segments, names(&["images"]));
}

#[test]
fn save_target_refuses_file_names_that_are_not_plain() {
    for source in ["/tmp/a\\b.png", "/tmp/C:x.png"] {
        let error = save_target(images_dir(workdir()), Ok(()), source).unwrap_err();
        assert_eq!(error.stage, Stage::InvalidFilename);
    }
}

#[test]
fn save_target_uses_the_source_file_name() {
    let target = save_target(images_dir(workdir()), Ok(()), "/tmp/photo.png").unwrap();
    assert_eq!(target.filename, "photo.png");
    assert_eq!(target.path.root, PathBuf::from("/srv/publisher"));
    assert_eq!(target.path.segments, names(&["images", "photo.png"]));
    let target = save_target(images_dir(workdir()), Ok(()), "relative/dir/pic.jpeg").unwrap();
    assert_eq!(target.filename, "pic.jpeg");
    let target = save_target(images_dir(workdir()), Ok(()), "bare.gif").unwrap();
    assert_eq!(target.filename, "bare.gif");
    assert_eq!(target.path.segments, names(&["images", "bare.gif"]));
}

#[test]
fn save_target_rejects_paths_without_file_name() {
    for source in ["/tmp/..", "/", "", ".."] {
        let error = save_target(images_dir(workdir()), Ok(()), source).unwrap_err();
        assert_eq!(error.stage, Stage::InvalidFilename);
        assert_eq!(error.message(), "Nom de fichier invalide");
    }
}

#[test]
fn save_target_reports_directory_creation_first() {
    let error = save_target(images_dir(workdir()), Err(denied()), "/tmp/..").unwrap_err();
    assert_eq!(error.stage, Stage::CreateDirectory);
    assert_eq!(error.message(), "Erreur création dossier images: Permission denied (os error 13)");
}

#[test]
fn save_target_named_checks_the_candidate() {
    let target =
        save_target_named(images_dir(workdir()), Ok(()), Some("x.png".to_string())).unwrap();
    assert_eq!(target.filename, "x.png");
    assert_eq!(target.path.segments, names(&["images", "x.png"]));
    let error = save_target_named(images_dir(workdir()), Ok(()), None).unwrap_err();
    assert_eq!(error.stage, Stage::InvalidFilename);
    let error =
        save_target_named(images_dir(workdir()), Ok(()), Some("a\\b".to_string())).unwrap_err();
    assert_eq!(error.stage, Stage::InvalidFilename);
    let error = save_target_named(images_dir(workdir()), Err(missing()), Some("x.png".to_string()))
        .unwrap_err();
    assert_eq!(error.stage, Stage::CreateDirectory);
    assert!(error.not_found);
}

#[test]
fn save_image_returns_the_stored_name_or_copy_failure() {
    assert_eq!(save_image("photo.png".to_string(), Ok(())), Ok("photo.png".to_string()));
    let error = save_image("photo.png".to_string(), Err(missing())).unwrap_err();
    assert_eq!(error.stage, Stage::Copy);
    assert!(error.not_found);
    assert_eq!(error.message(), "Erreur copie image: No such file or directory (os error 2)");
}

#[test]
fn read_image_gives_png_data_uri() {
    assert_eq!(read_image(Ok(b"hello".to_vec())), Ok("data:image/png;base64,aGVsbG8=".to_string()));
    assert_eq!(read_image(Ok(Vec::new())), Ok("data:image/png;base64,".to_string()));
    assert_eq!(read_image(Ok(vec![0xff, 0xfe, 0xfd])), Ok("data:image/png;base64,//79".to_string()));
    assert_eq!(data_uri(&[0x4d]), "data:image/png;base64,TQ==");
}

#[test]
fn read_image_round_trips_the_bytes() {
    let source: Vec<u8> = (0..=255u8).chain([0x89, b'P', b'N', b'G']).collect();
    let uri = read_image(Ok(source.clone())).unwrap();
    assert!(uri.starts_with(PREFIX));
    let decoded = base64::engine::general_purpose::STANDARD.decode(&uri[PREFIX.len()..]).unwrap();
    assert_eq!(decoded, source);
}

#[test]
fn read_image_reports_read_failure() {
    let error = read_image(Err(missing())).unwrap_err();
    assert_eq!(error.stage, Stage::Read);
    assert!(error.not_found);
    assert_eq!(error.message(), "Erreur lecture image: No such file or directory (os error 2)");
    let error = read_image(Err(denied())).unwrap_err();
    assert!(!error.not_found);
}

#[test]
fn checked_read_agrees_with_read() {
    assert_eq!(
        read_image_checked(Ok(b"hello".to_vec())),
        Some(Ok("data:image/png;base64,aGVsbG8=".to_string()))
    );
    let error = read_image_checked(Err(missing())).unwrap().unwrap_err();
    assert_eq!(error.stage, Stage::Read);
    assert!(error.not_found);
}

#[test]
fn encodable_lengths() {
    assert!(can_encode(0));
    assert!(can_encode(1 << 20));
    let limit = isize::MAX as usize;
    assert!(can_encode(2));
    assert!(can_encode(limit / 4 * 3));
    assert!(!can_encode(limit / 4 * 3 + 1));
    assert!(!can_encode(limit));
    assert!(!can_encode(usize::MAX));
}

#[test]
fn delete_of_absent_file_fails_as_not_found() {
    let error = delete_image(Err(missing())).unwrap_err();
    assert_eq!(error.stage, Stage::Delete);
    assert!(error.not_found);
    assert_eq!(error.message(), "Erreur suppression image: No such file or directory (os error 2)");
    assert_eq!(delete_image(Ok(())), Ok(()));
    let error = delete_image(Err(denied())).unwrap_err();
    assert!(!error.not_found);
}

#[test]
fn image_size_is_the_reported_length() {
    assert_eq!(get_image_size(Ok(0)), Ok(0));
    assert_eq!(get_image_size(Ok(u64::MAX)), Ok(u64::MAX));
    let error = get_image_size(Err(missing())).unwrap_err();
    assert_eq!(error.stage, Stage::Stat);
    assert!(error.not_found);
    assert_eq!(error.message(), "Erreur metadata image: No such file or directory (os error 2)");
}

#[test]
fn listing_without_directory_is_empty() {
    assert_eq!(list_images(Listing::Missing), Ok(Vec::new()));
}

#[test]
fn listing_keeps_readable_names_in_order() {
    let entries = vec![
        Some("b.png".to_string()),
        None,
        Some("a.png".to_string()),
        Some("sub".to_string()),
        None,
    ];
    assert_eq!(names_of(&entries), names(&["b.png", "a.png", "sub"]));
    assert_eq!(list_images(Listing::Entries(entries)), Ok(names(&["b.png", "a.png", "sub"])));
    assert_eq!(list_images(Listing::Entries(Vec::new())), Ok(Vec::new()));
    assert_eq!(list_images(Listing::Entries(vec![None, None])), Ok(Vec::new()));
}

#[test]
fn listing_reports_unreadable_directory() {
    let error = list_images(Listing::Unreadable(denied())).unwrap_err();
    assert_eq!(error.stage, Stage::ReadDirectory);
    assert_eq!(error.message(), "Erreur lecture dossier images: Permission denied (os error 13)");
}

fn stored_len(directory: &BTreeMap<String, Vec<u8>>, name: &str) -> Result<u64, IoFailure> {
    match directory.get(name) {
        Some(bytes) => Ok(bytes.len() as u64),
        None => Err(missing()),
    }
}

fn entries_of(directory: &BTreeMap<String, Vec<u8>>) -> Listing {
    Listing::Entries(directory.keys().map(|name| Some(name.clone())).collect())
}

#[test]
fn saved_image_is_listed_once_sized_and_deleted() {
    let source_bytes = vec![0x89u8, b'P', b'N', b'G', 1, 2, 3];
    let mut directory: BTreeMap<String, Vec<u8>> = BTreeMap::new();
    directory.insert("older.png".to_string(), vec![1]);

    let target = save_target(images_dir(workdir()), Ok(()), "/tmp/photo.png").unwrap();
    assert_eq!(target.path.segments, names(&["images", "photo.png"]));
    directory.insert(target.path.segments[1].clone(), source_bytes.clone());
    let stored = save_image(target.filename, Ok(())).unwrap();
    assert_eq!(stored, "photo.png");

    let listed = list_images(entries_of(&directory)).unwrap();
    assert_eq!(listed.iter().filter(|name| **name == stored).count(), 1);

    let path = image_path(Ok(workdir()), &stored).unwrap();
    let name = path.segments[1].clone();
    assert_eq!(get_image_size(stored_len(&directory, &name)), Ok(7));
    let uri = read_image(directory.get(&name).cloned().ok_or(missing())).unwrap();
    let decoded = base64::engine::general_purpose::STANDARD.decode(&uri[PREFIX.len()..]).unwrap();
    assert_eq!(decoded, source_bytes);

    let removed = directory.remove(&name).map(|_| ()).ok_or(missing());
    assert_eq!(delete_image(removed), Ok(()));
    let error = get_image_size(stored_len(&directory, &name)).unwrap_err();
    assert!(error.not_found);
    let again = directory.remove(&name).map(|_| ()).ok_or(missing());
    assert!(delete_image(again).unwrap_err().not_found);
}

#[test]
fn saving_twice_keeps_one_entry() {
    let mut directory: BTreeMap<String, Vec<u8>> = BTreeMap::new();
    for bytes in [vec![1u8, 2], vec![3u8]] {
        let target = save_target(images_dir(workdir()), Ok(()), "/tmp/photo.png").unwrap();
        directory.insert(target.path.segments[1].clone(), bytes);
        assert_eq!(save_image(target.filename, Ok(())), Ok("photo.png".to_string()));
    }
    let listed = list_images(entries_of(&directory)).unwrap();
    assert_eq!(listed, names(&["photo.png"]));
    assert_eq!(get_image_size(stored_len(&directory, "photo.png")), Ok(1));
}
