use moss::fs::{
    create_file, handle_file, handle_files, DirEntry, Directory, File, FileError, FileSystem,
    Path,
};

#[test]
fn path_from_str_is_a_bare_file_name() {
    let p = Path::from_str("notes");
    assert!(!p.have_parent());
    assert_eq!(p.file_name().as_str(), "notes");
}

#[test]
fn created_file_is_found_again() {
    let mut fs = FileSystem::new();
    assert!(create_file(&mut fs, &mut Path::from_str("a")).is_ok());
    let found = handle_file(&fs, &mut Path::from_str("a")).unwrap();
    assert_eq!(found.name().as_str(), "a");
    assert!(found.content().is_empty());
}

#[test]
fn creating_the_same_file_twice_fails() {
    let mut fs = FileSystem::new();
    assert!(create_file(&mut fs, &mut Path::from_str("a")).is_ok());
    assert_eq!(
        create_file(&mut fs, &mut Path::from_str("a")),
        Err(FileError::AlreadyFile)
    );
    // the first file is still there
    assert!(handle_file(&fs, &mut Path::from_str("a")).is_ok());
}

#[test]
fn missing_file_lookup_fails() {
    let fs = FileSystem::new();
    let r = handle_file(&fs, &mut Path::from_str("nope"));
    assert_eq!(r.err(), Some(FileError::AlreadyFile));
}

#[test]
fn file_with_content_keeps_its_bytes() {
    let f = File::with_content("blob", vec![1, 2, 3]);
    assert_eq!(f.name().as_str(), "blob");
    assert_eq!(f.content().as_slice(), &[1, 2, 3]);
}

#[test]
fn listing_goes_through_the_like_named_directory() {
    // a file "d" and a directory "d" holding two files
    let root = Directory {
        dirs: vec![DirEntry {
            name: String::from("d"),
            dir: Directory {
                dirs: vec![],
                files: vec![File::new("x"), File::new("y")],
            },
        }],
        files: vec![File::new("d")],
    };
    let fs = FileSystem { root_dir: root };
    let listed = handle_files(&fs, &mut Path::from_str("d")).unwrap();
    assert_eq!(listed.len(), 2);
    assert_eq!(listed[0].name().as_str(), "x");
    assert_eq!(listed[1].name().as_str(), "y");
}

#[test]
fn listing_without_the_directory_fails() {
    let mut fs = FileSystem::new();
    create_file(&mut fs, &mut Path::from_str("d")).unwrap();
    let r = handle_files(&fs, &mut Path::from_str("d"));
    assert_eq!(r.err(), Some(FileError::NotFoundDir));
}
