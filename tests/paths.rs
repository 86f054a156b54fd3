use renom::path::FsPath;

#[test]
fn separators_and_empty_components_do_not_matter() {
    assert_eq!(FsPath::new("a/b\\c"), FsPath::new("a\\b/c/"));
    assert_eq!(FsPath::new("a//b").to_text(), "a/b");
    assert_eq!(FsPath::new("/root/x").to_text(), "/root/x");
    assert_eq!(FsPath::new("").to_text(), "");
}

#[test]
fn with_extension_replaces_the_last_extension() {
    assert_eq!(FsPath::new("a/Start").with_extension("Target.cs").to_text(), "a/Start.Target.cs");
    assert_eq!(FsPath::new("a/x.tar.gz").with_extension("zip").to_text(), "a/x.tar.zip");
    assert_eq!(FsPath::new("a/.hidden").with_extension("txt").to_text(), "a/.hidden.txt");
    assert_eq!(FsPath::new("a/b.txt").with_extension("").to_text(), "a/b");
    assert_eq!(FsPath::new("").with_extension("txt").to_text(), "");
}

#[test]
fn with_file_name_replaces_the_last_component() {
    assert_eq!(FsPath::new("a/b").with_file_name("c").to_text(), "a/c");
    assert_eq!(FsPath::new("").with_file_name("Finish").to_text(), "Finish");
    assert_eq!(FsPath::new("a").with_file_name("b/c").to_text(), "b/c");
}

#[test]
fn join_and_compare() {
    let a = FsPath::new("root").join("Config/DefaultEngine.ini");
    let b = FsPath::new("root").join("Config").join("DefaultEngine.ini");
    assert!(a.same_as(&b));
    assert!(!a.same_as(&FsPath::new("/root/Config/DefaultEngine.ini")));
    assert_eq!(FsPath::new("r").join_path(&FsPath::new("x/y")).to_text(), "r/x/y");
    assert_eq!(FsPath::new("r/f.txt").file_name(), Some(String::from("f.txt")));
    assert_eq!(FsPath::new("").file_name(), None);
}
