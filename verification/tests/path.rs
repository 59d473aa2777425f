use with_chunks::ident::AssetIdent;
use with_chunks::join::try_join;
use with_chunks::path::FileSystemPath;

fn path(text: &str) -> FileSystemPath {
    FileSystemPath::new(text.to_string())
}

#[test]
fn get_path_to_a_path_below() {
    assert_eq!(
        path("/build").get_path_to(&path("/build/static/chunks/a.js")),
        Some("static/chunks/a.js")
    );
    assert_eq!(path("a").get_path_to(&path("a/b")), Some("b"));
    assert_eq!(path("a/b").get_path_to(&path("a/b/c/d")), Some("c/d"));
    assert_eq!(path("/build").get_path_to(&path("/build/")), Some(""));
    assert_eq!(path("/build").get_path_to(&path("/build//a")), Some("/a"));
}

#[test]
fn get_path_to_a_path_elsewhere() {
    assert_eq!(path("/build").get_path_to(&path("/other/x.js")), None);
    assert_eq!(path("/build").get_path_to(&path("/buildx/a.js")), None);
    assert_eq!(path("/build").get_path_to(&path("/buil")), None);
    assert_eq!(path("/build").get_path_to(&path("")), None);
    assert_eq!(path("/build/static").get_path_to(&path("/build/a.js")), None);
    assert_eq!(path("/build/").get_path_to(&path("/build/a.js")), None);
}

#[test]
fn get_path_to_the_path_itself() {
    assert_eq!(path("/build").get_path_to(&path("/build")), None);
    assert_eq!(path("").get_path_to(&path("")), Some(""));
}

#[test]
fn get_path_to_from_the_root() {
    assert_eq!(path("").get_path_to(&path("static/a.js")), Some("static/a.js"));
    assert_eq!(path("").get_path_to(&path("/static/a.js")), Some("/static/a.js"));
}

#[test]
fn get_path_to_counts_characters() {
    assert_eq!(path("/bü").get_path_to(&path("/bü/ä/ö.js")), Some("ä/ö.js"));
    assert_eq!(path("/bü").get_path_to(&path("/bu/a.js")), None);
    assert_eq!(path("/b").get_path_to(&path("/bü/a.js")), None);
    assert_eq!(path("/日本").get_path_to(&path("/日本/語.js")), Some("語.js"));
}

#[test]
fn is_root_of_the_empty_path() {
    assert!(path("").is_root());
    assert!(!path("/").is_root());
    assert!(!path("a").is_root());
}

#[test]
fn path_is_copied_whole() {
    let whole = path("/build/a.js");
    assert_eq!(whole.clone(), whole);
    assert_eq!(whole.path, "/build/a.js");
}

#[test]
fn with_modifier_adds_behind() {
    let plain = AssetIdent::from_path(path("a.js"));
    assert_eq!(plain, AssetIdent { path: path("a.js"), modifiers: vec![] });
    let once = plain.with_modifier("x".to_string());
    assert_eq!(once, AssetIdent { path: path("a.js"), modifiers: vec!["x".to_string()] });
    let twice = once.with_modifier("y".to_string());
    assert_eq!(twice.modifiers, vec!["x".to_string(), "y".to_string()]);
    assert_eq!(plain.modifiers, Vec::<String>::new());
    assert_ne!(once, plain);
    assert_eq!(twice.clone(), twice);
}

#[test]
fn try_join_of_successes_is_all_their_values() {
    let results: Vec<Result<u32, String>> = vec![Ok(3), Ok(1), Ok(2)];
    assert_eq!(try_join(results), Ok(vec![3, 1, 2]));
    let none: Vec<Result<u32, String>> = vec![];
    assert_eq!(try_join(none), Ok(vec![]));
}

#[test]
fn try_join_fails_with_the_first_error() {
    let results: Vec<Result<u32, String>> =
        vec![Ok(3), Err("first".to_string()), Ok(2), Err("second".to_string())];
    assert_eq!(try_join(results), Err("first".to_string()));
    let results: Vec<Result<u32, String>> = vec![Err("only".to_string())];
    assert_eq!(try_join(results), Err("only".to_string()));
    let results: Vec<Result<u32, String>> = vec![Ok(1), Ok(2), Err("last".to_string())];
    assert_eq!(try_join(results), Err("last".to_string()));
}
