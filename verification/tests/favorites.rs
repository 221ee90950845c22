use tegra_rcm::favorites::{is_payload_file, Favorite, Favorites};

fn names(favorites: &Favorites) -> Vec<String> {
    favorites.iter().iter().map(|favorite| favorite.name().to_string()).collect()
}

fn files(list: &[&str]) -> Vec<String> {
    list.iter().map(|name| name.to_string()).collect()
}

#[test]
fn favorite_name_is_trimmed() {
    assert_eq!(Favorite::new("hekate.bin").name(), "hekate.bin");
    assert_eq!(Favorite::new("  hekate.bin\n").name(), "hekate.bin");
    assert_eq!(Favorite::new("\t a b.bin \u{a0}\u{3000}").name(), "a b.bin");
    assert_eq!(Favorite::new("   ").name(), "");
    assert_eq!(Favorite::new("").name(), "");
}

#[test]
fn payload_file_names() {
    assert!(is_payload_file("hekate.bin"));
    assert!(is_payload_file("a.bin"));
    assert!(is_payload_file("a.b.bin"));
    assert!(is_payload_file("..bin"));
    assert!(is_payload_file("fusée.bin"));
    assert!(!is_payload_file(".bin"));
    assert!(!is_payload_file("bin"));
    assert!(!is_payload_file(""));
    assert!(!is_payload_file("hekate.bin "));
    assert!(!is_payload_file("hekate.BIN"));
    assert!(!is_payload_file("hekate.bin.txt"));
    assert!(!is_payload_file("hekatebin"));
}

#[test]
fn payload_file_names_agree_with_the_extension() {
    for name in ["hekate.bin", "a.bin", ".bin", "..bin", "bin", "x.bin.txt", "x.BIN", "a.b.bin"] {
        let extension = std::path::Path::new(name).extension().and_then(|found| found.to_str());
        assert_eq!(is_payload_file(name), extension == Some("bin"), "{name}");
    }
}

#[test]
fn favorites_of_a_directory() {
    let favorites = Favorites::new(&files(&[
        "zeta.bin",
        "notes.txt",
        "alpha.bin",
        ".bin",
        "Beta.bin",
        "alpha.bin",
        "mid.bin",
    ]));
    assert_eq!(names(&favorites), ["Beta.bin", "alpha.bin", "mid.bin", "zeta.bin"]);
    assert_eq!(favorites.len(), 4);
}

#[test]
fn favorites_of_an_empty_directory() {
    let favorites = Favorites::new(&[]);
    assert_eq!(favorites.len(), 0);
    assert!(favorites.iter().is_empty());
    assert!(favorites.get("a.bin").is_none());
}

#[test]
fn favorites_are_in_the_order_of_strings() {
    let list = files(&["b.bin", "a.bin", "ab.bin", "a.bin.bin", "B.bin", "é.bin", "z.bin", "10.bin", "9.bin"]);
    let favorites = Favorites::new(&list);
    let mut expected = list.clone();
    expected.sort();
    expected.dedup();
    assert_eq!(names(&favorites), expected);
}

#[test]
fn get_finds_by_trimmed_name() {
    let favorites = Favorites::new(&files(&["hekate.bin", "atmosphere.bin"]));
    assert_eq!(favorites.get("hekate.bin").unwrap().name(), "hekate.bin");
    assert_eq!(favorites.get("  hekate.bin ").unwrap().name(), "hekate.bin");
    assert_eq!(favorites.get("atmosphere.bin\n").unwrap().name(), "atmosphere.bin");
    assert!(favorites.get("hekate").is_none());
    assert!(favorites.get("Hekate.bin").is_none());
    assert!(favorites.get("").is_none());
    assert!(favorites.contains(" hekate.bin"));
    assert!(!favorites.contains("lockpick.bin"));
}

#[test]
fn add_keeps_order_and_names_once() {
    let mut favorites = Favorites::new(&[]);
    assert_eq!(favorites.add("m.bin").name(), "m.bin");
    assert_eq!(favorites.add("a.bin").name(), "a.bin");
    assert_eq!(favorites.add("z.bin").name(), "z.bin");
    assert_eq!(favorites.add(" m.bin ").name(), "m.bin");
    assert_eq!(favorites.add("n.bin").name(), "n.bin");
    assert_eq!(names(&favorites), ["a.bin", "m.bin", "n.bin", "z.bin"]);
}

#[test]
fn remove_takes_one_favorite() {
    let mut favorites = Favorites::new(&files(&["a.bin", "b.bin", "c.bin"]));
    favorites.remove(&Favorite::new("b.bin"));
    assert_eq!(names(&favorites), ["a.bin", "c.bin"]);
    favorites.remove(&Favorite::new("b.bin"));
    assert_eq!(names(&favorites), ["a.bin", "c.bin"]);
    favorites.remove(&Favorite::new("a.bin"));
    favorites.remove(&Favorite::new("c.bin"));
    assert_eq!(favorites.len(), 0);
}

#[test]
fn remove_str_trims_and_reports() {
    let mut favorites = Favorites::new(&files(&["a.bin", "b.bin"]));
    assert_eq!(favorites.remove_str(" a.bin "), Ok(()));
    assert_eq!(names(&favorites), ["b.bin"]);
    assert_eq!(
        favorites.remove_str(" a.bin "),
        Err("Failed to remove, favorite not found:  a.bin ".to_string())
    );
    assert_eq!(names(&favorites), ["b.bin"]);
}

#[test]
fn copies_of_favorites_are_equal() {
    let favorites = Favorites::new(&files(&["a.bin", "b.bin"]));
    let copy = favorites.clone();
    assert_eq!(copy, favorites);
    let favorite = Favorite::new("x.bin");
    assert_eq!(favorite.clone(), favorite);
    assert!(Favorite::new("a.bin") < Favorite::new("b.bin"));
}
