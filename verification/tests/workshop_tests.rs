use bsp_vis::workshop::{count_char, download, find_char, map_path, str_contains, DownloadError,
    DownloadPlan};

#[test]
fn map_path_builds_the_maps_folder_path() {
    assert_eq!(map_path("de_dust2"), "./maps/de_dust2.bsp");
    assert_eq!(map_path(""), "./maps/.bsp");
}

#[test]
fn string_search_helpers() {
    assert!(str_contains("maps/workshop/123/x.bsp", "workshop/"));
    assert!(str_contains("workshop/", "workshop/"));
    assert!(!str_contains("workshop", "workshop/"));
    assert!(!str_contains("", "workshop/"));
    assert!(str_contains("abc", ""));
    assert_eq!(count_char("a/b/c", '/'), 2);
    assert_eq!(count_char("abc", '/'), 0);
    assert_eq!(count_char("///", '/'), 3);
    assert_eq!(find_char("a/b/c", '/', 0), 1);
    assert_eq!(find_char("a/b/c", '/', 2), 3);
    assert_eq!(find_char("abc", '/', 0), 3);
}

#[test]
fn download_rejects_empty_name() {
    assert_eq!(download("", "").unwrap_err(), DownloadError::InvalidMapName);
    assert_eq!(download("", "http://fastdl.example").unwrap_err(), DownloadError::InvalidMapName);
}

#[test]
fn download_resolves_workshop_names() {
    match download("workshop/1706490417/de_thing.bsp", "").unwrap() {
        DownloadPlan::Workshop { id, use_full_path } => {
            assert_eq!(id, "1706490417");
            assert!(use_full_path);
        },
        _ => panic!("expected a workshop plan"),
    }
}

#[test]
fn download_rejects_unsplittable_workshop_names() {
    // One slash only: two parts.
    assert_eq!(download("workshop/123", "").unwrap_err(), DownloadError::UnparsableMapName);
    // Three slashes: four parts.
    assert_eq!(
        download("maps/workshop/123/x.bsp", "").unwrap_err(),
        DownloadError::UnparsableMapName
    );
}

#[test]
fn download_falls_back_to_fastdl() {
    match download("de_dust2", "http://fastdl.example/csgo").unwrap() {
        DownloadPlan::FastDl => {},
        _ => panic!("expected a fastdl plan"),
    }
    assert_eq!(download("de_dust2", "").unwrap_err(), DownloadError::NoBackupSource);
}
