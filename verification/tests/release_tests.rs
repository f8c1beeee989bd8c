use xml_conformance::release::{releases, Category, ManifestShape, Release};

#[test]
fn catalogue_lists_four_releases_oldest_first() {
    let dates: Vec<&str> = releases().iter().map(|release| release.release_date).collect();
    assert_eq!(dates, vec!["2003-12-10", "2008-02-05", "2008-08-27", "2013-09-23"]);
}

#[test]
fn catalogue_names_archives() {
    let known = releases();
    assert_eq!(known[0].download_zip_url, "https://www.w3.org/XML/Test/xmlts20031210.zip");
    assert_eq!(known[0].filename, "xmlts20031210.zip");
    assert_eq!(known[1].download_zip_url, "https://www.w3.org/XML/Test/xmlts20080205.zip");
    assert_eq!(known[1].filename, "xmlts20080205.zip");
    assert_eq!(known[2].download_zip_url, "https://www.w3.org/XML/Test/xmlts20080827.zip");
    assert_eq!(known[2].filename, "xmlts20080827.zip");
    assert_eq!(known[3].download_zip_url, "https://www.w3.org/XML/Test/xmlts20130923.zip");
    assert_eq!(known[3].filename, "xmlts20130923.zip");
}

#[test]
fn first_release_lists_its_manifests_in_running_order() {
    let entries = releases()[0].entry_points();
    let listed: Vec<(Category, &str)> =
        entries.iter().map(|entry| (entry.category, entry.path)).collect();
    assert_eq!(
        listed,
        vec![
            (Category::SunValid, "sun/sun-valid.xml"),
            (Category::SunInvalid, "sun/sun-invalid.xml"),
            (Category::SunNotWellFormed, "sun/sun-not-wf.xml"),
            (Category::SunError, "sun/sun-error.xml"),
            (Category::IbmValid, "ibm/ibm_oasis_valid.xml"),
        ]
    );
}

#[test]
fn later_releases_list_no_manifest() {
    let known = releases();
    for release in &known[1..] {
        assert!(release.entry_points().is_empty());
    }
}

#[test]
fn absent_manifests_are_left_out() {
    let release = Release {
        release_date: "x",
        download_zip_url: "u",
        filename: "f.zip",
        sun_valid_tests_conf: None,
        sun_invalid_tests_conf: Some("inv.xml"),
        sun_non_wf_tests_conf: None,
        sun_error_tests_conf: None,
        ibm_valid_tests_conf: Some("ibm.xml"),
    };
    let listed: Vec<(Category, &str)> =
        release.entry_points().iter().map(|entry| (entry.category, entry.path)).collect();
    assert_eq!(listed, vec![(Category::SunInvalid, "inv.xml"), (Category::IbmValid, "ibm.xml")]);
}

#[test]
fn release_is_named_by_its_date() {
    assert_eq!(releases()[3].label(), "2013-09-23");
}

#[test]
fn only_the_ibm_manifest_is_nested() {
    assert_eq!(Category::SunValid.shape(), ManifestShape::Flat);
    assert_eq!(Category::SunInvalid.shape(), ManifestShape::Flat);
    assert_eq!(Category::SunNotWellFormed.shape(), ManifestShape::Flat);
    assert_eq!(Category::SunError.shape(), ManifestShape::Flat);
    assert_eq!(Category::IbmValid.shape(), ManifestShape::Nested);
}

#[test]
fn manifest_path_lies_below_the_release_root() {
    let entries = releases()[0].entry_points();
    assert_eq!(
        entries[0].manifest_path("work/xmlts20031210/xmlconf"),
        "work/xmlts20031210/xmlconf/sun/sun-valid.xml"
    );
    assert_eq!(entries[4].manifest_path("root/"), "root/ibm/ibm_oasis_valid.xml");
}
