//! The catalogue of known test-suite releases and the manifests that each
//! of them is run with.

use vstd::prelude::*;
use vstd::string::*;

use crate::paths::{join_path, joined};

verus! {

/// How a manifest file is laid out.
#[derive(Clone, Copy, Debug, PartialEq, Eq, Structural)]
pub enum ManifestShape {
    /// The file lists its tests directly, without a root group.
    Flat,
    /// The file holds one root group with further groups nested in it.
    Nested,
}

/// The manifests that a release may name.
#[derive(Clone, Copy, Debug, PartialEq, Eq, Structural)]
pub enum Category {
    SunValid,
    SunInvalid,
    SunNotWellFormed,
    SunError,
    IbmValid,
}

impl Category {
    /// The layout of the manifests of this category.
    pub open spec fn shape_of(self) -> ManifestShape {
        match self {
            Category::IbmValid => ManifestShape::Nested,
            _ => ManifestShape::Flat,
        }
    }

    /// The layout of the manifests of this category.
    pub fn shape(self) -> (shape: ManifestShape)
        ensures
            shape == self.shape_of(),
    {
        match self {
            Category::SunValid => ManifestShape::Flat,
            Category::SunInvalid => ManifestShape::Flat,
            Category::SunNotWellFormed => ManifestShape::Flat,
            Category::SunError => ManifestShape::Flat,
            Category::IbmValid => ManifestShape::Nested,
        }
    }
}

/// One release of the test suite.
#[derive(Clone, Copy, Debug)]
pub struct Release {
    /// The date that names the release.
    pub release_date: &'static str,
    /// Where the archive of the release is found.
    pub download_zip_url: &'static str,
    /// The file name under which the archive is kept.
    pub filename: &'static str,
    pub sun_valid_tests_conf: Option<&'static str>,
    pub sun_invalid_tests_conf: Option<&'static str>,
    pub sun_non_wf_tests_conf: Option<&'static str>,
    pub sun_error_tests_conf: Option<&'static str>,
    pub ibm_valid_tests_conf: Option<&'static str>,
}

/// A release as plain values.
pub struct ReleaseView {
    pub release_date: Seq<char>,
    pub download_zip_url: Seq<char>,
    pub filename: Seq<char>,
    pub sun_valid_tests_conf: Option<Seq<char>>,
    pub sun_invalid_tests_conf: Option<Seq<char>>,
    pub sun_non_wf_tests_conf: Option<Seq<char>>,
    pub sun_error_tests_conf: Option<Seq<char>>,
    pub ibm_valid_tests_conf: Option<Seq<char>>,
}

/// The characters of an optional string slice.
pub open spec fn optional_text(value: Option<&'static str>) -> Option<Seq<char>> {
    match value {
        Some(text) => Some(text@),
        None => None,
    }
}

impl View for Release {
    type V = ReleaseView;

    open spec fn view(&self) -> ReleaseView {
        ReleaseView {
            release_date: self.release_date@,
            download_zip_url: self.download_zip_url@,
            filename: self.filename@,
            sun_valid_tests_conf: optional_text(self.sun_valid_tests_conf),
            sun_invalid_tests_conf: optional_text(self.sun_invalid_tests_conf),
            sun_non_wf_tests_conf: optional_text(self.sun_non_wf_tests_conf),
            sun_error_tests_conf: optional_text(self.sun_error_tests_conf),
            ibm_valid_tests_conf: optional_text(self.ibm_valid_tests_conf),
        }
    }
}

/// A manifest that a release is run with.
#[derive(Clone, Copy, Debug)]
pub struct EntryPoint {
    /// Which manifest of the release this is.
    pub category: Category,
    /// The manifest file, relative to the root of the unpacked release.
    pub path: &'static str,
}

/// An entry point as plain values.
pub struct EntryPointView {
    pub category: Category,
    pub path: Seq<char>,
}

impl View for EntryPoint {
    type V = EntryPointView;

    open spec fn view(&self) -> EntryPointView {
        EntryPointView { category: self.category, path: self.path@ }
    }
}

/// The entry points of a list as plain values.
pub open spec fn entry_views(entries: Seq<EntryPoint>) -> Seq<EntryPointView> {
    Seq::new(entries.len(), |i: int| entries[i]@)
}

/// The releases of a list as plain values.
pub open spec fn release_views(releases: Seq<Release>) -> Seq<ReleaseView> {
    Seq::new(releases.len(), |i: int| releases[i]@)
}

/// The entry point of one category, where the release names it.
pub open spec fn entry_if(category: Category, path: Option<Seq<char>>) -> Seq<EntryPointView> {
    match path {
        Some(path) => seq![EntryPointView { category, path }],
        None => Seq::empty(),
    }
}

/// The manifests that a release is run with, in the order in which they
/// are run.
pub open spec fn entries_of(release: ReleaseView) -> Seq<EntryPointView> {
    entry_if(Category::SunValid, release.sun_valid_tests_conf) + entry_if(
        Category::SunInvalid,
        release.sun_invalid_tests_conf,
    ) + entry_if(Category::SunNotWellFormed, release.sun_non_wf_tests_conf) + entry_if(
        Category::SunError,
        release.sun_error_tests_conf,
    ) + entry_if(Category::IbmValid, release.ibm_valid_tests_conf)
}

/// A release of which no manifest is listed.
pub open spec fn unlisted(
    release_date: Seq<char>,
    download_zip_url: Seq<char>,
    filename: Seq<char>,
) -> ReleaseView {
    ReleaseView {
        release_date,
        download_zip_url,
        filename,
        sun_valid_tests_conf: None,
        sun_invalid_tests_conf: None,
        sun_non_wf_tests_conf: None,
        sun_error_tests_conf: None,
        ibm_valid_tests_conf: None,
    }
}

/// The known releases, oldest first.
pub open spec fn catalogue() -> Seq<ReleaseView> {
    seq![
        ReleaseView {
            release_date: "2003-12-10"@,
            download_zip_url: "https://www.w3.org/XML/Test/xmlts20031210.zip"@,
            filename: "xmlts20031210.zip"@,
            sun_valid_tests_conf: Some("sun/sun-valid.xml"@),
            sun_invalid_tests_conf: Some("sun/sun-invalid.xml"@),
            sun_non_wf_tests_conf: Some("sun/sun-not-wf.xml"@),
            sun_error_tests_conf: Some("sun/sun-error.xml"@),
            ibm_valid_tests_conf: Some("ibm/ibm_oasis_valid.xml"@),
        },
        unlisted(
            "2008-02-05"@,
            "https://www.w3.org/XML/Test/xmlts20080205.zip"@,
            "xmlts20080205.zip"@,
        ),
        unlisted(
            "2008-08-27"@,
            "https://www.w3.org/XML/Test/xmlts20080827.zip"@,
            "xmlts20080827.zip"@,
        ),
        unlisted(
            "2013-09-23"@,
            "https://www.w3.org/XML/Test/xmlts20130923.zip"@,
            "xmlts20130923.zip"@,
        ),
    ]
}

/// A release of which no manifest is listed.
fn unlisted_release(
    release_date: &'static str,
    download_zip_url: &'static str,
    filename: &'static str,
) -> (release: Release)
    ensures
        release@ == unlisted(release_date@, download_zip_url@, filename@),
{
    Release {
        release_date,
        download_zip_url,
        filename,
        sun_valid_tests_conf: None,
        sun_invalid_tests_conf: None,
        sun_non_wf_tests_conf: None,
        sun_error_tests_conf: None,
        ibm_valid_tests_conf: None,
    }
}

/// The known releases, oldest first.
pub fn releases() -> (known: Vec<Release>)
    ensures
        release_views(known@) == catalogue(),
{
    let mut known: Vec<Release> = Vec::new();
    known.push(
        Release {
            release_date: "2003-12-10",
            download_zip_url: "https://www.w3.org/XML/Test/xmlts20031210.zip",
            filename: "xmlts20031210.zip",
            sun_valid_tests_conf: Some("sun/sun-valid.xml"),
            sun_invalid_tests_conf: Some("sun/sun-invalid.xml"),
            sun_non_wf_tests_conf: Some("sun/sun-not-wf.xml"),
            sun_error_tests_conf: Some("sun/sun-error.xml"),
            ibm_valid_tests_conf: Some("ibm/ibm_oasis_valid.xml"),
        },
    );
    known.push(
        unlisted_release(
            "2008-02-05",
            "https://www.w3.org/XML/Test/xmlts20080205.zip",
            "xmlts20080205.zip",
        ),
    );
    known.push(
        unlisted_release(
            "2008-08-27",
            "https://www.w3.org/XML/Test/xmlts20080827.zip",
            "xmlts20080827.zip",
        ),
    );
    known.push(
        unlisted_release(
            "2013-09-23",
            "https://www.w3.org/XML/Test/xmlts20130923.zip",
            "xmlts20130923.zip",
        ),
    );
    assert(release_views(known@) =~= catalogue());
    known
}

impl Release {
    /// The text that names the release where one is to be chosen: its date.
    pub fn label(&self) -> (text: &'static str)
        ensures
            text@ == self@.release_date,
    {
        self.release_date
    }

    /// The manifests that the release is run with, in the order in which
    /// they are run.
    pub fn entry_points(&self) -> (entries: Vec<EntryPoint>)
        ensures
            entry_views(entries@) == entries_of(self@),
    {
        let mut entries: Vec<EntryPoint> = Vec::new();
        assert(entry_views(entries@) =~= Seq::empty());
        push_entry(&mut entries, Category::SunValid, self.sun_valid_tests_conf);
        push_entry(&mut entries, Category::SunInvalid, self.sun_invalid_tests_conf);
        push_entry(&mut entries, Category::SunNotWellFormed, self.sun_non_wf_tests_conf);
        push_entry(&mut entries, Category::SunError, self.sun_error_tests_conf);
        push_entry(&mut entries, Category::IbmValid, self.ibm_valid_tests_conf);
        assert(entry_views(entries@) =~= entries_of(self@));
        entries
    }
}

/// Appends the entry point of one category, where the release names it.
fn push_entry(entries: &mut Vec<EntryPoint>, category: Category, path: Option<&'static str>)
    ensures
        entry_views(final(entries)@) == entry_views(old(entries)@) + entry_if(
            category,
            optional_text(path),
        ),
{
    let ghost before = entry_views(entries@);
    match path {
        Some(path) => {
            let entry = EntryPoint { category, path };
            entries.push(entry);
            assert(entry_views(entries@) =~= before + seq![entry@]);
        },
        None => {
            assert(entry_views(entries@) =~= before + Seq::<EntryPointView>::empty());
        },
    }
}

impl EntryPoint {
    /// The manifest file below the root of the unpacked release.
    pub fn manifest_path(&self, release_root: &str) -> (path: String)
        ensures
            path@ == joined(release_root@, self@.path),
    {
        join_path(release_root, self.path)
    }
}

} // verus!
