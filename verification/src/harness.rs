//! One manifest at a time: from what was found where the manifest was
//! expected to its resolved test cases, or to the error that ends the work
//! on that manifest and on no other.

use vstd::prelude::*;
use vstd::string::*;

use crate::manifest::{
    build_flat, build_node, checked_flat, checked_node, manifest_error_text, ManifestError,
    ManifestErrorView, ManifestNode, NodeView, RawNode, RawTestCase,
};
use crate::resolver::{resolve, resolved, resolved_views, ResolvedCase, ResolvedView};

verus! {

/// What was found where a manifest was expected.
#[derive(Debug)]
pub enum ManifestSource {
    /// The records of a manifest that lists its tests directly.
    Flat(Vec<RawTestCase>),
    /// The root group of a manifest with nested groups.
    Nested(RawNode),
    /// Nothing usable: the file is absent or is not XML. The text says why.
    Unavailable(String),
}

/// A manifest as it was loaded.
#[derive(Debug)]
pub struct LoadedManifest {
    /// The manifest file.
    pub manifest_path: String,
    /// The directory that holds the manifest file.
    pub manifest_dir: String,
    /// What was found there.
    pub source: ManifestSource,
}

/// Why a manifest yields no test cases.
#[derive(Debug)]
pub enum EntryFault {
    /// The manifest could not be read or is not XML.
    Unavailable(String),
    /// The manifest breaks a rule of its format.
    Refused(ManifestError),
}

/// A fault as plain values.
pub enum EntryFaultView {
    Unavailable(Seq<char>),
    Refused(ManifestErrorView),
}

impl View for EntryFault {
    type V = EntryFaultView;

    open spec fn view(&self) -> EntryFaultView {
        match self {
            EntryFault::Unavailable(reason) => EntryFaultView::Unavailable(reason@),
            EntryFault::Refused(error) => EntryFaultView::Refused(error@),
        }
    }
}

/// The error that ends the work on one manifest; it names the manifest.
#[derive(Debug)]
pub struct EntryError {
    /// The manifest file that is at fault.
    pub manifest_path: String,
    /// What is wrong with it.
    pub fault: EntryFault,
}

/// An entry error as plain values.
pub struct EntryErrorView {
    pub manifest_path: Seq<char>,
    pub fault: EntryFaultView,
}

impl View for EntryError {
    type V = EntryErrorView;

    open spec fn view(&self) -> EntryErrorView {
        EntryErrorView { manifest_path: self.manifest_path@, fault: self.fault@ }
    }
}

/// What tells of a fault.
pub open spec fn fault_text(fault: EntryFaultView) -> Seq<char> {
    match fault {
        EntryFaultView::Unavailable(reason) => "could not be read: "@ + reason,
        EntryFaultView::Refused(error) => "refused: "@ + manifest_error_text(error),
    }
}

/// The lines that tell of a manifest that was given up: a rule, the
/// heading, the manifest file and what is wrong with it.
pub open spec fn entry_error_text(error: EntryErrorView) -> Seq<char> {
    "------------------\nMANIFEST GIVEN UP\nManifest: "@ + error.manifest_path + "\nReason: "@
        + fault_text(error.fault)
}

impl EntryFault {
    /// What tells of this fault.
    pub fn message(&self) -> (text: String)
        ensures
            text@ == fault_text(self@),
    {
        match self {
            EntryFault::Unavailable(reason) => {
                let mut text = String::from_str("could not be read: ");
                text.append(reason.as_str());
                text
            },
            EntryFault::Refused(error) => {
                let mut text = String::from_str("refused: ");
                let cause = error.message();
                text.append(cause.as_str());
                text
            },
        }
    }
}

impl EntryError {
    /// The lines that tell of the manifest that was given up.
    pub fn message(&self) -> (text: String)
        ensures
            text@ == entry_error_text(self@),
    {
        let mut text = String::from_str("------------------\nMANIFEST GIVEN UP\nManifest: ");
        text.append(self.manifest_path.as_str());
        text.append("\nReason: ");
        let fault = self.fault.message();
        text.append(fault.as_str());
        text
    }
}

/// The profile that a source stands for, or what is wrong with it.
pub open spec fn source_outcome(source: ManifestSource) -> Result<NodeView, EntryFaultView> {
    match source {
        ManifestSource::Flat(raws) => match checked_flat(raws@) {
            Ok(node) => Ok(node),
            Err(error) => Err(EntryFaultView::Refused(error)),
        },
        ManifestSource::Nested(raw) => match checked_node(raw) {
            Ok(node) => Ok(node),
            Err(error) => Err(EntryFaultView::Refused(error)),
        },
        ManifestSource::Unavailable(reason) => Err(EntryFaultView::Unavailable(reason@)),
    }
}

/// The resolved test cases of a loaded manifest, its root read against the
/// manifest's directory, or the error that names the manifest.
pub open spec fn entry_outcome(loaded: LoadedManifest) -> Result<
    Seq<ResolvedView>,
    EntryErrorView,
> {
    match source_outcome(loaded.source) {
        Ok(node) => Ok(resolved(node, loaded.manifest_dir@)),
        Err(fault) => Err(EntryErrorView { manifest_path: loaded.manifest_path@, fault }),
    }
}

/// Resolved test cases, or an entry error, as plain values.
pub open spec fn resolution_view(resolution: Result<Vec<ResolvedCase>, EntryError>) -> Result<
    Seq<ResolvedView>,
    EntryErrorView,
> {
    match resolution {
        Ok(cases) => Ok(resolved_views(cases@)),
        Err(error) => Err(error@),
    }
}

/// Builds the profile that a source stands for.
pub fn build_source(source: &ManifestSource) -> (built: Result<ManifestNode, EntryFault>)
    ensures
        match built {
            Ok(node) => source_outcome(*source) == Ok::<NodeView, EntryFaultView>(node@),
            Err(fault) => source_outcome(*source) == Err::<NodeView, EntryFaultView>(fault@),
        },
{
    match source {
        ManifestSource::Flat(raws) => match build_flat(raws) {
            Ok(node) => Ok(node),
            Err(error) => Err(EntryFault::Refused(error)),
        },
        ManifestSource::Nested(raw) => match build_node(raw) {
            Ok(node) => Ok(node),
            Err(error) => Err(EntryFault::Refused(error)),
        },
        ManifestSource::Unavailable(reason) => Err(EntryFault::Unavailable(reason.clone())),
    }
}

/// Resolves one loaded manifest.
pub fn resolve_manifest(loaded: &LoadedManifest) -> (resolution: Result<
    Vec<ResolvedCase>,
    EntryError,
>)
    ensures
        resolution_view(resolution) == entry_outcome(*loaded),
{
    match build_source(&loaded.source) {
        Ok(node) => Ok(resolve(&node, loaded.manifest_dir.as_str())),
        Err(fault) => Err(EntryError { manifest_path: loaded.manifest_path.clone(), fault }),
    }
}

/// Resolves manifests one after the other, in order. Each gets its own
/// result: an error in one manifest ends the work on that one only.
pub fn resolve_manifests(manifests: &Vec<LoadedManifest>) -> (resolutions: Vec<
    Result<Vec<ResolvedCase>, EntryError>,
>)
    ensures
        resolutions@.len() == manifests@.len(),
        forall|i: int|
            0 <= i < manifests@.len() ==> resolution_view(#[trigger] resolutions@[i])
                == entry_outcome(manifests@[i]),
{
    let mut resolutions: Vec<Result<Vec<ResolvedCase>, EntryError>> = Vec::new();
    let mut done: usize = 0;
    while done < manifests.len()
        invariant
            done <= manifests.len(),
            resolutions@.len() == done,
            forall|i: int|
                0 <= i < done ==> resolution_view(#[trigger] resolutions@[i]) == entry_outcome(
                    manifests@[i],
                ),
        decreases manifests.len() - done,
    {
        let resolution = resolve_manifest(&manifests[done]);
        resolutions.push(resolution);
        done += 1;
    }
    resolutions
}

/// A manifest that could not be read yields its error and nothing else,
/// and the error names that manifest.
pub proof fn unavailable_manifest_is_an_error(loaded: LoadedManifest)
    requires
        loaded.source is Unavailable,
    ensures
        entry_outcome(loaded) == Err::<Seq<ResolvedView>, EntryErrorView>(
            EntryErrorView {
                manifest_path: loaded.manifest_path@,
                fault: EntryFaultView::Unavailable(loaded.source->Unavailable_0@),
            },
        ),
{
}

} // verus!
