use crate::error::ReleaseError;
use crate::manifest::{
    document_strings, get_version, has_table_root, package_name, package_name_of, set_version,
    version_key, version_of, version_text_of,
};
use crate::version::{semver_parse, Version, VersionView};
use vstd::prelude::*;

verus! {

/// A release that has been decided on: the package and the version it gets.
#[derive(Debug)]
pub struct Release {
    pub name: String,
    pub version: Version,
}

/// What planning a release makes of a manifest.
///
/// The package name is looked up first, then the version. A manifest whose version is
/// final is refused. Every refusal leaves the manifest as it was; a plan leaves it with
/// the version replaced by the next minor release and nothing else touched, so that
/// the manifest then reads as the planned version.
pub open spec fn plans(
    before: toml_edit::Document,
    after: toml_edit::Document,
    r: Result<Release, ReleaseError>,
) -> bool {
    match package_name_of(before) {
        None => after == before && r matches Err(ReleaseError::PackageNameMissing),
        Some(name) => match version_text_of(before) {
            None => after == before && r matches Err(ReleaseError::VersionMissing),
            Some(text) => match semver_parse(text) {
                None => after == before && r matches Err(ReleaseError::Version { .. }),
                Some(current) => if !current.is_prerelease() {
                    &&& after == before
                    &&& r matches Err(ReleaseError::FinalVersion { version })
                    &&& version@ == current.text()
                } else if current.minor >= u64::MAX {
                    &&& after == before
                    &&& r matches Err(ReleaseError::MinorOverflow { version })
                    &&& version@ == current.text()
                } else {
                    &&& r matches Ok(release)
                    &&& release.name@ == name
                    &&& release.version@ == current.next_minor()
                    &&& release.version.wf()
                    &&& document_strings(after) == document_strings(before).insert(
                        version_key(),
                        current.next_minor().text(),
                    )
                    &&& version_of(after) == Some(current.next_minor())
                    &&& has_table_root(before) ==> has_table_root(after)
                },
            },
        },
    }
}

/// Decides on the release that a manifest calls for, and writes its version into the
/// manifest.
pub fn plan_release(doc: &mut toml_edit::Document) -> (r: Result<Release, ReleaseError>)
    ensures
        plans(*old(doc), *final(doc), r),
{
    let name = match package_name(doc) {
        Ok(name) => name,
        Err(error) => {
            return Err(error);
        },
    };
    let mut version = match get_version(doc) {
        Ok(version) => version,
        Err(error) => {
            return Err(error);
        },
    };
    if !version.is_prerelease() {
        return Err(ReleaseError::FinalVersion { version: version.to_text() });
    }
    if version.minor == u64::MAX {
        return Err(ReleaseError::MinorOverflow { version: version.to_text() });
    }
    version.increment_minor();
    set_version(doc, &version);
    Ok(Release { name, version })
}

} // verus!
