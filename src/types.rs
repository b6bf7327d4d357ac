//! Domain values that callers cache: packages, operations, generations.

use vstd::prelude::*;
use std::time::SystemTime;
use crate::numfmt::{decimal, fixed_text, push_decimal, push_fixed};
use crate::text::{cat2, cat4};
use vstd::string::StringExecFns;

verus! {

/// Where a package comes from.
#[derive(Debug, Clone, PartialEq, Eq, Default)]
pub enum PackageSource {
    #[default]
    Nixpkgs,
    Nur { repo: String },
    Flake { url: String },
    Unknown,
}

/// A package with its metadata.
#[derive(Debug, Clone)]
pub struct Package {
    pub name: String,
    pub version: String,
    pub description: String,
    pub source: PackageSource,
    pub attr_path: Option<String>,
    pub homepage: Option<String>,
    pub license: Option<String>,
    pub maintainers: Vec<String>,
    pub platforms: Vec<String>,
}

/// A package with the given name, version and description, from nixpkgs,
/// with no further metadata.
pub open spec fn minimal_package(p: Package, name: Seq<char>, version: Seq<char>, description: Seq<char>) -> bool {
    &&& p.name@ == name
    &&& p.version@ == version
    &&& p.description@ == description
    &&& p.attr_path is None
    &&& p.homepage is None
    &&& p.license is None
    &&& p.maintainers@.len() == 0
    &&& p.platforms@.len() == 0
}

pub open spec fn install_command_text(p: Package) -> Seq<char> {
    match p.source {
        PackageSource::Nixpkgs => "nix profile install nixpkgs#"@ + p.name@,
        PackageSource::Nur { repo } => "nix profile install github:nix-community/NUR#repos."@ + repo@ + "."@ + p.name@,
        PackageSource::Flake { url } => "nix profile install "@ + url@ + "#"@ + p.name@,
        PackageSource::Unknown => "nix profile install "@ + p.name@,
    }
}

pub open spec fn display_name_text(p: Package) -> Seq<char> {
    match p.source {
        PackageSource::Nixpkgs => "nixpkgs/"@ + p.name@,
        PackageSource::Nur { repo } => "nur/"@ + repo@ + "/"@ + p.name@,
        PackageSource::Flake { url } => url@ + "#"@ + p.name@,
        PackageSource::Unknown => p.name@,
    }
}

impl Package {
    /// A nixpkgs package with minimal metadata.
    pub fn new(name: &str, version: &str, description: &str) -> (r: Package)
        ensures
            minimal_package(r, name@, version@, description@),
            r.source == PackageSource::Nixpkgs,
    {
        Package {
            name: name.to_string(),
            version: version.to_string(),
            description: description.to_string(),
            source: PackageSource::Nixpkgs,
            attr_path: None,
            homepage: None,
            license: None,
            maintainers: Vec::new(),
            platforms: Vec::new(),
        }
    }

    /// A package from nixpkgs.
    pub fn from_nixpkgs(name: &str, version: &str, description: &str) -> (r: Package)
        ensures
            minimal_package(r, name@, version@, description@),
            r.source == PackageSource::Nixpkgs,
    {
        Self::new(name, version, description)
    }

    /// A package from a NUR repository.
    pub fn from_nur(name: &str, version: &str, description: &str, repo: &str) -> (r: Package)
        ensures
            minimal_package(r, name@, version@, description@),
            r.source matches PackageSource::Nur { repo: rp } && rp@ == repo@,
    {
        let mut pkg = Self::new(name, version, description);
        pkg.source = PackageSource::Nur { repo: repo.to_string() };
        pkg
    }

    /// The command that installs this package.
    pub fn install_command(&self) -> (r: String)
        ensures
            r@ == install_command_text(*self),
    {
        match &self.source {
            PackageSource::Nixpkgs => cat2("nix profile install nixpkgs#", self.name.as_str()),
            PackageSource::Nur { repo } => cat4("nix profile install github:nix-community/NUR#repos.", repo.as_str(), ".", self.name.as_str()),
            PackageSource::Flake { url } => cat4("nix profile install ", url.as_str(), "#", self.name.as_str()),
            PackageSource::Unknown => cat2("nix profile install ", self.name.as_str()),
        }
    }

    /// The name with its source in front.
    pub fn display_name(&self) -> (r: String)
        ensures
            r@ == display_name_text(*self),
    {
        match &self.source {
            PackageSource::Nixpkgs => cat2("nixpkgs/", self.name.as_str()),
            PackageSource::Nur { repo } => cat4("nur/", repo.as_str(), "/", self.name.as_str()),
            PackageSource::Flake { url } => {
                let mut s = url.clone();
                s.append("#");
                s.append(self.name.as_str());
                s
            }
            PackageSource::Unknown => self.name.clone(),
        }
    }
}

/// A package known to be installed.
#[derive(Debug, Clone)]
pub struct InstalledPackage {
    pub package: Package,
    pub installed_at: SystemTime,
    pub store_path: Option<String>,
    pub profile_index: Option<u64>,
}

/// How a search result matched its query.
#[derive(Debug, Clone, Copy, PartialEq, Eq)]
pub enum MatchType {
    ExactName,
    NamePrefix,
    NameContains,
    DescriptionContains,
    Fuzzy,
}

/// Progress of an operation.
#[derive(Debug, Clone, Copy, PartialEq, Eq)]
pub enum OperationStatus {
    Pending,
    Running,
    Success,
    Failed,
    Skipped,
    Cancelled,
}

/// Kind of operation.
#[derive(Debug, Clone, Copy, PartialEq, Eq)]
pub enum OperationType {
    Install,
    Remove,
    Update,
    Search,
    GarbageCollect,
    Rollback,
}

/// Outcome of a package operation.
#[derive(Debug, Clone)]
pub struct OperationResult {
    pub operation: OperationType,
    pub packages: Vec<String>,
    pub status: OperationStatus,
    pub duration_ms: u64,
    pub error: Option<String>,
    pub message: Option<String>,
}

impl OperationResult {
    /// A successful operation that took `duration_ms`.
    pub fn success(operation: OperationType, packages: Vec<String>, duration_ms: u64) -> (r: OperationResult)
        ensures
            r.operation == operation,
            r.packages == packages,
            r.status == OperationStatus::Success,
            r.duration_ms == duration_ms,
            r.error is None,
            r.message is None,
    {
        OperationResult {
            operation,
            packages,
            status: OperationStatus::Success,
            duration_ms,
            error: None,
            message: None,
        }
    }

    /// A failed operation with its error text.
    pub fn failure(operation: OperationType, packages: Vec<String>, error: &str) -> (r: OperationResult)
        ensures
            r.operation == operation,
            r.packages == packages,
            r.status == OperationStatus::Failed,
            r.duration_ms == 0,
            r.error matches Some(e) && e@ == error@,
            r.message is None,
    {
        OperationResult {
            operation,
            packages,
            status: OperationStatus::Failed,
            duration_ms: 0,
            error: Some(error.to_string()),
            message: None,
        }
    }
}

/// A generation of the system profile.
#[derive(Debug, Clone)]
pub struct Generation {
    pub number: u64,
    pub created_at: SystemTime,
    pub is_current: bool,
    pub path: String,
}

/// What a garbage collection would delete.
#[derive(Debug, Clone, Default)]
pub struct GCPreview {
    pub paths: Vec<String>,
    pub size_bytes: u64,
    pub affected_generations: Vec<u64>,
}

/// A byte count as text in B, KB, MB (one digit after the point) or GB (two).
pub open spec fn preview_size_text(bytes: nat) -> Seq<char> {
    if bytes < 1024 {
        decimal(bytes) + " B"@
    } else if bytes < 1048576 {
        fixed_text(bytes, 1024, 1) + " KB"@
    } else if bytes < 1073741824 {
        fixed_text(bytes, 1048576, 1) + " MB"@
    } else {
        fixed_text(bytes, 1073741824, 2) + " GB"@
    }
}

impl GCPreview {
    /// The size that would be freed, as text (see `preview_size_text`).
    pub fn size_human(&self) -> (r: String)
        ensures
            r@ == preview_size_text(self.size_bytes as nat),
    {
        let bytes = self.size_bytes;
        let mut s = String::new();
        if bytes < 1024 {
            push_decimal(&mut s, bytes);
            s.append(" B");
        } else if bytes < 1048576 {
            push_fixed(&mut s, bytes, 1024, 1);
            s.append(" KB");
        } else if bytes < 1073741824 {
            push_fixed(&mut s, bytes, 1048576, 1);
            s.append(" MB");
        } else {
            push_fixed(&mut s, bytes, 1073741824, 2);
            s.append(" GB");
        }
        assert(s@ =~= preview_size_text(bytes as nat));
        s
    }
}

/// A package as listed in the NUR index.
#[derive(Debug, Clone)]
pub struct NurPackage {
    pub attr_path: String,
    pub name: String,
    pub version: String,
    pub description: String,
    pub repo: String,
    pub homepage: Option<String>,
    pub license: Option<String>,
}

impl NurPackage {
    /// The package this index entry describes, sourced from its repository.
    pub fn to_package(self) -> (r: Package)
        ensures
            r.name == self.name,
            r.version == self.version,
            r.description == self.description,
            r.source == (PackageSource::Nur { repo: self.repo }),
            r.attr_path == Some(self.attr_path),
            r.homepage == self.homepage,
            r.license == self.license,
            r.maintainers@.len() == 0,
            r.platforms@.len() == 0,
    {
        Package {
            name: self.name,
            version: self.version,
            description: self.description,
            source: PackageSource::Nur { repo: self.repo },
            attr_path: Some(self.attr_path),
            homepage: self.homepage,
            license: self.license,
            maintainers: Vec::new(),
            platforms: Vec::new(),
        }
    }
}

impl From<NurPackage> for Package {
    /// See `NurPackage::to_package`.
    fn from(nur: NurPackage) -> (r: Package) {
        nur.to_package()
    }
}

impl vstd::std_specs::convert::FromSpecImpl<NurPackage> for Package {
    /// The conversion is stated on `NurPackage::to_package`, since a package
    /// holds vectors that a specification cannot build.
    open spec fn obeys_from_spec() -> bool {
        false
    }

    open spec fn from_spec(nur: NurPackage) -> Package {
        arbitrary()
    }
}

} // verus!
