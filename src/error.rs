//! Error kinds, their codes, messages and recovery hints.

use vstd::prelude::*;
use crate::numfmt::{decimal, push_decimal};
use crate::text::{around_number, cat2, cat4};

verus! {

/// Package operation errors.
#[derive(Debug, Clone, PartialEq, Eq)]
pub enum PackageError {
    NotFound { name: String },
    AlreadyInstalled { name: String },
    NotInstalled { name: String },
    InstallFailed { name: String, reason: String },
    RemoveFailed { name: String, reason: String },
    DependencyConflict(String),
    InvalidSpec(String),
    VersionMismatch(String),
    TransactionFailed(String),
}

/// Network errors.
#[derive(Debug, Clone, PartialEq, Eq)]
pub enum NetworkError {
    ConnectionFailed(String),
    Timeout { timeout_secs: u64 },
    HttpError { status: u16, message: String },
    DnsError(String),
    TlsError(String),
    DownloadFailed(String),
    AllMirrorsFailed,
    RateLimited { retry_after_secs: u64 },
}

/// Cache errors. `Expired` is informational and `Full` is reserved: no
/// operation returns either.
#[derive(Debug, Clone, PartialEq, Eq)]
pub enum CacheError {
    InitFailed(String),
    ReadError(String),
    WriteError(String),
    Corrupted(String),
    Expired { key: String },
    Full { max_size_mb: u64 },
    DatabaseError(String),
}

/// System and Nix errors.
#[derive(Debug, Clone, PartialEq, Eq)]
pub enum SystemError {
    NixCommandFailed { command: String, stderr: String },
    NixNotFound,
    PermissionDenied(String),
    StoreVerificationFailed(String),
    GenerationNotFound { generation: u64 },
    RollbackFailed(String),
    HealthCheckFailed(String),
    GarbageCollectionFailed(String),
    ArchDetectionFailed,
}

/// Search errors.
#[derive(Debug, Clone, PartialEq, Eq)]
pub enum SearchError {
    QueryTooShort { min_length: usize },
    QueryTooLong { max_length: usize },
    InvalidQuery(String),
    IndexNotAvailable,
    Timeout,
}

/// NUR errors.
#[derive(Debug, Clone, PartialEq, Eq)]
pub enum NurError {
    IndexNotAvailable,
    PackageNotFound { name: String },
    InvalidAttributePath { path: String },
    RepositoryNotFound { repo: String },
    IndexUpdateFailed(String),
}

/// Any error of the application, by kind.
#[derive(Debug, Clone, PartialEq, Eq)]
pub enum NixBoostError {
    Config(String),
    Package(PackageError),
    Network(NetworkError),
    Cache(CacheError),
    System(SystemError),
    Search(SearchError),
    Nur(NurError),
    Io(String),
    Serialization(String),
    Other(String),
}

pub open spec fn package_error_text(e: PackageError) -> Seq<char> {
    match e {
        PackageError::NotFound { name } => "Package not found: "@ + name@,
        PackageError::AlreadyInstalled { name } => "Package already installed: "@ + name@,
        PackageError::NotInstalled { name } => "Package not installed: "@ + name@,
        PackageError::InstallFailed { name, reason } => "Installation failed for "@ + name@ + ": "@ + reason@,
        PackageError::RemoveFailed { name, reason } => "Removal failed for "@ + name@ + ": "@ + reason@,
        PackageError::DependencyConflict(m) => "Dependency conflict: "@ + m@,
        PackageError::InvalidSpec(m) => "Invalid package specification: "@ + m@,
        PackageError::VersionMismatch(m) => "Version constraint not satisfied: "@ + m@,
        PackageError::TransactionFailed(m) => "Transaction failed: "@ + m@,
    }
}

pub open spec fn network_error_text(e: NetworkError) -> Seq<char> {
    match e {
        NetworkError::ConnectionFailed(m) => "Connection failed: "@ + m@,
        NetworkError::Timeout { timeout_secs } => "Request timeout after "@ + decimal(timeout_secs as nat) + "s"@,
        NetworkError::HttpError { status, message } => "HTTP error "@ + decimal(status as nat) + ": "@ + message@,
        NetworkError::DnsError(m) => "DNS resolution failed: "@ + m@,
        NetworkError::TlsError(m) => "SSL/TLS error: "@ + m@,
        NetworkError::DownloadFailed(m) => "Download failed: "@ + m@,
        NetworkError::AllMirrorsFailed => "All mirrors failed"@,
        NetworkError::RateLimited { retry_after_secs } => "Rate limited, retry after "@ + decimal(retry_after_secs as nat) + "s"@,
    }
}

pub open spec fn cache_error_text(e: CacheError) -> Seq<char> {
    match e {
        CacheError::InitFailed(m) => "Cache initialization failed: "@ + m@,
        CacheError::ReadError(m) => "Cache read error: "@ + m@,
        CacheError::WriteError(m) => "Cache write error: "@ + m@,
        CacheError::Corrupted(m) => "Cache corrupted: "@ + m@,
        CacheError::Expired { key } => "Cache entry expired: "@ + key@,
        CacheError::Full { max_size_mb } => "Cache full, max size: "@ + decimal(max_size_mb as nat) + "MB"@,
        CacheError::DatabaseError(m) => "Database error: "@ + m@,
    }
}

pub open spec fn system_error_text(e: SystemError) -> Seq<char> {
    match e {
        SystemError::NixCommandFailed { command, stderr } => "Nix command failed: "@ + command@,
        SystemError::NixNotFound => "Nix not found in PATH"@,
        SystemError::PermissionDenied(m) => "Insufficient permissions: "@ + m@,
        SystemError::StoreVerificationFailed(m) => "Nix store verification failed: "@ + m@,
        SystemError::GenerationNotFound { generation } => "Generation not found: "@ + decimal(generation as nat),
        SystemError::RollbackFailed(m) => "Rollback failed: "@ + m@,
        SystemError::HealthCheckFailed(m) => "Health check failed: "@ + m@,
        SystemError::GarbageCollectionFailed(m) => "Garbage collection failed: "@ + m@,
        SystemError::ArchDetectionFailed => "Architecture detection failed"@,
    }
}

pub open spec fn search_error_text(e: SearchError) -> Seq<char> {
    match e {
        SearchError::QueryTooShort { min_length } => "Search query too short (min "@ + decimal(min_length as nat) + " chars)"@,
        SearchError::QueryTooLong { max_length } => "Search query too long (max "@ + decimal(max_length as nat) + " chars)"@,
        SearchError::InvalidQuery(m) => "Invalid search query: "@ + m@,
        SearchError::IndexNotAvailable => "Search index not available"@,
        SearchError::Timeout => "Search timeout"@,
    }
}

pub open spec fn nur_error_text(e: NurError) -> Seq<char> {
    match e {
        NurError::IndexNotAvailable => "NUR index not available"@,
        NurError::PackageNotFound { name } => "NUR package not found: "@ + name@,
        NurError::InvalidAttributePath { path } => "Invalid NUR attribute path: "@ + path@,
        NurError::RepositoryNotFound { repo } => "NUR repository not found: "@ + repo@,
        NurError::IndexUpdateFailed(m) => "NUR index update failed: "@ + m@,
    }
}

pub open spec fn error_text(e: NixBoostError) -> Seq<char> {
    match e {
        NixBoostError::Config(m) => "Configuration error: "@ + m@,
        NixBoostError::Package(p) => "Package error: "@ + package_error_text(p),
        NixBoostError::Network(n) => "Network error: "@ + network_error_text(n),
        NixBoostError::Cache(c) => "Cache error: "@ + cache_error_text(c),
        NixBoostError::System(s) => "System error: "@ + system_error_text(s),
        NixBoostError::Search(s) => "Search error: "@ + search_error_text(s),
        NixBoostError::Nur(n) => "NUR error: "@ + nur_error_text(n),
        NixBoostError::Io(m) => "IO error: "@ + m@,
        NixBoostError::Serialization(m) => "Serialization error: "@ + m@,
        NixBoostError::Other(m) => m@,
    }
}

pub open spec fn error_code(e: NixBoostError) -> Seq<char> {
    match e {
        NixBoostError::Config(_) => "E001"@,
        NixBoostError::Package(_) => "E010"@,
        NixBoostError::Network(_) => "E020"@,
        NixBoostError::Cache(_) => "E030"@,
        NixBoostError::System(_) => "E040"@,
        NixBoostError::Search(_) => "E050"@,
        NixBoostError::Nur(_) => "E060"@,
        NixBoostError::Io(_) => "E070"@,
        NixBoostError::Serialization(_) => "E080"@,
        NixBoostError::Other(_) => "E999"@,
    }
}

pub open spec fn retryable(e: NixBoostError) -> bool {
    match e {
        NixBoostError::Network(NetworkError::Timeout { .. }) => true,
        NixBoostError::Network(NetworkError::RateLimited { .. }) => true,
        NixBoostError::Network(NetworkError::ConnectionFailed(_)) => true,
        NixBoostError::Cache(CacheError::ReadError(_)) => true,
        _ => false,
    }
}

/// The recovery hint of an error, for the kinds that have one.
pub open spec fn hint(e: NixBoostError) -> Option<Seq<char>> {
    match e {
        NixBoostError::Config(_) => Some("Check your config file at ~/.config/nixboost/config.toml"@),
        NixBoostError::Package(PackageError::NotFound { .. }) => Some("Try searching with 'nixboost -Ss <query>' or check NUR with 'nixboost -A <query>'"@),
        NixBoostError::Package(PackageError::AlreadyInstalled { .. }) => Some("The package is already installed. Use 'nixboost -l' to list installed packages"@),
        NixBoostError::Network(NetworkError::Timeout { .. }) => Some("Check your internet connection or increase timeout in config"@),
        NixBoostError::Network(NetworkError::AllMirrorsFailed) => Some("All download sources failed. Check internet connection or try again later"@),
        NixBoostError::Cache(CacheError::Corrupted(_)) => Some("Clear cache with 'rm -rf ~/.cache/nixboost' and retry"@),
        NixBoostError::System(SystemError::NixNotFound) => Some("Ensure Nix is installed and in your PATH"@),
        NixBoostError::System(SystemError::PermissionDenied(_)) => Some("Try running with sudo or check file permissions"@),
        NixBoostError::Nur(NurError::PackageNotFound { .. }) => Some("Search NUR packages with 'nixboost -A <query>'"@),
        _ => None,
    }
}

pub open spec fn str_opt_view(o: Option<&str>) -> Option<Seq<char>> {
    match o {
        Some(s) => Some(s@),
        None => None,
    }
}

impl PackageError {
    /// The message shown to users.
    pub fn message(&self) -> (r: String)
        ensures
            r@ == package_error_text(*self),
    {
        match self {
            PackageError::NotFound { name } => cat2("Package not found: ", name.as_str()),
            PackageError::AlreadyInstalled { name } => cat2("Package already installed: ", name.as_str()),
            PackageError::NotInstalled { name } => cat2("Package not installed: ", name.as_str()),
            PackageError::InstallFailed { name, reason } => cat4("Installation failed for ", name.as_str(), ": ", reason.as_str()),
            PackageError::RemoveFailed { name, reason } => cat4("Removal failed for ", name.as_str(), ": ", reason.as_str()),
            PackageError::DependencyConflict(m) => cat2("Dependency conflict: ", m.as_str()),
            PackageError::InvalidSpec(m) => cat2("Invalid package specification: ", m.as_str()),
            PackageError::VersionMismatch(m) => cat2("Version constraint not satisfied: ", m.as_str()),
            PackageError::TransactionFailed(m) => cat2("Transaction failed: ", m.as_str()),
        }
    }
}

impl NetworkError {
    /// The message shown to users.
    pub fn message(&self) -> (r: String)
        ensures
            r@ == network_error_text(*self),
    {
        match self {
            NetworkError::ConnectionFailed(m) => cat2("Connection failed: ", m.as_str()),
            NetworkError::Timeout { timeout_secs } => around_number("Request timeout after ", *timeout_secs, "s"),
            NetworkError::HttpError { status, message } => {
                let head = around_number("HTTP error ", *status as u64, ": ");
                cat2(head.as_str(), message.as_str())
            }
            NetworkError::DnsError(m) => cat2("DNS resolution failed: ", m.as_str()),
            NetworkError::TlsError(m) => cat2("SSL/TLS error: ", m.as_str()),
            NetworkError::DownloadFailed(m) => cat2("Download failed: ", m.as_str()),
            NetworkError::AllMirrorsFailed => "All mirrors failed".to_string(),
            NetworkError::RateLimited { retry_after_secs } => around_number("Rate limited, retry after ", *retry_after_secs, "s"),
        }
    }
}

impl CacheError {
    /// The message shown to users.
    pub fn message(&self) -> (r: String)
        ensures
            r@ == cache_error_text(*self),
    {
        match self {
            CacheError::InitFailed(m) => cat2("Cache initialization failed: ", m.as_str()),
            CacheError::ReadError(m) => cat2("Cache read error: ", m.as_str()),
            CacheError::WriteError(m) => cat2("Cache write error: ", m.as_str()),
            CacheError::Corrupted(m) => cat2("Cache corrupted: ", m.as_str()),
            CacheError::Expired { key } => cat2("Cache entry expired: ", key.as_str()),
            CacheError::Full { max_size_mb } => around_number("Cache full, max size: ", *max_size_mb, "MB"),
            CacheError::DatabaseError(m) => cat2("Database error: ", m.as_str()),
        }
    }
}

impl SystemError {
    /// The message shown to users.
    pub fn message(&self) -> (r: String)
        ensures
            r@ == system_error_text(*self),
    {
        match self {
            SystemError::NixCommandFailed { command, .. } => cat2("Nix command failed: ", command.as_str()),
            SystemError::NixNotFound => "Nix not found in PATH".to_string(),
            SystemError::PermissionDenied(m) => cat2("Insufficient permissions: ", m.as_str()),
            SystemError::StoreVerificationFailed(m) => cat2("Nix store verification failed: ", m.as_str()),
            SystemError::GenerationNotFound { generation } => {
                let mut s = "Generation not found: ".to_string();
                push_decimal(&mut s, *generation);
                s
            }
            SystemError::RollbackFailed(m) => cat2("Rollback failed: ", m.as_str()),
            SystemError::HealthCheckFailed(m) => cat2("Health check failed: ", m.as_str()),
            SystemError::GarbageCollectionFailed(m) => cat2("Garbage collection failed: ", m.as_str()),
            SystemError::ArchDetectionFailed => "Architecture detection failed".to_string(),
        }
    }
}

impl SearchError {
    /// The message shown to users.
    pub fn message(&self) -> (r: String)
        ensures
            r@ == search_error_text(*self),
    {
        match self {
            SearchError::QueryTooShort { min_length } => around_number("Search query too short (min ", *min_length as u64, " chars)"),
            SearchError::QueryTooLong { max_length } => around_number("Search query too long (max ", *max_length as u64, " chars)"),
            SearchError::InvalidQuery(m) => cat2("Invalid search query: ", m.as_str()),
            SearchError::IndexNotAvailable => "Search index not available".to_string(),
            SearchError::Timeout => "Search timeout".to_string(),
        }
    }
}

impl NurError {
    /// The message shown to users.
    pub fn message(&self) -> (r: String)
        ensures
            r@ == nur_error_text(*self),
    {
        match self {
            NurError::IndexNotAvailable => "NUR index not available".to_string(),
            NurError::PackageNotFound { name } => cat2("NUR package not found: ", name.as_str()),
            NurError::InvalidAttributePath { path } => cat2("Invalid NUR attribute path: ", path.as_str()),
            NurError::RepositoryNotFound { repo } => cat2("NUR repository not found: ", repo.as_str()),
            NurError::IndexUpdateFailed(m) => cat2("NUR index update failed: ", m.as_str()),
        }
    }
}

impl NixBoostError {
    /// The message shown to users.
    pub fn message(&self) -> (r: String)
        ensures
            r@ == error_text(*self),
    {
        match self {
            NixBoostError::Config(m) => cat2("Configuration error: ", m.as_str()),
            NixBoostError::Package(p) => cat2("Package error: ", p.message().as_str()),
            NixBoostError::Network(n) => cat2("Network error: ", n.message().as_str()),
            NixBoostError::Cache(c) => cat2("Cache error: ", c.message().as_str()),
            NixBoostError::System(s) => cat2("System error: ", s.message().as_str()),
            NixBoostError::Search(s) => cat2("Search error: ", s.message().as_str()),
            NixBoostError::Nur(n) => cat2("NUR error: ", n.message().as_str()),
            NixBoostError::Io(m) => cat2("IO error: ", m.as_str()),
            NixBoostError::Serialization(m) => cat2("Serialization error: ", m.as_str()),
            NixBoostError::Other(m) => m.clone(),
        }
    }

    /// A code for scripts, by kind.
    pub fn code(&self) -> (r: &'static str)
        ensures
            r@ == error_code(*self),
    {
        match self {
            NixBoostError::Config(_) => "E001",
            NixBoostError::Package(_) => "E010",
            NixBoostError::Network(_) => "E020",
            NixBoostError::Cache(_) => "E030",
            NixBoostError::System(_) => "E040",
            NixBoostError::Search(_) => "E050",
            NixBoostError::Nur(_) => "E060",
            NixBoostError::Io(_) => "E070",
            NixBoostError::Serialization(_) => "E080",
            NixBoostError::Other(_) => "E999",
        }
    }

    /// A recovery hint, for the kinds that have one.
    pub fn suggestion(&self) -> (r: Option<&'static str>)
        ensures
            str_opt_view(r) == hint(*self),
    {
        match self {
            NixBoostError::Config(_) => Some("Check your config file at ~/.config/nixboost/config.toml"),
            NixBoostError::Package(PackageError::NotFound { .. }) => Some("Try searching with 'nixboost -Ss <query>' or check NUR with 'nixboost -A <query>'"),
            NixBoostError::Package(PackageError::AlreadyInstalled { .. }) => Some("The package is already installed. Use 'nixboost -l' to list installed packages"),
            NixBoostError::Network(NetworkError::Timeout { .. }) => Some("Check your internet connection or increase timeout in config"),
            NixBoostError::Network(NetworkError::AllMirrorsFailed) => Some("All download sources failed. Check internet connection or try again later"),
            NixBoostError::Cache(CacheError::Corrupted(_)) => Some("Clear cache with 'rm -rf ~/.cache/nixboost' and retry"),
            NixBoostError::System(SystemError::NixNotFound) => Some("Ensure Nix is installed and in your PATH"),
            NixBoostError::System(SystemError::PermissionDenied(_)) => Some("Try running with sudo or check file permissions"),
            NixBoostError::Nur(NurError::PackageNotFound { .. }) => Some("Search NUR packages with 'nixboost -A <query>'"),
            _ => None,
        }
    }

    /// Whether retrying the failed operation may succeed.
    pub fn is_retryable(&self) -> (r: bool)
        ensures
            r == retryable(*self),
    {
        match self {
            NixBoostError::Network(NetworkError::Timeout { .. }) => true,
            NixBoostError::Network(NetworkError::RateLimited { .. }) => true,
            NixBoostError::Network(NetworkError::ConnectionFailed(_)) => true,
            NixBoostError::Cache(CacheError::ReadError(_)) => true,
            _ => false,
        }
    }
}

} // verus!
