use nixboost::gc::{format_bytes, GCResult};
use nixboost::types::{GCPreview, NurPackage, OperationResult, OperationStatus, OperationType, Package, PackageSource};

#[test]
fn test_package_creation() {
    let pkg = Package::new("firefox", "120.0", "Web browser");
    assert_eq!(pkg.name, "firefox");
    assert_eq!(pkg.version, "120.0");
    assert_eq!(pkg.source, PackageSource::Nixpkgs);
}

#[test]
fn test_package_from_nur() {
    let pkg = Package::from_nur("somepackage", "1.0", "Description", "username");
    assert!(matches!(pkg.source, PackageSource::Nur { repo } if repo == "username"));
}

#[test]
fn test_gc_preview_size_human() {
    let preview = GCPreview {
        paths: vec![],
        size_bytes: 1024 * 1024 * 512,
        affected_generations: vec![],
    };
    assert!(preview.size_human().contains("MB"));
}

#[test]
fn test_package_display_name() {
    let pkg = Package::from_nixpkgs("firefox", "120.0", "Browser");
    assert_eq!(pkg.display_name(), "nixpkgs/firefox");

    let nur_pkg = Package::from_nur("pkg", "1.0", "Desc", "user");
    assert_eq!(nur_pkg.display_name(), "nur/user/pkg");
}

#[test]
fn test_nur_package_to_package() {
    let nur = NurPackage {
        attr_path: "repos.mic92.hello".to_string(),
        name: "hello".to_string(),
        version: "1.0.0".to_string(),
        description: "Hello world".to_string(),
        repo: "mic92".to_string(),
        homepage: None,
        license: None,
    };

    let pkg: Package = nur.into();
    assert_eq!(pkg.name, "hello");
    assert!(matches!(pkg.source, PackageSource::Nur { ref repo } if repo == "mic92"));
}

#[test]
fn test_format_bytes() {
    assert_eq!(format_bytes(512), "512 B");
    assert_eq!(format_bytes(1536), "1.5 KiB");
    assert_eq!(format_bytes(1572864), "1.5 MiB");
}

#[test]
fn size_units_and_rounding() {
    assert_eq!(format_bytes(0), "0 B");
    assert_eq!(format_bytes(1023), "1023 B");
    assert_eq!(format_bytes(1024), "1.0 KiB");
    assert_eq!(format_bytes(1024 * 1024 * 1024 * 3 / 2), "1.50 GiB");
    assert_eq!(format_bytes(u64::MAX), format!("{:.2} GiB", u64::MAX as f64 / 1073741824.0));
    for b in [1100u64, 2000, 5000, 123_456, 999_999, 1_048_575, 7_000_000, 987_654_321, 5_000_000_000] {
        let expected = if b < 1048576 {
            format!("{:.1} KiB", b as f64 / 1024.0)
        } else if b < 1073741824 {
            format!("{:.1} MiB", b as f64 / 1048576.0)
        } else {
            format!("{:.2} GiB", b as f64 / 1073741824.0)
        };
        assert_eq!(format_bytes(b), expected);
    }
    let result = GCResult { success: true, bytes_freed: 1536, message: String::new() };
    assert_eq!(result.freed_human(), "1.5 KiB");
    let preview = GCPreview { paths: vec![], size_bytes: 3 * 1073741824, affected_generations: vec![] };
    assert_eq!(preview.size_human(), "3.00 GB");
}

#[test]
fn install_commands() {
    let pkg = Package::new("git", "2.0", "VCS");
    assert_eq!(pkg.install_command(), "nix profile install nixpkgs#git");
    let nur = Package::from_nur("hello", "1.0", "", "mic92");
    assert_eq!(nur.install_command(), "nix profile install github:nix-community/NUR#repos.mic92.hello");
    let mut flake = Package::new("app", "1", "");
    flake.source = PackageSource::Flake { url: "github:o/r".to_string() };
    assert_eq!(flake.install_command(), "nix profile install github:o/r#app");
    assert_eq!(flake.display_name(), "github:o/r#app");
    flake.source = PackageSource::Unknown;
    assert_eq!(flake.display_name(), "app");
}

#[test]
fn operation_results() {
    let ok = OperationResult::success(OperationType::Install, vec!["git".to_string()], 42);
    assert_eq!(ok.status, OperationStatus::Success);
    assert_eq!(ok.duration_ms, 42);
    let bad = OperationResult::failure(OperationType::Remove, vec![], "boom");
    assert_eq!(bad.status, OperationStatus::Failed);
    assert_eq!(bad.error, Some("boom".to_string()));
    assert_eq!(bad.duration_ms, 0);
}
