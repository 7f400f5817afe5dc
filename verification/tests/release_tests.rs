use f11esync::release::{compare_versions, platform_zip_name, Arch, DownloadUpdateResult, Os};

#[test]
fn versions_compare_field_by_field() {
    assert_eq!(compare_versions("1.2.3", "1.2.3"), 0);
    assert_eq!(compare_versions("1.2.4", "1.2.3"), 1);
    assert_eq!(compare_versions("1.2.3", "1.10.0"), -1);
    // Missing fields read as zero.
    assert_eq!(compare_versions("1.2", "1.2.0"), 0);
    assert_eq!(compare_versions("1.2.1", "1.2"), 1);
    // Fields that are not numbers are skipped, compacting the rest.
    assert_eq!(compare_versions("1.x.2", "1.2"), 0);
    assert_eq!(compare_versions("", "0"), 0);
    assert_eq!(compare_versions("2", "10"), -1);
}

#[test]
fn release_archives_by_platform() {
    assert_eq!(
        platform_zip_name(Os::Windows, Arch::X64, false),
        Some("f11esync-rust-windows-x64.zip")
    );
    assert_eq!(
        platform_zip_name(Os::Windows, Arch::X64, true),
        Some("f11esync-gui-windows-x64.zip")
    );
    assert_eq!(platform_zip_name(Os::MacOs, Arch::Arm64, true), Some("f11esync-gui-darwin-arm64.zip"));
    assert_eq!(platform_zip_name(Os::MacOs, Arch::Arm64, false), Some("f11esync-darwin-arm64.zip"));
    assert_eq!(platform_zip_name(Os::Linux, Arch::X64, false), Some("f11esync-rust-linux-x64.zip"));
    assert_eq!(platform_zip_name(Os::Linux, Arch::Arm64, true), Some("f11esync-linux-arm64.zip"));
    assert_eq!(platform_zip_name(Os::Windows, Arch::Arm64, false), None);
    assert_eq!(platform_zip_name(Os::Other, Arch::X64, false), None);
}

#[test]
fn download_results_carry_their_versions() {
    let skipped = DownloadUpdateResult::Skipped {
        local: "1.2.3".to_string(),
        remote: "1.2.3".to_string(),
    };
    match skipped {
        DownloadUpdateResult::Skipped { local, remote } => {
            assert_eq!(compare_versions(&remote, &local), 0);
        },
        DownloadUpdateResult::Downloaded { .. } => panic!("expected a skip"),
    }
}
