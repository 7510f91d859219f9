use ntfy_log::locate::{
    get_arch, github_download_url, github_releases_url, resolve, temp_download_path,
};

#[test]
fn the_two_supported_architectures_map_across() {
    assert_eq!(get_arch("x86_64"), Ok("x86_64".to_string()));
    assert_eq!(get_arch("aarch64"), Ok("arm64".to_string()));
}

#[test]
fn any_other_architecture_fails_fast() {
    assert_eq!(
        get_arch("riscv64"),
        Err("Unsupported CPU architecture: riscv64".to_string())
    );
    assert_eq!(get_arch(""), Err("Unsupported CPU architecture: ".to_string()));
    // No guessing: near-misses are refused too.
    assert!(get_arch("arm64").is_err());
    assert!(get_arch("X86_64").is_err());
}

#[test]
fn releases_url_is_fixed() {
    assert_eq!(
        github_releases_url(),
        "https://api.github.com/repos/ntfy-log/ntfy-log/releases/latest"
    );
}

#[test]
fn download_url_composes_tag_and_arch() {
    assert_eq!(
        github_download_url("1.2.0", "arm64"),
        "https://github.com/ntfy-log/ntfy-log/releases/download/1.2.0/ntfy-log-arm64"
    );
}

#[test]
fn temp_path_is_well_known() {
    assert_eq!(temp_download_path(), "/tmp/download-ntfy-log.bin");
}

#[test]
fn resolve_pairs_url_and_temp_path() {
    let t = resolve("1.2.0", "x86_64");
    assert_eq!(
        t.url,
        "https://github.com/ntfy-log/ntfy-log/releases/download/1.2.0/ntfy-log-x86_64"
    );
    assert_eq!(t.tmp_path, "/tmp/download-ntfy-log.bin");
}
