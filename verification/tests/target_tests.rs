use nodejs_installer::target::artifact_url;
use nodejs_installer::target::auxiliary_urls;
use nodejs_installer::target::build_descriptor;

#[test]
fn darwin_x64_artifact_and_auxiliary_urls() {
    let descriptor = build_descriptor("10.15.1", "macos", "x86_64");
    assert_eq!(descriptor.version, "10.15.1");
    assert_eq!(descriptor.os, "darwin");
    assert_eq!(descriptor.arch, "x64");

    assert_eq!(
        artifact_url(&descriptor),
        "https://nodejs.org/dist/v10.15.1/node-v10.15.1-darwin-x64.tar.gz"
    );

    let aux = auxiliary_urls(&descriptor);
    assert_eq!(aux.len(), 3);
    assert_eq!(aux[0], "https://nodejs.org/dist/v10.15.1/SHASUMS256.txt");
    assert_eq!(aux[1], "https://nodejs.org/dist/v10.15.1/SHASUMS256.txt.asc");
    assert_eq!(aux[2], "https://nodejs.org/dist/v10.15.1/SHASUMS256.txt.sig");
}

#[test]
fn unmapped_host_identifiers_pass_through() {
    let descriptor = build_descriptor("11.10.0", "linux", "aarch64");
    assert_eq!(descriptor.os, "linux");
    assert_eq!(descriptor.arch, "aarch64");
    assert_eq!(
        artifact_url(&descriptor),
        "https://nodejs.org/dist/v11.10.0/node-v11.10.0-linux-aarch64.tar.gz"
    );
}
