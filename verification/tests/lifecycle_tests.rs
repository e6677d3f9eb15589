use nodejs_installer::NodeJs;
use nodejs_installer::default_asset_dir;
use nodejs_installer::default_version;
use nodejs_installer::target::build_descriptor;
use nodejs_installer::target::install_urls;

#[test]
fn already_setup() {
    assert_eq!(NodeJs::already_setup().unwrap(), false);
}

#[test]
fn url_parsed() {
    let descriptor = build_descriptor("10.15.1", "macos", "x86_64");
    let urls = install_urls(&descriptor);
    assert_eq!(urls.len(), 4);
    assert_eq!(urls[0], "https://nodejs.org/dist/v10.15.1/SHASUMS256.txt");
    assert_eq!(
        urls[1],
        "https://nodejs.org/dist/v10.15.1/SHASUMS256.txt.asc"
    );
    assert_eq!(
        urls[2],
        "https://nodejs.org/dist/v10.15.1/SHASUMS256.txt.sig"
    );
    assert_eq!(
        urls[3],
        "https://nodejs.org/dist/v10.15.1/node-v10.15.1-darwin-x64.tar.gz"
    );
}

#[test]
fn remaining_lifecycle_steps_succeed() {
    assert!(NodeJs::install().is_ok());
    assert!(NodeJs::post_install().is_ok());
    assert!(NodeJs::uninstall().is_ok());
}

#[test]
fn defaults_match_the_fixed_fallbacks() {
    assert_eq!(default_version(), "10.15.1");
    assert_eq!(default_asset_dir(), "assets");
}
