use nodejs_installer::errors::InstallError;
use nodejs_installer::orchestrator::InstallAction;
use nodejs_installer::orchestrator::InstallRequest;
use nodejs_installer::orchestrator::InstallState;
use nodejs_installer::orchestrator::Orchestrator;
use nodejs_installer::target::build_descriptor;

fn request() -> InstallRequest {
    let descriptor = build_descriptor("10.15.1", "macos", "x86_64");
    InstallRequest::new(&descriptor, String::from("assets"))
}

#[test]
fn request_holds_the_batch_and_destination() {
    let req = request();
    assert_eq!(req.urls.len(), 4);
    assert_eq!(req.urls[0], "https://nodejs.org/dist/v10.15.1/SHASUMS256.txt");
    assert_eq!(
        req.urls[3],
        "https://nodejs.org/dist/v10.15.1/node-v10.15.1-darwin-x64.tar.gz"
    );
    assert_eq!(req.dest, "assets");
}

#[test]
fn successful_run_reaches_installed() {
    let mut orch = Orchestrator::new(request());
    assert!(matches!(orch.state, InstallState::NotStarted));

    let prepare = orch.begin();
    assert!(matches!(prepare, InstallAction::PrepareDir(ref p) if p == "assets"));
    assert!(matches!(orch.state, InstallState::Preparing));

    let fetch = orch.finish_prepare(true);
    assert!(matches!(orch.state, InstallState::Fetching));
    match fetch {
        Some(InstallAction::FetchBatch(urls, dest)) => {
            assert_eq!(urls.len(), 4);
            assert_eq!(dest, "assets");
        },
        _ => panic!("expected a fetch batch"),
    }

    let extract = orch.finish_fetch(None);
    assert!(matches!(orch.state, InstallState::Extracting));
    assert!(matches!(
        extract,
        Some(InstallAction::ExtractArchives(ref src, ref dst)) if src == "assets" && dst == "assets"
    ));

    orch.finish_extract(true);
    assert!(matches!(orch.state, InstallState::Installed));
}

#[test]
fn unavailable_destination_aborts_before_any_fetch() {
    let mut orch = Orchestrator::new(request());
    orch.begin();
    let next = orch.finish_prepare(false);
    assert!(next.is_none());
    assert!(matches!(
        orch.state,
        InstallState::Failed(InstallError::DestinationUnavailable(ref p)) if p == "assets"
    ));
}

#[test]
fn failed_fetch_aborts_before_any_extraction() {
    let mut orch = Orchestrator::new(request());
    orch.begin();
    orch.finish_prepare(true);
    let bad = String::from("https://nodejs.org/dist/v10.15.1/SHASUMS256.txt.sig");
    let next = orch.finish_fetch(Some(bad.clone()));
    assert!(next.is_none());
    assert!(matches!(
        orch.state,
        InstallState::Failed(InstallError::FetchFailed(ref u)) if *u == bad
    ));
}

#[test]
fn failed_extraction_is_terminal_with_its_typed_cause() {
    let mut orch = Orchestrator::new(request());
    orch.begin();
    orch.finish_prepare(true);
    orch.finish_fetch(None);
    orch.finish_extract(false);
    assert!(matches!(
        orch.state,
        InstallState::Failed(InstallError::ExtractionFailed)
    ));
}
