use vstd::prelude::*;

use crate::catalog::clone_string_vec;
use crate::errors::InstallError;
use crate::target::TargetDescriptor;
use crate::target::install_urls;
use crate::target::spec_artifact_url;
use crate::target::spec_shasums_asc_url;
use crate::target::spec_shasums_sig_url;
use crate::target::spec_shasums_url;

verus! {

/// The resolved set of URLs to fetch and the destination directory; created
/// at the start of one install run and discarded with it.
pub struct InstallRequest {
    pub urls: Vec<String>,
    pub dest: String,
}

impl InstallRequest {
    /// Assembles the fetch batch for a descriptor: the three auxiliary
    /// files and the artifact archive.
    pub fn new(descriptor: &TargetDescriptor, dest: String) -> (r: InstallRequest)
        ensures
            r.urls@.len() == 4,
            r.urls@[0]@ == spec_shasums_url(descriptor.version@),
            r.urls@[1]@ == spec_shasums_asc_url(descriptor.version@),
            r.urls@[2]@ == spec_shasums_sig_url(descriptor.version@),
            r.urls@[3]@ == spec_artifact_url(descriptor.version@, descriptor.os@, descriptor.arch@),
            r.dest@ == dest@,
    {
        InstallRequest { urls: install_urls(descriptor), dest }
    }
}

/// The stages one install run moves through; `Failed` is terminal and
/// reachable from every non-terminal stage.
pub enum InstallState {
    NotStarted,
    Preparing,
    Fetching,
    Extracting,
    Installed,
    Failed(InstallError),
}

/// The outside work the orchestrator asks its caller to perform next.
pub enum InstallAction {
    /// Create the directory recursively if it is absent.
    PrepareDir(String),
    /// Fetch every URL of the batch into the directory, as one joined
    /// operation.
    FetchBatch(Vec<String>, String),
    /// Unpack the fetched archives from the first directory into the second.
    ExtractArchives(String, String),
}

/// A state that no install run leaves again.
pub open spec fn is_terminal(s: InstallState) -> bool {
    s is Installed || s matches InstallState::Failed(_)
}

/// Drives one install run: each step consumes the outcome of the action it
/// last issued and either issues the next action or settles on a terminal
/// state. On any failure it moves to `Failed` with the typed cause and
/// issues nothing further.
pub struct Orchestrator {
    pub state: InstallState,
    pub request: InstallRequest,
}

impl Orchestrator {
    pub fn new(request: InstallRequest) -> (r: Orchestrator)
        ensures
            r.state is NotStarted,
            r.request == request,
    {
        Orchestrator { state: InstallState::NotStarted, request }
    }

    /// Starts the run: moves to `Preparing` and asks for the destination
    /// directory to be created.
    pub fn begin(&mut self) -> (a: InstallAction)
        requires
            old(self).state is NotStarted,
        ensures
            final(self).state is Preparing,
            final(self).request == old(self).request,
            a matches InstallAction::PrepareDir(p) && p@ == old(self).request.dest@,
    {
        self.state = InstallState::Preparing;
        InstallAction::PrepareDir(self.request.dest.clone())
    }

    /// Consumes the directory-preparation outcome. Success moves to
    /// `Fetching` and asks for the whole URL batch; failure settles on
    /// `Failed(DestinationUnavailable)` carrying the destination path, and
    /// no fetch is ever asked for.
    pub fn finish_prepare(&mut self, ok: bool) -> (a: Option<InstallAction>)
        requires
            old(self).state is Preparing,
        ensures
            final(self).request == old(self).request,
            ok ==> final(self).state is Fetching && (a matches Some(
                InstallAction::FetchBatch(urls, dst),
            ) && urls@ == old(self).request.urls@ && dst@ == old(self).request.dest@),
            !ok ==> a is None && (final(self).state matches InstallState::Failed(e)
                && e matches InstallError::DestinationUnavailable(p) && p@ == old(
                self,
            ).request.dest@),
    {
        if ok {
            self.state = InstallState::Fetching;
            Some(
                InstallAction::FetchBatch(
                    clone_string_vec(&self.request.urls),
                    self.request.dest.clone(),
                ),
            )
        } else {
            self.state = InstallState::Failed(
                InstallError::DestinationUnavailable(self.request.dest.clone()),
            );
            None
        }
    }

    /// Consumes the batch-fetch outcome, given as the first failing URL if
    /// any. Success moves to `Extracting` and asks for the archives to be
    /// unpacked in place; failure settles on `Failed(FetchFailed)` naming
    /// that URL, and no extraction is ever asked for.
    pub fn finish_fetch(&mut self, failed_url: Option<String>) -> (a: Option<InstallAction>)
        requires
            old(self).state is Fetching,
        ensures
            final(self).request == old(self).request,
            failed_url is None ==> final(self).state is Extracting && (a matches Some(
                InstallAction::ExtractArchives(src, dst),
            ) && src@ == old(self).request.dest@ && dst@ == old(self).request.dest@),
            failed_url matches Some(u) ==> a is None && (final(self).state
                matches InstallState::Failed(e) && e matches InstallError::FetchFailed(w) && w@
                == u@),
    {
        match failed_url {
            None => {
                self.state = InstallState::Extracting;
                Some(
                    InstallAction::ExtractArchives(
                        self.request.dest.clone(),
                        self.request.dest.clone(),
                    ),
                )
            },
            Some(u) => {
                self.state = InstallState::Failed(InstallError::FetchFailed(u));
                None
            },
        }
    }

    /// Consumes the extraction outcome: success settles on `Installed`,
    /// failure on `Failed(ExtractionFailed)`.
    pub fn finish_extract(&mut self, ok: bool)
        requires
            old(self).state is Extracting,
        ensures
            final(self).request == old(self).request,
            ok ==> final(self).state is Installed,
            !ok ==> (final(self).state matches InstallState::Failed(e) && e is ExtractionFailed),
            is_terminal(final(self).state),
    {
        if ok {
            self.state = InstallState::Installed;
        } else {
            self.state = InstallState::Failed(InstallError::ExtractionFailed);
        }
    }
}

} // verus!
