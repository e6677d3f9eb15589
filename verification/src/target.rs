use vstd::prelude::*;

verus! {

/// The platform a resolved version is installed for: the version (without
/// its `v` prefix) and the vendor's spellings of the host's operating
/// system and architecture.
pub struct TargetDescriptor {
    pub version: String,
    pub os: String,
    pub arch: String,
}

/// The vendor's spelling of a host operating-system identifier: the one
/// mapped name is canonicalized, an unmapped one passes through unchanged.
pub open spec fn normalized_os(host: Seq<char>) -> Seq<char> {
    if host == "macos"@ {
        "darwin"@
    } else {
        host
    }
}

/// The vendor's spelling of a host architecture identifier.
pub open spec fn normalized_arch(host: Seq<char>) -> Seq<char> {
    if host == "x86_64"@ {
        "x64"@
    } else {
        host
    }
}

/// The artifact archive's URL for a descriptor.
pub open spec fn spec_artifact_url(version: Seq<char>, os: Seq<char>, arch: Seq<char>) -> Seq<
    char,
> {
    "https://nodejs.org/dist/v"@ + version + "/node-v"@ + version + "-"@ + os + "-"@ + arch
        + ".tar.gz"@
}

/// The checksum manifest's URL for a version.
pub open spec fn spec_shasums_url(version: Seq<char>) -> Seq<char> {
    "https://nodejs.org/dist/v"@ + version + "/SHASUMS256.txt"@
}

/// The checksum manifest's PGP-signature URL.
pub open spec fn spec_shasums_asc_url(version: Seq<char>) -> Seq<char> {
    spec_shasums_url(version) + ".asc"@
}

/// The checksum manifest's detached-signature URL.
pub open spec fn spec_shasums_sig_url(version: Seq<char>) -> Seq<char> {
    spec_shasums_url(version) + ".sig"@
}

fn str_equals(a: &str, b: &str) -> (r: bool)
    ensures
        r == (a@ == b@),
{
    let x = String::from_str(a);
    let y = String::from_str(b);
    x == y
}

/// Derives the descriptor for a version and the host's reported platform,
/// canonicalizing the host identifiers by a fixed lookup; an unmapped
/// identifier is passed through unchanged, since the remote server performs
/// the authoritative validation.
pub fn build_descriptor(version: &str, host_os: &str, host_arch: &str) -> (d: TargetDescriptor)
    ensures
        d.version@ == version@,
        d.os@ == normalized_os(host_os@),
        d.arch@ == normalized_arch(host_arch@),
{
    let os = if str_equals(host_os, "macos") {
        String::from_str("darwin")
    } else {
        String::from_str(host_os)
    };
    let arch = if str_equals(host_arch, "x86_64") {
        String::from_str("x64")
    } else {
        String::from_str(host_arch)
    };
    TargetDescriptor { version: String::from_str(version), os, arch }
}

/// Builds the artifact archive's URL; string templating only, this never
/// fails.
pub fn artifact_url(d: &TargetDescriptor) -> (r: String)
    ensures
        r@ == spec_artifact_url(d.version@, d.os@, d.arch@),
{
    let mut u = String::from_str("https://nodejs.org/dist/v");
    u.append(d.version.as_str());
    u.append("/node-v");
    u.append(d.version.as_str());
    u.append("-");
    u.append(d.os.as_str());
    u.append("-");
    u.append(d.arch.as_str());
    u.append(".tar.gz");
    proof {
        assert(u@ =~= spec_artifact_url(d.version@, d.os@, d.arch@));
    }
    u
}

fn shasums_url(d: &TargetDescriptor) -> (r: String)
    ensures
        r@ == spec_shasums_url(d.version@),
{
    let mut u = String::from_str("https://nodejs.org/dist/v");
    u.append(d.version.as_str());
    u.append("/SHASUMS256.txt");
    proof {
        assert(u@ =~= spec_shasums_url(d.version@));
    }
    u
}

/// Builds the three auxiliary URLs fetched beside the artifact: the
/// checksum manifest, its PGP signature and its detached signature, in that
/// order.
pub fn auxiliary_urls(d: &TargetDescriptor) -> (r: Vec<String>)
    ensures
        r@.len() == 3,
        r@[0]@ == spec_shasums_url(d.version@),
        r@[1]@ == spec_shasums_asc_url(d.version@),
        r@[2]@ == spec_shasums_sig_url(d.version@),
{
    let shasums = shasums_url(d);
    let mut asc = shasums_url(d);
    asc.append(".asc");
    let mut sig = shasums_url(d);
    sig.append(".sig");
    let mut r: Vec<String> = Vec::new();
    r.push(shasums);
    r.push(asc);
    r.push(sig);
    r
}

/// Builds the whole fetch batch: the three auxiliary URLs followed by the
/// artifact archive's URL.
pub fn install_urls(d: &TargetDescriptor) -> (r: Vec<String>)
    ensures
        r@.len() == 4,
        r@[0]@ == spec_shasums_url(d.version@),
        r@[1]@ == spec_shasums_asc_url(d.version@),
        r@[2]@ == spec_shasums_sig_url(d.version@),
        r@[3]@ == spec_artifact_url(d.version@, d.os@, d.arch@),
{
    let mut r = auxiliary_urls(d);
    r.push(artifact_url(d));
    r
}

} // verus!
