use vstd::prelude::*;

use crate::errors::InstallError;

verus! {

/// One row of the release catalog, with the LTS field already normalized
/// to its single string representation.
#[derive(Debug)]
pub struct Version {
    pub version: String,
    pub date: String,
    pub files: Vec<String>,
    pub npm: Option<String>,
    pub v8: String,
    pub uv: Option<String>,
    pub zlib: Option<String>,
    pub openssl: Option<String>,
    pub modules: Option<String>,
    pub lts: String,
}

/// The mathematical model of a catalog entry: every text field as a
/// sequence of characters, absence kept distinct from the empty string.
pub ghost struct VersionModel {
    pub version: Seq<char>,
    pub date: Seq<char>,
    pub files: Seq<Seq<char>>,
    pub npm: Option<Seq<char>>,
    pub v8: Seq<char>,
    pub uv: Option<Seq<char>>,
    pub zlib: Option<Seq<char>>,
    pub openssl: Option<Seq<char>>,
    pub modules: Option<Seq<char>>,
    pub lts: Seq<char>,
}

impl View for Version {
    type V = VersionModel;

    open spec fn view(&self) -> VersionModel {
        VersionModel {
            version: self.version@,
            date: self.date@,
            files: self.files.deep_view(),
            npm: self.npm.deep_view(),
            v8: self.v8@,
            uv: self.uv.deep_view(),
            zlib: self.zlib.deep_view(),
            openssl: self.openssl.deep_view(),
            modules: self.modules.deep_view(),
            lts: self.lts@,
        }
    }
}

impl vstd::std_specs::cmp::PartialEqSpecImpl for Version {
    open spec fn obeys_eq_spec() -> bool {
        true
    }

    open spec fn eq_spec(&self, other: &Version) -> bool {
        self@ == other@
    }
}

impl PartialEq for Version {
    fn eq(&self, other: &Version) -> (r: bool) {
        let r = self.version == other.version && self.date == other.date
            && string_vec_eq(&self.files, &other.files) && opt_string_eq(&self.npm, &other.npm)
            && self.v8 == other.v8 && opt_string_eq(&self.uv, &other.uv)
            && opt_string_eq(&self.zlib, &other.zlib)
            && opt_string_eq(&self.openssl, &other.openssl)
            && opt_string_eq(&self.modules, &other.modules) && self.lts == other.lts;
        proof {
            if r {
                assert(self@ == other@);
            } else {
                assert(self@ != other@);
            }
        }
        r
    }
}

/// Compares two vectors of strings by their contents.
fn string_vec_eq(a: &Vec<String>, b: &Vec<String>) -> (r: bool)
    ensures
        r == (a.deep_view() == b.deep_view()),
{
    if a.len() != b.len() {
        assert(a.deep_view().len() != b.deep_view().len());
        return false;
    }
    let mut i: usize = 0;
    while i < a.len()
        invariant
            i <= a.len(),
            a.len() == b.len(),
            forall|j: int| 0 <= j < i ==> a.deep_view()[j] == b.deep_view()[j],
        decreases a.len() - i,
    {
        if !(a[i] == b[i]) {
            assert(a.deep_view()[i as int] != b.deep_view()[i as int]);
            return false;
        }
        i = i + 1;
    }
    proof {
        assert(a.deep_view() =~= b.deep_view());
    }
    true
}

/// Compares two optional strings; absence is equal only to absence.
fn opt_string_eq(a: &Option<String>, b: &Option<String>) -> (r: bool)
    ensures
        r == (a.deep_view() == b.deep_view()),
{
    match (a, b) {
        (Some(x), Some(y)) => *x == *y,
        (None, None) => true,
        _ => false,
    }
}

/// The two wire shapes the catalog may use for the LTS field: a boolean
/// or a free-form channel name.
#[derive(Debug)]
pub enum LtsWire {
    Boolean(bool),
    Text(String),
}

/// A catalog row as delivered on the wire, before the required-field and
/// LTS-shape checks: every field may still be absent.
#[derive(Debug)]
pub struct RawEntry {
    pub version: Option<String>,
    pub date: Option<String>,
    pub files: Option<Vec<String>>,
    pub npm: Option<String>,
    pub v8: Option<String>,
    pub uv: Option<String>,
    pub zlib: Option<String>,
    pub openssl: Option<String>,
    pub modules: Option<String>,
    pub lts: Option<LtsWire>,
}

/// The one LTS wire value that the two-shape contract rejects: boolean true.
pub open spec fn lts_wire_bad(w: LtsWire) -> bool {
    w matches LtsWire::Boolean(b) && b
}

/// What a valid LTS wire value normalizes to: boolean false becomes the
/// sentinel string, a channel name passes through unchanged.
pub open spec fn spec_normalize_lts(w: LtsWire) -> Seq<char> {
    match w {
        LtsWire::Boolean(_) => "false"@,
        LtsWire::Text(s) => s@,
    }
}

/// Collapses the two-shape LTS wire value to its single normalized string:
/// the boolean `false` maps to the sentinel `"false"`, a string passes
/// through unchanged, and the boolean `true` is rejected as malformed.
pub fn normalize_lts(w: &LtsWire) -> (r: Result<String, InstallError>)
    ensures
        !lts_wire_bad(*w) ==> (r matches Ok(s) && s@ == spec_normalize_lts(*w)),
        lts_wire_bad(*w) ==> (r matches Err(e) && e matches InstallError::MalformedField(f)
            && f@ == "lts"@),
{
    match w {
        LtsWire::Boolean(b) => {
            if *b {
                Err(InstallError::MalformedField(String::from_str("lts")))
            } else {
                Ok(String::from_str("false"))
            }
        },
        LtsWire::Text(s) => Ok(s.clone()),
    }
}

/// Whether a wire row decodes: every required field present and the LTS
/// field in one of its two accepted shapes.
pub open spec fn decode_ok(raw: RawEntry) -> bool {
    &&& raw.version is Some
    &&& raw.date is Some
    &&& raw.files is Some
    &&& raw.v8 is Some
    &&& raw.lts is Some
    &&& !lts_wire_bad(raw.lts.unwrap())
}

/// The entry a valid wire row decodes to.
pub open spec fn spec_decoded(raw: RawEntry) -> VersionModel {
    VersionModel {
        version: raw.version.unwrap()@,
        date: raw.date.unwrap()@,
        files: raw.files.unwrap().deep_view(),
        npm: raw.npm.deep_view(),
        v8: raw.v8.unwrap()@,
        uv: raw.uv.deep_view(),
        zlib: raw.zlib.deep_view(),
        openssl: raw.openssl.deep_view(),
        modules: raw.modules.deep_view(),
        lts: spec_normalize_lts(raw.lts.unwrap()),
    }
}

/// The typed failure an invalid wire row decodes to: the first missing
/// required field, else the rejected LTS shape.
pub open spec fn decode_err_matches(raw: RawEntry, e: InstallError) -> bool {
    if raw.version is None {
        e matches InstallError::CatalogCorrupt(f) && f@ == "version"@
    } else if raw.date is None {
        e matches InstallError::CatalogCorrupt(f) && f@ == "date"@
    } else if raw.files is None {
        e matches InstallError::CatalogCorrupt(f) && f@ == "files"@
    } else if raw.v8 is None {
        e matches InstallError::CatalogCorrupt(f) && f@ == "v8"@
    } else if raw.lts is None {
        e matches InstallError::CatalogCorrupt(f) && f@ == "lts"@
    } else {
        e matches InstallError::MalformedField(f) && f@ == "lts"@
    }
}

/// Copies a vector of strings.
pub(crate) fn clone_string_vec(v: &Vec<String>) -> (r: Vec<String>)
    ensures
        r@ == v@,
{
    let mut r: Vec<String> = Vec::new();
    let mut i: usize = 0;
    while i < v.len()
        invariant
            i <= v.len(),
            r@ == v@.take(i as int),
        decreases v.len() - i,
    {
        r.push(v[i].clone());
        proof {
            assert(r@ =~= v@.take(i + 1 as int));
        }
        i = i + 1;
    }
    proof {
        assert(r@ =~= v@);
    }
    r
}

/// Copies an optional string.
fn opt_string_clone(o: &Option<String>) -> (r: Option<String>)
    ensures
        r == *o,
{
    match o {
        Some(s) => Some(s.clone()),
        None => None,
    }
}

/// Decodes one wire row by straightforward structural mapping: a missing
/// required field is a corrupt catalog, the LTS field normalizes per its
/// two-shape contract, and an absent optional field stays absent.
pub fn decode_entry(raw: &RawEntry) -> (r: Result<Version, InstallError>)
    ensures
        decode_ok(*raw) ==> (r matches Ok(v) && v@ == spec_decoded(*raw)),
        !decode_ok(*raw) ==> (r matches Err(e) && decode_err_matches(*raw, e)),
{
    let version = match &raw.version {
        Some(s) => s.clone(),
        None => {
            return Err(InstallError::CatalogCorrupt(String::from_str("version")));
        },
    };
    let date = match &raw.date {
        Some(s) => s.clone(),
        None => {
            return Err(InstallError::CatalogCorrupt(String::from_str("date")));
        },
    };
    let files = match &raw.files {
        Some(v) => clone_string_vec(v),
        None => {
            return Err(InstallError::CatalogCorrupt(String::from_str("files")));
        },
    };
    let v8 = match &raw.v8 {
        Some(s) => s.clone(),
        None => {
            return Err(InstallError::CatalogCorrupt(String::from_str("v8")));
        },
    };
    let lts_wire = match &raw.lts {
        Some(w) => w,
        None => {
            return Err(InstallError::CatalogCorrupt(String::from_str("lts")));
        },
    };
    let lts = match normalize_lts(lts_wire) {
        Ok(s) => s,
        Err(e) => {
            return Err(e);
        },
    };
    Ok(
        Version {
            version,
            date,
            files,
            npm: opt_string_clone(&raw.npm),
            v8,
            uv: opt_string_clone(&raw.uv),
            zlib: opt_string_clone(&raw.zlib),
            openssl: opt_string_clone(&raw.openssl),
            modules: opt_string_clone(&raw.modules),
            lts,
        },
    )
}

/// Decodes the whole catalog, all or nothing: either every row decodes and
/// the result keeps the delivered order, or the first failing row's typed
/// error is surfaced and no partial catalog is returned.
pub fn decode_catalog(raws: &Vec<RawEntry>) -> (r: Result<Vec<Version>, InstallError>)
    ensures
        r is Ok <==> (forall|j: int| 0 <= j < raws@.len() ==> decode_ok(#[trigger] raws@[j])),
        r matches Ok(vs) ==> vs@.len() == raws@.len() && (forall|j: int|
            0 <= j < raws@.len() ==> #[trigger] vs@[j]@ == spec_decoded(raws@[j])),
        r matches Err(e) ==> exists|i: int|
            0 <= i < raws@.len() && !decode_ok(#[trigger] raws@[i]) && decode_err_matches(
                raws@[i],
                e,
            ) && (forall|j: int| 0 <= j < i ==> decode_ok(#[trigger] raws@[j])),
{
    let mut out: Vec<Version> = Vec::new();
    let mut i: usize = 0;
    while i < raws.len()
        invariant
            i <= raws@.len(),
            out@.len() == i,
            forall|j: int| 0 <= j < i ==> decode_ok(#[trigger] raws@[j]),
            forall|j: int| 0 <= j < i ==> #[trigger] out@[j]@ == spec_decoded(raws@[j]),
        decreases raws@.len() - i,
    {
        match decode_entry(&raws[i]) {
            Ok(v) => {
                out.push(v);
            },
            Err(e) => {
                return Err(e);
            },
        }
        i = i + 1;
    }
    Ok(out)
}

} // verus!
