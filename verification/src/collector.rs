//! The collector's submission and query logic.
//!
//! A submission arrives as a multipart form with a shared-secret header.
//! The secret is compared first, before any field is consumed; the fields
//! `package`, `arch` and `success` are each required, a repeated `log`
//! part is concatenated in order; the blob filename is derived from the
//! package and architecture; and the authoritative record is upserted.
//! The transport layer around this module only moves bytes: every
//! decision is taken here.

use vstd::prelude::*;
use crate::package::ResultView;
use crate::store::{spec_upsert, ResultStore};
use vstd::string::StringExecFns;

verus! {

/// One decoded part of a submission form, by field name. Text fields
/// arrive decoded; a field of any other name is ignored.
pub enum FormPart {
    /// A `package` field's text.
    Package(String),
    /// An `arch` field's text.
    Arch(String),
    /// A `success` field's text.
    Success(String),
    /// One `log` part's bytes; repeated parts are concatenated in order.
    Log(Vec<u8>),
    /// A field of any other name.
    Other,
}

/// The accumulated fields, as contracts speak of them.
pub ghost struct FieldsView {
    pub package: Option<Seq<char>>,
    pub arch: Option<Seq<char>>,
    pub success: Option<Seq<char>>,
    pub log: Seq<u8>,
}

/// The fields accumulated from a form's parts: for each text field the
/// last part of that name wins, log parts are concatenated in order.
pub struct Fields {
    pub package: Option<String>,
    pub arch: Option<String>,
    pub success: Option<String>,
    pub log: Vec<u8>,
}

/// The view of an optional text field.
pub open spec fn opt_text_view(o: Option<String>) -> Option<Seq<char>> {
    match o {
        Some(s) => Some(s@),
        None => None,
    }
}

impl View for Fields {
    type V = FieldsView;

    open spec fn view(&self) -> FieldsView {
        FieldsView {
            package: opt_text_view(self.package),
            arch: opt_text_view(self.arch),
            success: opt_text_view(self.success),
            log: self.log@,
        }
    }
}

/// No field seen yet.
pub open spec fn empty_fields() -> FieldsView {
    FieldsView { package: None, arch: None, success: None, log: Seq::empty() }
}

/// What one part does to the accumulated fields.
pub open spec fn apply_part(acc: FieldsView, p: FormPart) -> FieldsView {
    match p {
        FormPart::Package(s) => FieldsView { package: Some(s@), ..acc },
        FormPart::Arch(s) => FieldsView { arch: Some(s@), ..acc },
        FormPart::Success(s) => FieldsView { success: Some(s@), ..acc },
        FormPart::Log(b) => FieldsView { log: acc.log + b@, ..acc },
        FormPart::Other => acc,
    }
}

/// The fields accumulated over `parts`, starting from `acc`.
pub open spec fn accumulate_from(acc: FieldsView, parts: Seq<FormPart>) -> FieldsView
    decreases parts.len(),
{
    if parts.len() == 0 {
        acc
    } else {
        accumulate_from(apply_part(acc, parts[0]), parts.drop_first())
    }
}

/// The fields a whole form accumulates to.
pub open spec fn spec_accumulate(parts: Seq<FormPart>) -> FieldsView {
    accumulate_from(empty_fields(), parts)
}

/// Accumulate a form's parts: the last `package`, `arch` and `success`
/// field each wins, `log` parts concatenate in order, unknown fields are
/// ignored.
pub fn accumulate(parts: &Vec<FormPart>) -> (r: Fields)
    ensures
        r@ == spec_accumulate(parts@),
{
    let mut acc = Fields { package: None, arch: None, success: None, log: Vec::new() };
    assert(acc@ == empty_fields());
    assert(parts@.skip(0) =~= parts@);
    let n = parts.len();
    for i in 0..n
        invariant
            n == parts@.len(),
            spec_accumulate(parts@) == accumulate_from(acc@, parts@.skip(i as int)),
    {
        let ghost pre = acc@;
        assert(parts@.skip(i as int)[0] == parts@[i as int]);
        assert(parts@.skip(i as int).drop_first() =~= parts@.skip(i + 1));
        match &parts[i] {
            FormPart::Package(s) => {
                acc.package = Some(s.clone());
            },
            FormPart::Arch(s) => {
                acc.arch = Some(s.clone());
            },
            FormPart::Success(s) => {
                acc.success = Some(s.clone());
            },
            FormPart::Log(b) => {
                let m = b.len();
                for j in 0..m
                    invariant
                        m == b@.len(),
                        acc@.log == pre.log + b@.subrange(0, j as int),
                        acc@.package == pre.package,
                        acc@.arch == pre.arch,
                        acc@.success == pre.success,
                {
                    acc.log.push(b[j]);
                    assert(acc@.log =~= pre.log + b@.subrange(0, j + 1));
                }
                assert(b@.subrange(0, m as int) =~= b@);
            },
            FormPart::Other => {},
        }
        assert(acc@ == apply_part(pre, parts@[i as int]));
    }
    assert(parts@.skip(n as int) =~= Seq::<FormPart>::empty());
    acc
}

/// Why a submission was rejected. Every rejection reaches the submitter;
/// the collector swallows no submission error.
#[derive(Debug)]
pub enum CollectorError {
    /// The secret header is absent or does not match the configured
    /// secret.
    InvalidSecret,
    /// The form carried no `package` field.
    MissingPackage,
    /// The form carried no `arch` field.
    MissingArch,
    /// The form carried no `success` field.
    MissingSuccess,
}

impl CollectorError {
    /// A human-readable description, for the transport layer's error body.
    pub fn message(&self) -> (r: String)
        ensures
            *self is InvalidSecret ==> r@ == "Invalid secret token"@,
            *self is MissingPackage ==> r@ == "Missing package field"@,
            *self is MissingArch ==> r@ == "Missing arch field"@,
            *self is MissingSuccess ==> r@ == "Missing success field"@,
    {
        match self {
            CollectorError::InvalidSecret => "Invalid secret token".to_owned(),
            CollectorError::MissingPackage => "Missing package field".to_owned(),
            CollectorError::MissingArch => "Missing arch field".to_owned(),
            CollectorError::MissingSuccess => "Missing success field".to_owned(),
        }
    }
}

/// A validated submission, as contracts speak of it.
pub ghost struct SubmissionView {
    pub package: Seq<char>,
    pub arch: Seq<char>,
    pub success: bool,
    pub log: Seq<u8>,
}

/// A validated submission: the three required fields, with `success`
/// already read as a boolean, and the log payload as delivered.
pub struct Submission {
    pub package: String,
    pub arch: String,
    pub success: bool,
    pub log: Vec<u8>,
}

impl View for Submission {
    type V = SubmissionView;

    open spec fn view(&self) -> SubmissionView {
        SubmissionView {
            package: self.package@,
            arch: self.arch@,
            success: self.success,
            log: self.log@,
        }
    }
}

/// What validation returns on given fields: the first missing required
/// field is named, in the order package, arch, success; otherwise the
/// submission, where only the literal text `true` counts as success.
pub open spec fn spec_validate(f: FieldsView) -> Result<SubmissionView, CollectorError> {
    if f.package is None {
        Err(CollectorError::MissingPackage)
    } else if f.arch is None {
        Err(CollectorError::MissingArch)
    } else if f.success is None {
        Err(CollectorError::MissingSuccess)
    } else {
        Ok(
            SubmissionView {
                package: f.package.unwrap(),
                arch: f.arch.unwrap(),
                success: f.success.unwrap() == "true"@,
                log: f.log,
            },
        )
    }
}

/// The view of a validation outcome.
pub open spec fn validation_view(r: Result<Submission, CollectorError>) -> Result<
    SubmissionView,
    CollectorError,
> {
    match r {
        Ok(s) => Ok(s@),
        Err(e) => Err(e),
    }
}

/// Validate accumulated fields: reject on the first missing required
/// field, else read `success`, where any text but `true` counts as false.
pub fn validate(f: Fields) -> (r: Result<Submission, CollectorError>)
    ensures
        validation_view(r) == spec_validate(f@),
{
    let package = match f.package {
        None => {
            return Err(CollectorError::MissingPackage);
        },
        Some(p) => p,
    };
    let arch = match f.arch {
        None => {
            return Err(CollectorError::MissingArch);
        },
        Some(a) => a,
    };
    let success_text = match f.success {
        None => {
            return Err(CollectorError::MissingSuccess);
        },
        Some(s) => s,
    };
    let success = success_text == String::from_str("true");
    Ok(Submission { package, arch, success, log: f.log })
}

/// Whether a provided secret matches the configured one exactly.
pub open spec fn secret_ok(provided: Option<Seq<char>>, expected: Seq<char>) -> bool {
    match provided {
        Some(s) => s == expected,
        None => false,
    }
}

/// The view of the provided secret header, if one came.
pub open spec fn opt_secret_view(o: Option<&String>) -> Option<Seq<char>> {
    match o {
        Some(s) => Some(s@),
        None => None,
    }
}

/// Compare the provided secret header against the configured secret by
/// exact equality; absence never matches.
pub fn check_secret(provided: Option<&String>, expected: &String) -> (r: bool)
    ensures
        r == secret_ok(opt_secret_view(provided), expected@),
{
    match provided {
        Some(p) => *p == *expected,
        None => false,
    }
}

/// The blob filename a submission's log is stored under.
pub open spec fn spec_log_filename(package: Seq<char>, arch: Seq<char>) -> Seq<char> {
    package + "-"@ + arch + ".log"@
}

/// Derive the blob filename `{package}-{arch}.log`.
pub fn log_filename(package: &String, arch: &String) -> (r: String)
    ensures
        r@ == spec_log_filename(package@, arch@),
{
    let mut r = package.clone();
    r.append("-");
    r.append(arch.as_str());
    r.append(".log");
    r
}

/// What an accepted submission hands back to the transport layer: the
/// derived blob filename, already recorded in the store, and the log
/// payload as delivered, for the best-effort blob write.
pub struct Accepted {
    pub filename: String,
    pub log: Vec<u8>,
}

/// Handle one submission against the authoritative store. The secret is
/// judged first: on a bad or missing secret the submission is rejected
/// with no effect whatever the fields hold. Then the fields are
/// accumulated and validated; a missing required field is rejected, again
/// with no effect. Only a valid submission touches the store, and it
/// upserts exactly its own (package, architecture) record, with the log
/// filename derived from the two. The blob write itself is the caller's,
/// best-effort, from the returned payload; the store write is
/// authoritative and has already happened on `Ok`.
pub fn handle_submission(
    provided_secret: Option<&String>,
    expected_secret: &String,
    parts: &Vec<FormPart>,
    store: &mut ResultStore,
) -> (r: Result<Accepted, CollectorError>)
    requires
        old(store).wf(),
    ensures
        final(store).wf(),
        !secret_ok(opt_secret_view(provided_secret), expected_secret@) ==> (r matches Err(e) && e
            == CollectorError::InvalidSecret && final(store)@ == old(store)@),
        secret_ok(opt_secret_view(provided_secret), expected_secret@) ==> match spec_validate(
            spec_accumulate(parts@),
        ) {
            Err(e) => r matches Err(e2) && e2 == e && final(store)@ == old(store)@,
            Ok(s) => r matches Ok(a) && a.filename@ == spec_log_filename(s.package, s.arch)
                && a.log@ == s.log && final(store)@ == spec_upsert(
                old(store)@,
                s.package,
                s.arch,
                ResultView { success: s.success, log: spec_log_filename(s.package, s.arch) },
            ),
        },
{
    if !check_secret(provided_secret, expected_secret) {
        return Err(CollectorError::InvalidSecret);
    }
    let fields = accumulate(parts);
    let s = match validate(fields) {
        Err(e) => {
            return Err(e);
        },
        Ok(s) => s,
    };
    let filename = log_filename(&s.package, &s.arch);
    store.upsert(s.package, s.arch, s.success, filename.clone());
    Ok(Accepted { filename, log: s.log })
}

} // verus!
