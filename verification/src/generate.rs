//! Generation: from arguments and declarations to stubs and audit records,
//! and from the fate of the audit lines to what is emitted.

use vstd::prelude::*;
use vstd::string::*;
use crate::args::{
    all_accepted, first_rejected, index_of, parse_arguments, resolve, AnnotationView, ArgExpr,
};
use crate::audit::{
    audit_verdict, verdict_of, AuditOutcome, AuditRecord, AuditRecordView, AuditVerdict,
    SourceLocation, SourceLocationView,
};
use crate::declaration::{stub_of, transform, Declaration, DeclarationView, Stub, StubView};
use crate::error::StubError;

verus! {

/// What one declaration gives: its stub, and the record to log before the
/// stub is emitted.
#[derive(Clone, Debug)]
pub struct Generated {
    pub stub: Stub,
    pub record: AuditRecord,
}

/// A generated pair as a mathematical value.
pub struct GeneratedView {
    pub stub: StubView,
    pub record: AuditRecordView,
}

impl View for Generated {
    type V = GeneratedView;

    open spec fn view(&self) -> GeneratedView {
        GeneratedView { stub: self.stub@, record: self.record@ }
    }
}

/// One declaration of a batch, with the place of its name if it is known.
#[derive(Clone, Debug)]
pub struct BatchItem {
    pub declaration: Declaration,
    pub location: Option<SourceLocation>,
}

/// The view of an optional location.
pub open spec fn location_view(location: Option<SourceLocation>) -> Option<SourceLocationView> {
    match location {
        Some(l) => Some(l@),
        None => None,
    }
}

/// What a declaration gives under an annotation: the stub of the
/// declaration, and a record of its name, the comment and the location.
pub open spec fn generated_of(
    decl: DeclarationView,
    annotation: AnnotationView,
    location: Option<SourceLocationView>,
) -> GeneratedView {
    GeneratedView {
        stub: stub_of(decl, annotation.is_ffi, annotation.comment),
        record: AuditRecordView {
            name: decl.signature.name,
            comment: annotation.comment,
            location,
        },
    }
}

/// The annotation of every declaration of a batch: the shared flag, and no
/// comment.
pub open spec fn batch_annotation(is_ffi: bool) -> AnnotationView {
    AnnotationView { comment: Seq::empty(), is_ffi }
}

fn generate_with(
    decl: &Declaration,
    is_ffi: bool,
    comment: &str,
    location: &Option<SourceLocation>,
) -> (r: Generated)
    ensures
        r@ == generated_of(
            decl@,
            AnnotationView { comment: comment@, is_ffi },
            location_view(*location),
        ),
{
    let stub = transform(decl, is_ffi, comment);
    let place = match location {
        Some(l) => Some(l.duplicate()),
        None => None,
    };
    let record = AuditRecord {
        name: decl.signature.name.clone(),
        comment: String::from_str(comment),
        location: place,
    };
    Generated { stub, record }
}

/// Generates the stub and the audit record of one annotated declaration.
///
/// Fails exactly when an argument is not accepted, with the error of the
/// first such argument; nothing is generated then.
pub fn generate(args: &Vec<ArgExpr>, decl: &Declaration, location: &Option<SourceLocation>) -> (r:
    Result<Generated, StubError>)
    ensures
        match r {
            Ok(g) => all_accepted(args@) && g@ == generated_of(
                decl@,
                resolve(args@),
                location_view(*location),
            ),
            Err(e) => first_rejected(args@, index_of(e)) && e == args[index_of(e)].rejection(
                index_of(e) as usize,
            ),
        },
{
    match parse_arguments(args) {
        Ok(annotation) => Ok(
            generate_with(decl, annotation.is_ffi, annotation.comment.as_str(), location),
        ),
        Err(e) => Err(e),
    }
}

/// Generates the stubs and audit records of a batch under its shared flag:
/// one for each declaration, in the order of the declarations.
pub fn generate_batch(is_ffi: bool, items: &Vec<BatchItem>) -> (r: Vec<Generated>)
    ensures
        r.len() == items.len(),
        forall|i: int|
            0 <= i < items.len() ==> (#[trigger] r[i])@ == generated_of(
                items[i].declaration@,
                batch_annotation(is_ffi),
                location_view(items[i].location),
            ),
{
    proof {
        reveal_strlit("");
        assert(""@ =~= Seq::<char>::empty());
    }
    let mut r: Vec<Generated> = Vec::new();
    let mut i: usize = 0;
    while i < items.len()
        invariant
            i <= items.len(),
            r.len() == i,
            ""@ == Seq::<char>::empty(),
            forall|j: int|
                0 <= j < i ==> (#[trigger] r[j])@ == generated_of(
                    items[j].declaration@,
                    batch_annotation(is_ffi),
                    location_view(items[j].location),
                ),
        decreases items.len() - i,
    {
        let g = generate_with(&items[i].declaration, is_ffi, "", &items[i].location);
        r.push(g);
        i = i + 1;
    }
    r
}

/// A generated pair together with what became of its audit line.
#[derive(Clone, Debug)]
pub struct Logged {
    pub generated: Generated,
    pub outcome: AuditOutcome,
}

/// What is handed back for one declaration: the stub, and the warning to
/// report if its audit line could not be placed.
#[derive(Clone, Debug)]
pub struct Emission {
    pub stub: Stub,
    pub warning: Option<StubError>,
}

/// What one logged pair ends in: the stub, with a warning where the log
/// could not be reached, or the error of a failed write.
pub open spec fn emission_of(stub: StubView, outcome: AuditOutcome) -> Result<
    (StubView, Option<StubError>),
    StubError,
> {
    match verdict_of(outcome) {
        AuditVerdict::Proceed => Ok((stub, None)),
        AuditVerdict::ProceedWithWarning(w) => Ok((stub, Some(w))),
        AuditVerdict::Abort(e) => Err(e),
    }
}

/// Ends the generation of one declaration once its audit line was attempted.
pub fn conclude(generated: Generated, outcome: AuditOutcome) -> (r: Result<Emission, StubError>)
    ensures
        match r {
            Ok(e) => emission_of(generated.stub@, outcome) == Ok::<
                (StubView, Option<StubError>),
                StubError,
            >((e.stub@, e.warning)),
            Err(e) => emission_of(generated.stub@, outcome) == Err::<
                (StubView, Option<StubError>),
                StubError,
            >(e),
        },
{
    match audit_verdict(outcome) {
        AuditVerdict::Proceed => Ok(Emission { stub: generated.stub, warning: None }),
        AuditVerdict::ProceedWithWarning(w) => Ok(
            Emission { stub: generated.stub, warning: Some(w) },
        ),
        AuditVerdict::Abort(e) => Err(e),
    }
}

/// Whether the audit line of some member of the batch failed to be written.
pub open spec fn some_write_failed(logged: Seq<Logged>) -> bool {
    exists|i: int| 0 <= i < logged.len() && (#[trigger] logged[i]).outcome is WriteFailed
}

/// Ends the generation of a batch once every audit line was attempted.
///
/// One failed write fails the whole batch and nothing is emitted. Otherwise
/// every member is emitted, in order, each with its warning if it has one.
pub fn conclude_batch(logged: &Vec<Logged>) -> (r: Result<Vec<Emission>, StubError>)
    ensures
        match r {
            Ok(out) => {
                &&& !some_write_failed(logged@)
                &&& out.len() == logged.len()
                &&& forall|i: int|
                    0 <= i < logged.len() ==> emission_of(
                        logged[i].generated.stub@,
                        logged[i].outcome,
                    ) == Ok::<(StubView, Option<StubError>), StubError>(
                        ((#[trigger] out[i]).stub@, out[i].warning),
                    )
            },
            Err(e) => some_write_failed(logged@) && e == StubError::AuditWriteFailure,
        },
{
    let mut out: Vec<Emission> = Vec::new();
    let mut i: usize = 0;
    while i < logged.len()
        invariant
            i <= logged.len(),
            out.len() == i,
            forall|j: int| 0 <= j < i ==> !((#[trigger] logged[j]).outcome is WriteFailed),
            forall|j: int|
                0 <= j < i ==> emission_of(logged[j].generated.stub@, logged[j].outcome) == Ok::<
                    (StubView, Option<StubError>),
                    StubError,
                >(((#[trigger] out[j]).stub@, out[j].warning)),
        decreases logged.len() - i,
    {
        let item = &logged[i];
        let stub = Stub {
            signature: item.generated.stub.signature.duplicate(),
            doc: item.generated.stub.doc.clone(),
            export_name: match &item.generated.stub.export_name {
                Some(n) => Some(n.clone()),
                None => None,
            },
        };
        match audit_verdict(item.outcome) {
            AuditVerdict::Proceed => {
                out.push(Emission { stub, warning: None });
            },
            AuditVerdict::ProceedWithWarning(w) => {
                out.push(Emission { stub, warning: Some(w) });
            },
            AuditVerdict::Abort(e) => {
                return Err(e);
            },
        }
        i = i + 1;
    }
    Ok(out)
}

/// Every member of a batch gets the stub that it would get alone under the
/// batch's flag: its own signature when the flag is off, the foreign
/// signature exported under its own name when the flag is on. Its record
/// names it and has no comment.
pub proof fn batch_member_is_transformed_alone(
    decl: DeclarationView,
    is_ffi: bool,
    location: Option<SourceLocationView>,
)
    ensures
        generated_of(decl, batch_annotation(is_ffi), location).stub == stub_of(
            decl,
            is_ffi,
            Seq::empty(),
        ),
        !is_ffi ==> generated_of(decl, batch_annotation(is_ffi), location).stub.signature
            == decl.signature,
        is_ffi ==> generated_of(decl, batch_annotation(is_ffi), location).stub.signature
            == decl.signature.foreign(),
        is_ffi ==> generated_of(decl, batch_annotation(is_ffi), location).stub.export_name == Some(
            decl.signature.name,
        ),
        generated_of(decl, batch_annotation(is_ffi), location).record.name == decl.signature.name,
        generated_of(decl, batch_annotation(is_ffi), location).record.comment.len() == 0,
{
}

/// Generating from the same declaration, annotation and location twice gives
/// the same stub and the same audit line.
pub proof fn generation_is_repeatable(
    first: Declaration,
    second: Declaration,
    annotation: AnnotationView,
    location: Option<SourceLocationView>,
)
    requires
        first@ == second@,
    ensures
        generated_of(first@, annotation, location) == generated_of(second@, annotation, location),
        generated_of(first@, annotation, location).record.line() == generated_of(
            second@,
            annotation,
            location,
        ).record.line(),
{
}

} // verus!
