//! The audit log: one line of text for every declaration that was processed.

use vstd::prelude::*;
use vstd::string::*;
use crate::error::StubError;
use crate::text::{append_decimal, decimal};

verus! {

/// Where the name of a function stands in the source.
#[derive(Clone, Debug)]
pub struct SourceLocation {
    pub file: String,
    pub line: usize,
    pub column: usize,
}

/// A source location as a mathematical value.
pub struct SourceLocationView {
    pub file: Seq<char>,
    pub line: nat,
    pub column: nat,
}

impl View for SourceLocation {
    type V = SourceLocationView;

    open spec fn view(&self) -> SourceLocationView {
        SourceLocationView { file: self.file@, line: self.line as nat, column: self.column as nat }
    }
}

/// What the log keeps of one declaration.
#[derive(Clone, Debug)]
pub struct AuditRecord {
    pub name: String,
    /// The comment; empty for none.
    pub comment: String,
    pub location: Option<SourceLocation>,
}

/// An audit record as a mathematical value.
pub struct AuditRecordView {
    pub name: Seq<char>,
    pub comment: Seq<char>,
    pub location: Option<SourceLocationView>,
}

impl View for AuditRecord {
    type V = AuditRecordView;

    open spec fn view(&self) -> AuditRecordView {
        AuditRecordView {
            name: self.name@,
            comment: self.comment@,
            location: match self.location {
                Some(l) => Some(l@),
                None => None,
            },
        }
    }
}

impl SourceLocationView {
    /// The tag of a location: `<file>:line <L>:col <C>`.
    pub open spec fn tag(self) -> Seq<char> {
        self.file + seq![':', 'l', 'i', 'n', 'e', ' '] + decimal(self.line) + seq![
            ':',
            'c',
            'o',
            'l',
            ' ',
        ] + decimal(self.column)
    }
}

impl AuditRecordView {
    /// What follows the name where there is a comment: ` # <comment>`.
    pub open spec fn comment_part(self) -> Seq<char> {
        if self.comment.len() == 0 {
            Seq::empty()
        } else {
            seq![' ', '#', ' '] + self.comment
        }
    }

    /// What ends the line where there is a location: ` (<tag>)`.
    pub open spec fn location_part(self) -> Seq<char> {
        match self.location {
            Some(l) => seq![' ', '('] + l.tag() + seq![')'],
            None => Seq::empty(),
        }
    }

    /// The record's line in the log, without the newline that ends it.
    pub open spec fn line(self) -> Seq<char> {
        self.name + self.comment_part() + self.location_part()
    }
}

impl SourceLocation {
    /// A copy of the location.
    pub fn duplicate(&self) -> (r: SourceLocation)
        ensures
            r@ == self@,
    {
        SourceLocation { file: self.file.clone(), line: self.line, column: self.column }
    }

    /// The location's tag in a log line.
    pub fn tag(&self) -> (r: String)
        ensures
            r@ == self@.tag(),
    {
        proof {
            reveal_strlit(":line ");
            reveal_strlit(":col ");
            assert(":line "@ =~= seq![':', 'l', 'i', 'n', 'e', ' ']);
            assert(":col "@ =~= seq![':', 'c', 'o', 'l', ' ']);
        }
        let mut r = self.file.clone();
        r.append(":line ");
        append_decimal(&mut r, self.line);
        r.append(":col ");
        append_decimal(&mut r, self.column);
        r
    }
}

impl AuditRecord {
    /// The record's line in the log, without the newline that ends it.
    pub fn line(&self) -> (r: String)
        ensures
            r@ == self@.line(),
    {
        proof {
            reveal_strlit(" # ");
            reveal_strlit(" (");
            reveal_strlit(")");
            assert(" # "@ =~= seq![' ', '#', ' ']);
            assert(" ("@ =~= seq![' ', '(']);
            assert(")"@ =~= seq![')']);
        }
        let mut r = self.name.clone();
        if !self.comment.as_str().is_empty() {
            r.append(" # ");
            r.append(self.comment.as_str());
        }
        assert(r@ =~= self@.name + self@.comment_part());
        match &self.location {
            Some(l) => {
                let tag = l.tag();
                r.append(" (");
                r.append(tag.as_str());
                r.append(")");
                assert(r@ =~= self@.line());
            },
            None => {
                assert(r@ =~= self@.line());
            },
        }
        r
    }
}

/// The two logs that a record can be made for.
#[derive(Clone, Copy, Debug, PartialEq, Eq, Structural)]
pub enum LogKind {
    /// The general log: the name, and the comment if there is one.
    General,
    /// The located log, which is a file of its own: the same, and the place
    /// of the function's name.
    Located,
}

/// What became of the attempt to append a record's line to the log.
#[derive(Clone, Copy, Debug, PartialEq, Eq, Structural)]
pub enum AuditOutcome {
    /// The line was appended.
    Written,
    /// No destination is configured, or it could not be opened.
    DestinationUnavailable,
    /// The destination was opened and the write failed.
    WriteFailed,
}

/// What generation does after the attempt to log.
#[derive(Clone, Copy, Debug, PartialEq, Eq, Structural)]
pub enum AuditVerdict {
    /// Emit the stub.
    Proceed,
    /// Emit the stub and report the warning.
    ProceedWithWarning(StubError),
    /// Emit nothing and fail with the error.
    Abort(StubError),
}

/// The verdict on each outcome: a log that cannot be reached is reported and
/// passed over, a log that was reached and not written stops generation.
pub open spec fn verdict_of(outcome: AuditOutcome) -> AuditVerdict {
    match outcome {
        AuditOutcome::Written => AuditVerdict::Proceed,
        AuditOutcome::DestinationUnavailable => AuditVerdict::ProceedWithWarning(
            StubError::AuditDestinationUnavailable,
        ),
        AuditOutcome::WriteFailed => AuditVerdict::Abort(StubError::AuditWriteFailure),
    }
}

/// Decides what generation does after the attempt to log.
pub fn audit_verdict(outcome: AuditOutcome) -> (r: AuditVerdict)
    ensures
        r == verdict_of(outcome),
{
    match outcome {
        AuditOutcome::Written => AuditVerdict::Proceed,
        AuditOutcome::DestinationUnavailable => AuditVerdict::ProceedWithWarning(
            StubError::AuditDestinationUnavailable,
        ),
        AuditOutcome::WriteFailed => AuditVerdict::Abort(StubError::AuditWriteFailure),
    }
}

/// Generation stops after logging exactly when the error is a fatal one, and
/// the only error it stops with is the failed write.
pub proof fn verdict_follows_severity(outcome: AuditOutcome)
    ensures
        verdict_of(outcome) is Abort <==> outcome is WriteFailed,
        verdict_of(outcome) is Abort ==> verdict_of(outcome)->Abort_0.fatal(),
        verdict_of(outcome) is ProceedWithWarning ==> !verdict_of(outcome)->ProceedWithWarning_0.fatal(),
{
}

/// Records with the same content have the same line: logging one declaration
/// twice gives two identical lines.
pub proof fn equal_records_equal_lines(a: AuditRecord, b: AuditRecord)
    requires
        a@ == b@,
    ensures
        a@.line() == b@.line(),
{
}

/// A line starts with the name, and is the name alone exactly when the record
/// has neither comment nor location.
pub proof fn line_starts_with_name(r: AuditRecordView)
    ensures
        r.line().len() >= r.name.len(),
        r.line().subrange(0, r.name.len() as int) == r.name,
        (r.comment.len() == 0 && r.location is None) <==> r.line() == r.name,
{
    assert(r.line().subrange(0, r.name.len() as int) =~= r.name);
    if r.comment.len() == 0 && r.location is None {
        assert(r.line() =~= r.name);
    } else {
        assert(r.comment_part().len() + r.location_part().len() > 0);
        assert(r.line().len() > r.name.len());
    }
}

} // verus!
