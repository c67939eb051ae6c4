//! Declarations, and the stubs that they are turned into.

use vstd::prelude::*;
use vstd::string::*;
use crate::text::{copy_texts, texts_view};

verus! {

/// How a function is called.
#[derive(Clone, Debug)]
pub enum Convention {
    /// No calling-convention qualifier.
    Native,
    /// The foreign qualifier without a name.
    Unnamed,
    /// The foreign qualifier with the name of a convention.
    Named(String),
}

/// A calling convention as a mathematical value.
pub enum ConventionView {
    Native,
    Unnamed,
    Named(Seq<char>),
}

impl View for Convention {
    type V = ConventionView;

    open spec fn view(&self) -> ConventionView {
        match self {
            Convention::Native => ConventionView::Native,
            Convention::Unnamed => ConventionView::Unnamed,
            Convention::Named(n) => ConventionView::Named(n@),
        }
    }
}

/// The signature of a function: texts for what is passed through untouched,
/// and the two qualifiers that a foreign export replaces.
#[derive(Clone, Debug)]
pub struct Signature {
    /// The visibility as written; empty for a private function.
    pub visibility: String,
    pub is_const: bool,
    pub is_async: bool,
    /// Whether the function is marked unsafe to call.
    pub is_unsafe: bool,
    pub convention: Convention,
    pub name: String,
    /// The generic parameters as written, angle brackets included; empty
    /// where there are none.
    pub generics: String,
    /// The parameters as written, one text each.
    pub params: Vec<String>,
    /// The return type as written; empty where none is given.
    pub return_type: String,
    /// The `where` clause as written; empty where there is none.
    pub where_clause: String,
}

/// A signature as a mathematical value.
pub struct SignatureView {
    pub visibility: Seq<char>,
    pub is_const: bool,
    pub is_async: bool,
    pub is_unsafe: bool,
    pub convention: ConventionView,
    pub name: Seq<char>,
    pub generics: Seq<char>,
    pub params: Seq<Seq<char>>,
    pub return_type: Seq<char>,
    pub where_clause: Seq<char>,
}

impl View for Signature {
    type V = SignatureView;

    open spec fn view(&self) -> SignatureView {
        SignatureView {
            visibility: self.visibility@,
            is_const: self.is_const,
            is_async: self.is_async,
            is_unsafe: self.is_unsafe,
            convention: self.convention@,
            name: self.name@,
            generics: self.generics@,
            params: texts_view(self.params@),
            return_type: self.return_type@,
            where_clause: self.where_clause@,
        }
    }
}

/// A function as it is handed in: its signature and its body, which no stub
/// keeps.
#[derive(Clone, Debug)]
pub struct Declaration {
    pub signature: Signature,
    pub body: String,
}

/// A declaration as a mathematical value.
pub struct DeclarationView {
    pub signature: SignatureView,
    pub body: Seq<char>,
}

impl View for Declaration {
    type V = DeclarationView;

    open spec fn view(&self) -> DeclarationView {
        DeclarationView { signature: self.signature@, body: self.body@ }
    }
}

/// A generated function. It has no body of its own to record: the body of
/// every stub is the same unconditional abort, since calling a stub is a
/// defect.
#[derive(Clone, Debug)]
pub struct Stub {
    pub signature: Signature,
    /// The documentation attached to the stub; empty for none.
    pub doc: String,
    /// The symbol under which the stub is exported without mangling, if it is.
    pub export_name: Option<String>,
}

/// A stub as a mathematical value.
pub struct StubView {
    pub signature: SignatureView,
    pub doc: Seq<char>,
    pub export_name: Option<Seq<char>>,
}

impl View for Stub {
    type V = StubView;

    open spec fn view(&self) -> StubView {
        StubView {
            signature: self.signature@,
            doc: self.doc@,
            export_name: match self.export_name {
                Some(n) => Some(n@),
                None => None,
            },
        }
    }
}

/// The attributes that a stub is printed with.
#[derive(Clone, Debug)]
pub struct StubAttributes {
    /// The documentation to attach, if any.
    pub doc: Option<String>,
    /// Whether the stub is exported under its declared name, unmangled.
    pub no_mangle: bool,
}

/// The attributes of a stub as a mathematical value.
pub struct StubAttributesView {
    pub doc: Option<Seq<char>>,
    pub no_mangle: bool,
}

impl View for StubAttributes {
    type V = StubAttributesView;

    open spec fn view(&self) -> StubAttributesView {
        StubAttributesView {
            doc: match self.doc {
                Some(d) => Some(d@),
                None => None,
            },
            no_mangle: self.no_mangle,
        }
    }
}

impl StubView {
    /// The attributes of the stub: its documentation exactly when that is
    /// not empty, and the export without mangling exactly when the stub has
    /// an exported name.
    pub open spec fn attributes(self) -> StubAttributesView {
        StubAttributesView {
            doc: if self.doc.len() == 0 {
                None
            } else {
                Some(self.doc)
            },
            no_mangle: self.export_name is Some,
        }
    }
}

/// The name of the platform's standard C calling convention.
pub open spec fn c_convention() -> Seq<char> {
    seq!['C']
}

impl SignatureView {
    /// The signature without its safety and calling-convention qualifiers.
    pub open spec fn stripped(self) -> SignatureView {
        SignatureView { is_unsafe: false, convention: ConventionView::Native, ..self }
    }

    /// The signature as a foreign export: whatever qualifiers it had are
    /// taken off, then it is marked unsafe to call and given the C calling
    /// convention.
    pub open spec fn foreign(self) -> SignatureView {
        SignatureView {
            is_unsafe: true,
            convention: ConventionView::Named(c_convention()),
            ..self.stripped()
        }
    }

    /// Whether two signatures are the same apart from their safety and
    /// calling-convention qualifiers.
    pub open spec fn same_apart_from_qualifiers(self, other: SignatureView) -> bool {
        self.stripped() == other.stripped()
    }
}

/// The stub of a declaration, as a function of the declaration, the foreign
/// flag and the comment.
///
/// The comment becomes the stub's documentation. Without the flag the
/// signature is kept as it is and nothing is exported. With it the signature
/// becomes the foreign one and the stub is exported under the declared name.
pub open spec fn stub_of(decl: DeclarationView, is_ffi: bool, comment: Seq<char>) -> StubView {
    if is_ffi {
        StubView {
            signature: decl.signature.foreign(),
            doc: comment,
            export_name: Some(decl.signature.name),
        }
    } else {
        StubView { signature: decl.signature, doc: comment, export_name: None }
    }
}

impl Convention {
    /// A copy of the convention.
    pub fn duplicate(&self) -> (r: Convention)
        ensures
            r@ == self@,
    {
        match self {
            Convention::Native => Convention::Native,
            Convention::Unnamed => Convention::Unnamed,
            Convention::Named(n) => Convention::Named(n.clone()),
        }
    }
}

impl Signature {
    /// A copy of the signature.
    pub fn duplicate(&self) -> (r: Signature)
        ensures
            r@ == self@,
    {
        Signature {
            visibility: self.visibility.clone(),
            is_const: self.is_const,
            is_async: self.is_async,
            is_unsafe: self.is_unsafe,
            convention: self.convention.duplicate(),
            name: self.name.clone(),
            generics: self.generics.clone(),
            params: copy_texts(&self.params),
            return_type: self.return_type.clone(),
            where_clause: self.where_clause.clone(),
        }
    }

    /// The signature as a foreign export.
    pub fn to_foreign(&self) -> (r: Signature)
        ensures
            r@ == self@.foreign(),
    {
        proof {
            reveal_strlit("C");
            assert("C"@ =~= c_convention());
        }
        Signature {
            visibility: self.visibility.clone(),
            is_const: self.is_const,
            is_async: self.is_async,
            is_unsafe: true,
            convention: Convention::Named(String::from_str("C")),
            name: self.name.clone(),
            generics: self.generics.clone(),
            params: copy_texts(&self.params),
            return_type: self.return_type.clone(),
            where_clause: self.where_clause.clone(),
        }
    }
}

impl Stub {
    /// The attributes that the stub is printed with.
    pub fn attributes(&self) -> (r: StubAttributes)
        ensures
            r@ == self@.attributes(),
    {
        let doc = if self.doc.as_str().is_empty() {
            None
        } else {
            Some(self.doc.clone())
        };
        StubAttributes { doc, no_mangle: self.export_name.is_some() }
    }
}

/// Turns a declaration into its stub.
pub fn transform(decl: &Declaration, is_ffi: bool, comment: &str) -> (r: Stub)
    ensures
        r@ == stub_of(decl@, is_ffi, comment@),
{
    if is_ffi {
        Stub {
            signature: decl.signature.to_foreign(),
            doc: String::from_str(comment),
            export_name: Some(decl.signature.name.clone()),
        }
    } else {
        Stub {
            signature: decl.signature.duplicate(),
            doc: String::from_str(comment),
            export_name: None,
        }
    }
}

/// A foreign stub keeps nothing of the qualifiers that the declaration came
/// with: it is unsafe to call, has the C calling convention and no other, and
/// is exported under the declared name. Two declarations that differ only in
/// their qualifiers get the same foreign stub.
pub proof fn foreign_stub_is_canonical(
    decl: DeclarationView,
    other: DeclarationView,
    comment: Seq<char>,
)
    requires
        decl.signature.same_apart_from_qualifiers(other.signature),
    ensures
        stub_of(decl, true, comment).signature.is_unsafe,
        stub_of(decl, true, comment).signature.convention == ConventionView::Named(c_convention()),
        stub_of(decl, true, comment).export_name == Some(decl.signature.name),
        stub_of(decl, true, comment).signature.same_apart_from_qualifiers(decl.signature),
        stub_of(decl, true, comment) == stub_of(other, true, comment),
{
}

/// Making a foreign signature foreign again changes nothing, so the
/// qualifiers are never applied twice.
pub proof fn foreign_is_idempotent(sig: SignatureView)
    ensures
        sig.foreign().foreign() == sig.foreign(),
{
}

/// A stub that is not foreign has the declaration's signature, whole, and is
/// not exported; the declaration's body has no part in it.
pub proof fn plain_stub_keeps_signature(
    decl: DeclarationView,
    other: DeclarationView,
    comment: Seq<char>,
)
    requires
        decl.signature == other.signature,
    ensures
        stub_of(decl, false, comment).signature == decl.signature,
        stub_of(decl, false, comment).export_name.is_none(),
        stub_of(decl, false, comment).doc == comment,
        stub_of(decl, false, comment) == stub_of(other, false, comment),
{
}

/// A stub is exported without mangling exactly when it was made with the
/// foreign flag, and documented exactly when it was made with a comment
/// that is not empty.
pub proof fn attributes_follow_annotation(decl: DeclarationView, is_ffi: bool, comment: Seq<char>)
    ensures
        stub_of(decl, is_ffi, comment).attributes().no_mangle == is_ffi,
        stub_of(decl, is_ffi, comment).attributes().doc is Some <==> comment.len() > 0,
        comment.len() > 0 ==> stub_of(decl, is_ffi, comment).attributes().doc == Some(comment),
{
}

} // verus!
