//! Worked examples: three annotated declarations, one for each way of
//! annotating a function, ready to be handed to the generator.

use vstd::prelude::*;
use vstd::string::*;
use crate::args::{ArgExpr, AssignedValue, ffi_key};
use crate::declaration::{Convention, ConventionView, Declaration, Signature};
use crate::text::texts_view;

verus! {

/// A declaration together with the arguments of its annotation.
#[derive(Clone, Debug)]
pub struct Annotated {
    pub args: Vec<ArgExpr>,
    pub declaration: Declaration,
}

/// A private function without parameters, annotated without arguments:
/// `fn my_wip_function()`.
pub fn my_wip_function() -> (r: Annotated)
    ensures
        r.args@.len() == 0,
        r.declaration.signature.name@ == "my_wip_function"@,
        r.declaration.signature.visibility@.len() == 0,
        !r.declaration.signature.is_const,
        !r.declaration.signature.is_async,
        !r.declaration.signature.is_unsafe,
        r.declaration.signature.convention@ == ConventionView::Native,
        r.declaration.signature.params@.len() == 0,
        r.declaration.signature.return_type@.len() == 0,
        r.declaration.signature.generics@.len() == 0,
        r.declaration.signature.where_clause@.len() == 0,
        r.declaration.body@ == "{}"@,
{
    Annotated {
        args: Vec::new(),
        declaration: Declaration {
            signature: Signature {
                visibility: String::new(),
                is_const: false,
                is_async: false,
                is_unsafe: false,
                convention: Convention::Native,
                name: String::from_str("my_wip_function"),
                generics: String::new(),
                params: Vec::new(),
                return_type: String::new(),
                where_clause: String::new(),
            },
            body: String::from_str("{}"),
        },
    }
}

/// A public function annotated with a comment:
/// `pub fn public_wip(a: i32) -> i32`, with the comment
/// `Need to check EINVAL`.
pub fn public_wip() -> (r: Annotated)
    ensures
        r.args@.len() == 1,
        r.args@[0] is Literal,
        r.args@[0]->Literal_0@ == "Need to check EINVAL"@,
        r.declaration.signature.name@ == "public_wip"@,
        r.declaration.signature.visibility@ == "pub"@,
        !r.declaration.signature.is_const,
        !r.declaration.signature.is_async,
        !r.declaration.signature.is_unsafe,
        r.declaration.signature.convention@ == ConventionView::Native,
        texts_view(r.declaration.signature.params@) == seq!["a: i32"@],
        r.declaration.signature.return_type@ == "i32"@,
        r.declaration.signature.generics@.len() == 0,
        r.declaration.signature.where_clause@.len() == 0,
        r.declaration.body@ == "{ a }"@,
{
    let mut args: Vec<ArgExpr> = Vec::new();
    args.push(ArgExpr::Literal(String::from_str("Need to check EINVAL")));
    let mut params: Vec<String> = Vec::new();
    params.push(String::from_str("a: i32"));
    assert(texts_view(params@) =~= seq!["a: i32"@]);
    Annotated {
        args,
        declaration: Declaration {
            signature: Signature {
                visibility: String::from_str("pub"),
                is_const: false,
                is_async: false,
                is_unsafe: false,
                convention: Convention::Native,
                name: String::from_str("public_wip"),
                generics: String::new(),
                params,
                return_type: String::from_str("i32"),
                where_clause: String::new(),
            },
            body: String::from_str("{ a }"),
        },
    }
}

/// A function that already carries the foreign qualifiers, annotated with
/// `ffi = true`: an unsafe `ffi_wip()` with the C calling convention.
pub fn ffi_wip() -> (r: Annotated)
    ensures
        r.args@.len() == 1,
        r.args@[0].accepted(),
        r.args@[0] is Assignment,
        r.args@[0]->value == AssignedValue::Boolean(true),
        r.declaration.signature.name@ == "ffi_wip"@,
        r.declaration.signature.visibility@.len() == 0,
        !r.declaration.signature.is_const,
        !r.declaration.signature.is_async,
        r.declaration.signature.is_unsafe,
        r.declaration.signature.convention@ == ConventionView::Named("C"@),
        r.declaration.signature.params@.len() == 0,
        r.declaration.signature.return_type@.len() == 0,
        r.declaration.signature.generics@.len() == 0,
        r.declaration.signature.where_clause@.len() == 0,
        r.declaration.body@ == "{}"@,
{
    proof {
        reveal_strlit("ffi");
        assert("ffi"@ =~= ffi_key());
    }
    let mut args: Vec<ArgExpr> = Vec::new();
    args.push(
        ArgExpr::Assignment { key: String::from_str("ffi"), value: AssignedValue::Boolean(true) },
    );
    Annotated {
        args,
        declaration: Declaration {
            signature: Signature {
                visibility: String::new(),
                is_const: false,
                is_async: false,
                is_unsafe: true,
                convention: Convention::Named(String::from_str("C")),
                name: String::from_str("ffi_wip"),
                generics: String::new(),
                params: Vec::new(),
                return_type: String::new(),
                where_clause: String::new(),
            },
            body: String::from_str("{}"),
        },
    }
}

} // verus!
