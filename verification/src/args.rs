//! The argument list attached to one declaration: an optional comment and an
//! optional `ffi = <bool>` assignment, in any order.

use vstd::prelude::*;
use vstd::string::*;
use crate::error::StubError;

verus! {

/// The right-hand side of an assignment.
#[derive(Clone, Copy, Debug, PartialEq, Eq, Structural)]
pub enum AssignedValue {
    /// A boolean literal.
    Boolean(bool),
    /// Any other literal or expression.
    Other,
}

/// One argument expression, by shape.
#[derive(Clone, Debug)]
pub enum ArgExpr {
    /// A string literal, with its value.
    Literal(String),
    /// `key = value`.
    Assignment { key: String, value: AssignedValue },
    /// Anything else: a number, a call, a path.
    Other,
}

/// The metadata of one declaration.
#[derive(Clone, Debug)]
pub struct Annotation {
    pub comment: String,
    pub is_ffi: bool,
}

/// An annotation as a mathematical value.
pub struct AnnotationView {
    pub comment: Seq<char>,
    pub is_ffi: bool,
}

impl View for Annotation {
    type V = AnnotationView;

    open spec fn view(&self) -> AnnotationView {
        AnnotationView { comment: self.comment@, is_ffi: self.is_ffi }
    }
}

/// The three letters of the one key that an assignment may name.
pub open spec fn ffi_key() -> Seq<char> {
    seq!['f', 'f', 'i']
}

impl ArgExpr {
    /// Whether this is an assignment to `ffi`, whatever its value.
    pub open spec fn assigns_ffi(self) -> bool {
        match self {
            ArgExpr::Assignment { key, .. } => key@ == ffi_key(),
            _ => false,
        }
    }

    /// Whether the argument is one of the two accepted shapes.
    pub open spec fn accepted(self) -> bool {
        match self {
            ArgExpr::Literal(_) => true,
            ArgExpr::Assignment { key, value } => key@ == ffi_key() && value is Boolean,
            ArgExpr::Other => false,
        }
    }

    /// The error that a rejected argument at place `index` gives.
    pub open spec fn rejection(self, index: usize) -> StubError {
        if self.assigns_ffi() {
            StubError::InvalidFfiValue { index }
        } else {
            StubError::MalformedArgument { index }
        }
    }

    /// The annotation after this argument, given the one before it.
    pub open spec fn apply(self, before: AnnotationView) -> AnnotationView {
        match self {
            ArgExpr::Literal(s) => AnnotationView { comment: s@, is_ffi: before.is_ffi },
            ArgExpr::Assignment { key, value: AssignedValue::Boolean(b) } => AnnotationView {
                comment: before.comment,
                is_ffi: b,
            },
            _ => before,
        }
    }
}

/// The annotation when no argument is given: no comment, not foreign.
pub open spec fn default_annotation() -> AnnotationView {
    AnnotationView { comment: Seq::empty(), is_ffi: false }
}

/// The annotation that a list of accepted arguments resolves to: each argument
/// in turn overrides what an earlier one of its shape set.
pub open spec fn resolve(args: Seq<ArgExpr>) -> AnnotationView
    decreases args.len(),
{
    if args.len() == 0 {
        default_annotation()
    } else {
        args.last().apply(resolve(args.drop_last()))
    }
}

/// Whether every argument of the list is accepted.
pub open spec fn all_accepted(args: Seq<ArgExpr>) -> bool {
    forall|i: int| 0 <= i < args.len() ==> (#[trigger] args[i]).accepted()
}

/// Whether `index` is the place of the first argument that is not accepted.
pub open spec fn first_rejected(args: Seq<ArgExpr>, index: int) -> bool {
    &&& 0 <= index < args.len()
    &&& !args[index].accepted()
    &&& forall|j: int| 0 <= j < index ==> (#[trigger] args[j]).accepted()
}

/// The place that an argument error names; 0 for the other errors.
pub open spec fn index_of(e: StubError) -> int {
    match e {
        StubError::MalformedArgument { index } => index as int,
        StubError::InvalidFfiValue { index } => index as int,
        _ => 0,
    }
}

fn is_ffi_key(key: &String) -> (r: bool)
    ensures
        r == (key@ == ffi_key()),
{
    proof {
        reveal_strlit("ffi");
        assert("ffi"@ =~= ffi_key());
    }
    let wanted = String::from_str("ffi");
    *key == wanted
}

proof fn rejected_after_accepted_prefix(args: Seq<ArgExpr>, i: int)
    requires
        0 <= i < args.len(),
        all_accepted(args.take(i)),
        !args[i].accepted(),
    ensures
        first_rejected(args, i),
{
    assert forall|j: int| 0 <= j < i implies (#[trigger] args[j]).accepted() by {
        assert(args.take(i)[j] == args[j]);
    }
}

proof fn accepted_prefix_grows(args: Seq<ArgExpr>, i: int)
    requires
        0 <= i < args.len(),
        all_accepted(args.take(i)),
        args[i].accepted(),
    ensures
        all_accepted(args.take(i + 1)),
        resolve(args.take(i + 1)) == args[i].apply(resolve(args.take(i))),
{
    assert(args.take(i + 1).drop_last() =~= args.take(i));
    assert(args.take(i + 1).last() == args[i]);
    assert forall|j: int| 0 <= j < i + 1 implies (#[trigger] args.take(i + 1)[j]).accepted() by {
        if j < i {
            assert(args.take(i)[j] == args[j]);
        }
    }
}

/// Resolves an argument list to its annotation.
///
/// Succeeds exactly when every argument is accepted. Otherwise the first
/// argument that is not accepted decides the error, which carries its place.
pub fn parse_arguments(args: &Vec<ArgExpr>) -> (r: Result<Annotation, StubError>)
    ensures
        match r {
            Ok(a) => all_accepted(args@) && a@ == resolve(args@),
            Err(e) => first_rejected(args@, index_of(e)) && e == args[index_of(e)].rejection(
                index_of(e) as usize,
            ),
        },
{
    let mut comment = String::new();
    let mut is_ffi = false;
    let mut i: usize = 0;
    while i < args.len()
        invariant
            i <= args.len(),
            all_accepted(args@.take(i as int)),
            (AnnotationView { comment: comment@, is_ffi }) == resolve(args@.take(i as int)),
        decreases args.len() - i,
    {
        match &args[i] {
            ArgExpr::Literal(s) => {
                comment = s.clone();
            },
            ArgExpr::Assignment { key, value } => {
                if !is_ffi_key(key) {
                    proof {
                        rejected_after_accepted_prefix(args@, i as int);
                    }
                    return Err(StubError::MalformedArgument { index: i });
                }
                match value {
                    AssignedValue::Boolean(b) => {
                        is_ffi = *b;
                    },
                    AssignedValue::Other => {
                        proof {
                            rejected_after_accepted_prefix(args@, i as int);
                        }
                        return Err(StubError::InvalidFfiValue { index: i });
                    },
                }
            },
            ArgExpr::Other => {
                proof {
                    rejected_after_accepted_prefix(args@, i as int);
                }
                return Err(StubError::MalformedArgument { index: i });
            },
        }
        proof {
            accepted_prefix_grows(args@, i as int);
        }
        i = i + 1;
    }
    proof {
        assert(args@.take(i as int) =~= args@);
    }
    Ok(Annotation { comment, is_ffi })
}

/// A lone string literal sets the comment to its value and leaves the
/// foreign flag off.
pub proof fn lone_comment_sets_only_comment(literal: ArgExpr)
    requires
        literal is Literal,
    ensures
        all_accepted(seq![literal]),
        resolve(seq![literal]) == (AnnotationView {
            comment: literal->Literal_0@,
            is_ffi: false,
        }),
{
    let args = seq![literal];
    assert(args.drop_last() =~= Seq::<ArgExpr>::empty());
    assert(args.last() == literal);
    reveal_with_fuel(resolve, 2);
}

/// A lone `ffi` assignment sets the flag to its literal and leaves the
/// comment empty.
pub proof fn lone_flag_sets_only_flag(flag: ArgExpr)
    requires
        flag.accepted(),
        flag is Assignment,
    ensures
        all_accepted(seq![flag]),
        resolve(seq![flag]).comment == Seq::<char>::empty(),
        flag->value == AssignedValue::Boolean(resolve(seq![flag]).is_ffi),
{
    let args = seq![flag];
    assert(args.drop_last() =~= Seq::<ArgExpr>::empty());
    assert(args.last() == flag);
    reveal_with_fuel(resolve, 2);
}

/// A comment and an `ffi` assignment resolve to the same annotation in
/// either order: the comment's value and the assignment's literal.
pub proof fn comment_and_flag_commute(literal: ArgExpr, flag: ArgExpr)
    requires
        literal is Literal,
        flag.accepted(),
        flag is Assignment,
    ensures
        all_accepted(seq![literal, flag]),
        all_accepted(seq![flag, literal]),
        resolve(seq![literal, flag]) == resolve(seq![flag, literal]),
        resolve(seq![literal, flag]).comment == literal->Literal_0@,
        flag->value == AssignedValue::Boolean(resolve(seq![literal, flag]).is_ffi),
{
    let a = seq![literal, flag];
    let b = seq![flag, literal];
    assert(a.drop_last() =~= seq![literal]);
    assert(b.drop_last() =~= seq![flag]);
    assert(a.last() == flag);
    assert(b.last() == literal);
    lone_comment_sets_only_comment(literal);
    lone_flag_sets_only_flag(flag);
}

/// Within a list of accepted arguments, a later `ffi` assignment overrides
/// every earlier one: the last one decides.
pub proof fn last_flag_wins(args: Seq<ArgExpr>, flag: ArgExpr)
    requires
        flag.accepted(),
        flag is Assignment,
    ensures
        flag->value == AssignedValue::Boolean(resolve(args.push(flag)).is_ffi),
        resolve(args.push(flag)).comment == resolve(args).comment,
{
    assert(args.push(flag).drop_last() =~= args);
    assert(args.push(flag).last() == flag);
}

} // verus!
