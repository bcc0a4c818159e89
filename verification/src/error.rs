use crate::text::{push_decimal, spec_decimal};
use vstd::prelude::*;
use vstd::string::StringExecFns;

verus! {

/// The machine-readable tag of a parse failure.
#[derive(Debug, PartialEq, Eq, Hash)]
pub enum ErrorKind {
    /// The input ended in the middle of a read.
    TruncatedInput,
    /// The first four bytes are not `0xCAFEBABE`.
    BadMagic,
    /// A constant-pool entry starts with a tag that names no variant.
    UnknownPoolTag { tag: u8 },
    /// The payload of a `Utf8` entry is not valid UTF-8.
    InvalidUtf8,
    /// The kind byte of a `MethodHandle` entry is outside 1..=9.
    BadMethodHandleKind { kind: u8 },
    /// A verification-type entry starts with a tag that names no variant.
    UnknownVerificationTag { tag: u8 },
    /// A stack-map frame starts with a type byte that names no frame shape.
    UnknownStackFrameType { ty: u8 },
    /// An annotation element value starts with a tag outside `B C D F I J S Z s e c @ [`.
    UnknownAnnotationValueTag { ch: u8 },
    /// An attribute carries a name that the resolver does not know.
    UnknownAttributeName { name: String },
    /// A pool index points behind the last slot of the pool.
    OutOfBoundsIndex,
    /// A pool index is zero where an entry is required, or points at the
    /// reserved slot behind an eight-byte constant.
    BadPoolIndex,
    /// A pool slot holds another variant than the reference expects.
    /// Both fields are wire tags.
    PoolTypeMismatch { expected: u8, found: u8 },
    /// A field or method descriptor does not follow the descriptor grammar.
    BadDescriptor { detail: String },
    /// Annotations or `Code` attributes are nested deeper than the parser follows.
    NestingTooDeep,
}

/// The mathematical value of an [`ErrorKind`]: strings are sequences of characters.
pub enum ErrorKindView {
    TruncatedInput,
    BadMagic,
    UnknownPoolTag { tag: u8 },
    InvalidUtf8,
    BadMethodHandleKind { kind: u8 },
    UnknownVerificationTag { tag: u8 },
    UnknownStackFrameType { ty: u8 },
    UnknownAnnotationValueTag { ch: u8 },
    UnknownAttributeName { name: Seq<char> },
    OutOfBoundsIndex,
    BadPoolIndex,
    PoolTypeMismatch { expected: u8, found: u8 },
    BadDescriptor { detail: Seq<char> },
    NestingTooDeep,
}

impl View for ErrorKind {
    type V = ErrorKindView;

    open spec fn view(&self) -> ErrorKindView {
        match self {
            ErrorKind::TruncatedInput => ErrorKindView::TruncatedInput,
            ErrorKind::BadMagic => ErrorKindView::BadMagic,
            ErrorKind::UnknownPoolTag { tag } => ErrorKindView::UnknownPoolTag { tag: *tag },
            ErrorKind::InvalidUtf8 => ErrorKindView::InvalidUtf8,
            ErrorKind::BadMethodHandleKind { kind } => ErrorKindView::BadMethodHandleKind {
                kind: *kind,
            },
            ErrorKind::UnknownVerificationTag { tag } => ErrorKindView::UnknownVerificationTag {
                tag: *tag,
            },
            ErrorKind::UnknownStackFrameType { ty } => ErrorKindView::UnknownStackFrameType {
                ty: *ty,
            },
            ErrorKind::UnknownAnnotationValueTag { ch } => ErrorKindView::UnknownAnnotationValueTag {
                ch: *ch,
            },
            ErrorKind::UnknownAttributeName { name } => ErrorKindView::UnknownAttributeName {
                name: name@,
            },
            ErrorKind::OutOfBoundsIndex => ErrorKindView::OutOfBoundsIndex,
            ErrorKind::BadPoolIndex => ErrorKindView::BadPoolIndex,
            ErrorKind::PoolTypeMismatch { expected, found } => ErrorKindView::PoolTypeMismatch {
                expected: *expected,
                found: *found,
            },
            ErrorKind::BadDescriptor { detail } => ErrorKindView::BadDescriptor { detail: detail@ },
            ErrorKind::NestingTooDeep => ErrorKindView::NestingTooDeep,
        }
    }
}

impl Clone for ErrorKind {
    fn clone(&self) -> (copy: ErrorKind)
        ensures
            copy@ == self@,
    {
        match self {
            ErrorKind::TruncatedInput => ErrorKind::TruncatedInput,
            ErrorKind::BadMagic => ErrorKind::BadMagic,
            ErrorKind::UnknownPoolTag { tag } => ErrorKind::UnknownPoolTag { tag: *tag },
            ErrorKind::InvalidUtf8 => ErrorKind::InvalidUtf8,
            ErrorKind::BadMethodHandleKind { kind } => ErrorKind::BadMethodHandleKind {
                kind: *kind,
            },
            ErrorKind::UnknownVerificationTag { tag } => ErrorKind::UnknownVerificationTag {
                tag: *tag,
            },
            ErrorKind::UnknownStackFrameType { ty } => ErrorKind::UnknownStackFrameType { ty: *ty },
            ErrorKind::UnknownAnnotationValueTag { ch } => ErrorKind::UnknownAnnotationValueTag {
                ch: *ch,
            },
            ErrorKind::UnknownAttributeName { name } => ErrorKind::UnknownAttributeName {
                name: name.clone(),
            },
            ErrorKind::OutOfBoundsIndex => ErrorKind::OutOfBoundsIndex,
            ErrorKind::BadPoolIndex => ErrorKind::BadPoolIndex,
            ErrorKind::PoolTypeMismatch { expected, found } => ErrorKind::PoolTypeMismatch {
                expected: *expected,
                found: *found,
            },
            ErrorKind::BadDescriptor { detail } => ErrorKind::BadDescriptor {
                detail: detail.clone(),
            },
            ErrorKind::NestingTooDeep => ErrorKind::NestingTooDeep,
        }
    }
}

/// A parse failure. Parsing stops at the first one.
#[derive(Debug, PartialEq, Eq, Hash)]
pub struct ParseErr {
    pub kind: ErrorKind,
}

impl Clone for ParseErr {
    fn clone(&self) -> (copy: ParseErr)
        ensures
            copy@ == self@,
    {
        ParseErr { kind: self.kind.clone() }
    }
}

impl View for ParseErr {
    type V = ErrorKindView;

    open spec fn view(&self) -> ErrorKindView {
        self.kind@
    }
}

impl ParseErr {
    /// A failure of the given kind.
    pub fn new(kind: ErrorKind) -> (e: ParseErr)
        ensures
            e.kind == kind,
    {
        ParseErr { kind }
    }

    /// A descriptor rejection whose detail is a fixed message.
    pub fn str(str: &'static str) -> (e: ParseErr)
        ensures
            e@ == (ErrorKindView::BadDescriptor { detail: str@ }),
    {
        ParseErr { kind: ErrorKind::BadDescriptor { detail: str.to_owned() } }
    }

    /// A descriptor rejection whose detail is a message built at run time.
    pub fn string(str: String) -> (e: ParseErr)
        ensures
            e@ == (ErrorKindView::BadDescriptor { detail: str@ }),
    {
        ParseErr { kind: ErrorKind::BadDescriptor { detail: str } }
    }
}

/// What a failure of the given kind says of itself, for a human reader.
pub open spec fn spec_detail(kind: ErrorKindView) -> Seq<char> {
    match kind {
        ErrorKindView::TruncatedInput => "Unexpected end of input"@,
        ErrorKindView::BadMagic => "Magic number is not 0xCAFEBABE"@,
        ErrorKindView::UnknownPoolTag { tag } => "Invalid CPInfo tag: "@ + spec_decimal(
            tag as nat,
        ),
        ErrorKindView::InvalidUtf8 => "Invalid utf8 in CpInfo::Utf8"@,
        ErrorKindView::BadMethodHandleKind {
            kind,
        } => "Invalid MethodHandle reference kind: "@ + spec_decimal(kind as nat),
        ErrorKindView::UnknownVerificationTag {
            tag,
        } => "Invalid VerificationTypeInfo tag: "@ + spec_decimal(tag as nat),
        ErrorKindView::UnknownStackFrameType { ty } => "Invalid StackMapFrame type: "@
            + spec_decimal(ty as nat),
        ErrorKindView::UnknownAnnotationValueTag {
            ch,
        } => "Invalid AnnotationElementValueValue tag: "@ + spec_decimal(ch as nat),
        ErrorKindView::UnknownAttributeName { name } => "Invalid Attribute name: "@ + name,
        ErrorKindView::OutOfBoundsIndex => "Constant Pool index out of Bounds"@,
        ErrorKindView::BadPoolIndex => "Constant Pool index names no entry"@,
        ErrorKindView::PoolTypeMismatch { expected, found } => "Expected constant with tag "@
            + spec_decimal(expected as nat) + ", found tag "@ + spec_decimal(found as nat),
        ErrorKindView::BadDescriptor { detail } => "Invalid descriptor: "@ + detail,
        ErrorKindView::NestingTooDeep => "Attributes or annotations are nested too deep"@,
    }
}

/// The message of a failure of the given kind.
pub open spec fn spec_message(kind: ErrorKindView) -> Seq<char> {
    "Could not parse class file: "@ + spec_detail(kind)
}

impl ParseErr {
    /// The message of the failure, for a human reader.
    pub fn message(&self) -> (text: String)
        ensures
            text@ == spec_message(self@),
    {
        let mut text = "Could not parse class file: ".to_owned();
        match &self.kind {
            ErrorKind::TruncatedInput => {
                text.append("Unexpected end of input");
            },
            ErrorKind::BadMagic => {
                text.append("Magic number is not 0xCAFEBABE");
            },
            ErrorKind::UnknownPoolTag { tag } => {
                text.append("Invalid CPInfo tag: ");
                push_decimal(&mut text, *tag as u32);
            },
            ErrorKind::InvalidUtf8 => {
                text.append("Invalid utf8 in CpInfo::Utf8");
            },
            ErrorKind::BadMethodHandleKind { kind } => {
                text.append("Invalid MethodHandle reference kind: ");
                push_decimal(&mut text, *kind as u32);
            },
            ErrorKind::UnknownVerificationTag { tag } => {
                text.append("Invalid VerificationTypeInfo tag: ");
                push_decimal(&mut text, *tag as u32);
            },
            ErrorKind::UnknownStackFrameType { ty } => {
                text.append("Invalid StackMapFrame type: ");
                push_decimal(&mut text, *ty as u32);
            },
            ErrorKind::UnknownAnnotationValueTag { ch } => {
                text.append("Invalid AnnotationElementValueValue tag: ");
                push_decimal(&mut text, *ch as u32);
            },
            ErrorKind::UnknownAttributeName { name } => {
                text.append("Invalid Attribute name: ");
                text.append(name.as_str());
            },
            ErrorKind::OutOfBoundsIndex => {
                text.append("Constant Pool index out of Bounds");
            },
            ErrorKind::BadPoolIndex => {
                text.append("Constant Pool index names no entry");
            },
            ErrorKind::PoolTypeMismatch { expected, found } => {
                text.append("Expected constant with tag ");
                push_decimal(&mut text, *expected as u32);
                text.append(", found tag ");
                push_decimal(&mut text, *found as u32);
                assert(text@ =~= spec_message(self@));
            },
            ErrorKind::BadDescriptor { detail } => {
                text.append("Invalid descriptor: ");
                text.append(detail.as_str());
            },
            ErrorKind::NestingTooDeep => {
                text.append("Attributes or annotations are nested too deep");
            },
        }
        assert(text@ =~= spec_message(self@));
        text
    }
}

} // verus!
