//! A parser for the class files of the Java Virtual Machine.
//!
//! [`parse_class_file`] reads a class file into a [`ClassFile`]: the
//! header, the constant pool, the fields and methods, and the attributes,
//! each attribute as the variant that its name selects. Indices into the
//! constant pool are kept as [`FromPool`] references, which carry in their
//! type the variant of the entry that they are expected to name and are
//! checked when they are looked up.
//!
//! The [`descriptor`] module reads and prints the descriptors of fields and
//! methods; [`display_class`] gives a short listing of a class;
//! [`machine`] holds the operand stack and the local variables of a frame.
//!
//! What the parser yields is stated as a function of the bytes in the
//! `spec_parse_*` functions of the [`parse`] module, and the functions that
//! read are proved to compute it. Data is spoken of by its view: the
//! `…View` type of a type holds sequences where the type holds vectors and
//! strings.

use vstd::prelude::*;

pub mod cursor;
pub mod descriptor;
pub mod display;
pub mod error;
pub mod machine;
pub mod model;
pub mod parse;
pub mod text;
pub mod validate;

pub use cursor::Data;
pub use display::display_class;
pub use descriptor::{FieldDescriptor, FieldType, MethodDescriptor, MethodType};
pub use error::{ErrorKind, ErrorKindView, ParseErr};
pub use machine::{LocalVariables, OperandStack};
pub use model::attribute::{
    Annotation, AnnotationElementValue, AnnotationElementValuePair, AnnotationElementValueValue,
    AttributeCodeException, AttributeInfo, AttributeInfoInner, AttributeInnerClass,
    AttributeLineNumber, AttributeLocalVariableTable, BootstrapMethod, Module, ModuleExports,
    ModuleOpens, ModuleProvides, ModuleRequires, ParameterAnnotation, StackMapFrame,
    VerificationTypeInfo,
};
pub use model::access::{ClassAccessFlag, FieldAccessFlags, InnerClassAccessFlags, MethodAccessFlag};
pub use model::cp_info;
pub use model::cp_info::{FromCpInfo, FromPool, ValidateCpInfo};
pub use model::{ClassFile, CpInfo, CpInfoInner, FieldInfo, MethodInfo};
pub use parse::attribute::MAX_NESTING_DEPTH;
pub use parse::class::resolve_attributes;
pub use parse::{parse_vec, Parse};

verus! {

/// Parses a class file: the magic number, the versions, the constant pool,
/// the bodies, and then every attribute against the pool.
///
/// The result is a function of the bytes alone. Bytes behind the class file
/// are not looked at.
pub fn parse_class_file(data: &[u8]) -> (r: Result<ClassFile, ParseErr>)
    ensures
        parse::gives(r, parse::class::spec_parse_class_file(data@)),
        r matches Ok(class) ==> {
            &&& class.magic == parse::class::MAGIC
            &&& class@.is_resolved()
            &&& parse::pool::slots_are_paired(class@.constant_pool)
        },
{
    let mut data = Data::new(data);
    ClassFile::parse(&mut data)
}

} // verus!
