use crate::model::cp_info::{Class, MethodHandle, NameAndType, Package, Utf8};
use crate::model::cp_info::FromPool;
use crate::model::{views, CpInfoInner};
use vstd::prelude::*;

verus! {

/// An attribute of a class, a field, a method or a `Code` body.
///
/// The parser first keeps the payload as it stands (`Unknown`) and, once the
/// constant pool is known, replaces it by the variant that the name selects.
#[derive(Debug, Hash, PartialEq, Eq)]
pub struct AttributeInfo {
    /// The name of the attribute. It selects the variant.
    pub attribute_name_index: FromPool<Utf8>,
    /// The length of the payload in bytes, as the file declares it.
    pub attribute_length: u32,
    /// The payload.
    pub inner: AttributeInfoInner,
}

/// The payload of an attribute, by variant.
#[derive(Debug, Hash, PartialEq, Eq)]
pub enum AttributeInfoInner {
    /// The payload as it stands in the file, not yet resolved.
    Unknown { attribute_content: Vec<u8> },
    /// On a field: its constant value.
    ConstantValue {
        /// A `Long`, `Float`, `Double`, `Integer` or `String` entry.
        constantvalue_index: FromPool<CpInfoInner>,
    },
    /// On a method: its instructions and what belongs to them.
    Code {
        /// The greatest depth of the operand stack.
        max_stack: u16,
        /// The number of local variables, parameters included.
        max_locals: u16,
        /// The instructions.
        code: Vec<u8>,
        /// The exception handlers.
        exception_table: Vec<AttributeCodeException>,
        /// The attributes of the code, resolved as the outer ones are.
        attributes: Vec<AttributeInfo>,
    },
    /// On a `Code` attribute: the frames that the verifier checks against.
    StackMapTable { number_of_entries: u16, entries: Vec<StackMapFrame> },
    /// On a method: the checked exceptions that it may throw.
    Exceptions { exception_index_table: Vec<FromPool<Class>> },
    /// On a class: its inner classes.
    InnerClasses { classes: Vec<AttributeInnerClass> },
    /// On a local or anonymous class: the method that encloses it.
    EnclosingMethod {
        /// The innermost enclosing class.
        class_index: FromPool<Class>,
        /// The enclosing method; absent where the class is not enclosed by one.
        method_index: FromPool<Option<NameAndType>>,
    },
    /// The member does not appear in the source.
    Synthetic,
    /// The generic signature of the member.
    Signature { signature_index: FromPool<Utf8> },
    /// On a class: the name of its source file.
    SourceFile { sourcefile_index: FromPool<Utf8> },
    /// On a class: debugging information, the whole payload as it stands.
    SourceDebugExtension { debug_extension: Vec<u8> },
    /// On a `Code` attribute: where the lines of the source begin.
    LineNumberTable { line_number_table: Vec<AttributeLineNumber> },
    /// On a `Code` attribute: the local variables, with descriptors.
    LocalVariableTable { local_variable_table: Vec<AttributeLocalVariableTable> },
    /// On a `Code` attribute: the local variables, with signatures.
    LocalVariableTypeTable { local_variable_table: Vec<AttributeLocalVariableTable> },
    /// The member is deprecated.
    Deprecated,
    /// The annotations that reflection shows.
    RuntimeVisibleAnnotations { annotations: Vec<Annotation> },
    /// The annotations that reflection does not show.
    RuntimeInvisibleAnnotations { annotations: Vec<Annotation> },
    /// On a method: the annotations of its parameters that reflection shows.
    RuntimeVisibleParameterAnnotations { parameter_annotations: Vec<ParameterAnnotation> },
    /// On a method: the annotations of its parameters that reflection does not show.
    RuntimeInvisibleParameterAnnotations { parameter_annotations: Vec<ParameterAnnotation> },
    /// On an element of an annotation type: its default value.
    AnnotationDefault { default_value: AnnotationElementValue },
    /// On a class: the bootstrap methods of its dynamic call sites.
    BootstrapMethods { bootstrap_methods: Vec<BootstrapMethod> },
    /// On a module descriptor: what the module requires, exports, opens, uses and provides.
    Module(Box<Module>),
    MethodParameters,
    ModulePackages,
    ModuleMainClass,
    NestHost,
    NestMembers,
    Record,
}

/// An exception handler in the instructions of a method.
#[derive(Debug, Clone, Copy, Hash, PartialEq, Eq)]
pub struct AttributeCodeException {
    /// Where the handler begins to be active, inclusive.
    pub start_pc: u16,
    /// Where the handler ceases to be active, exclusive.
    pub end_pc: u16,
    /// Where the handler starts.
    pub handler_pc: u16,
    /// The class of exceptions caught; zero for all.
    pub catch_type: u16,
}

/// The types of the locals and of the operand stack at one instruction.
#[derive(Debug, Hash, PartialEq, Eq)]
pub enum StackMapFrame {
    /// The locals of the previous frame and an empty stack. Types 0 to 63.
    SameFrame { frame_type: u8 },
    /// The locals of the previous frame and one stack item. Types 64 to 127.
    SameLocals1StackItemFrame { frame_type: u8, stack: VerificationTypeInfo },
    /// As before, with the offset given. Type 247.
    SameLocals1StackItemFrameExtended {
        frame_type: u8,
        offset_delta: u16,
        stack: VerificationTypeInfo,
    },
    /// The locals of the previous frame without the last `251 - frame_type`,
    /// and an empty stack. Types 248 to 250.
    ChopFrame { frame_type: u8, offset_delta: u16 },
    /// The locals of the previous frame and an empty stack, with the offset
    /// given. Type 251.
    SameFrameExtended { frame_type: u8, offset_delta: u16 },
    /// The locals of the previous frame and `frame_type - 251` more, and an
    /// empty stack. Types 252 to 254.
    AppendFrame { frame_type: u8, offset_delta: u16, locals: Vec<VerificationTypeInfo> },
    /// All locals and the whole stack. Type 255.
    FullFrame {
        frame_type: u8,
        offset_delta: u16,
        locals: Vec<VerificationTypeInfo>,
        stack: Vec<VerificationTypeInfo>,
    },
}

/// The type of one local or one stack item in a stack-map frame.
#[derive(Debug, Clone, Copy, Hash, PartialEq, Eq)]
pub enum VerificationTypeInfo {
    /// Tag 0.
    Top { tag: u8 },
    /// Tag 1.
    Integer { tag: u8 },
    /// Tag 2.
    Float { tag: u8 },
    /// Tag 4.
    Long { tag: u8 },
    /// Tag 3.
    Double { tag: u8 },
    /// Tag 5.
    Null { tag: u8 },
    /// Tag 6.
    UninitializedThis { tag: u8 },
    /// Tag 7.
    Object { tag: u8, cpool_index: FromPool<Class> },
    /// Tag 8.
    Uninitialized { tag: u8, offset: u16 },
}

/// One inner class in an `InnerClasses` attribute.
#[derive(Debug, Clone, Copy, Hash, PartialEq, Eq)]
pub struct AttributeInnerClass {
    /// The inner class.
    pub inner_class_info_index: FromPool<Class>,
    /// The class that it is a member of; absent where it is not a member.
    pub outer_class_info_index: FromPool<Option<Class>>,
    /// Its simple name; absent where it is anonymous.
    pub inner_class_name_index: FromPool<Option<Utf8>>,
    /// A mask of `InnerClassAccessFlags` bits.
    pub inner_class_access_flags: u16,
}

/// One entry of a `LineNumberTable` attribute.
#[derive(Debug, Clone, Copy, Hash, PartialEq, Eq)]
pub struct AttributeLineNumber {
    /// The instruction at which the line begins.
    pub start_pc: u16,
    /// The number of the line in the source file.
    pub line_number: u16,
}

/// One entry of a `LocalVariableTable` or `LocalVariableTypeTable` attribute.
#[derive(Debug, Clone, Copy, Hash, PartialEq, Eq)]
pub struct AttributeLocalVariableTable {
    /// The variable has a value from `start_pc` on,
    pub start_pc: u16,
    /// for `length` instructions.
    pub length: u16,
    /// The name of the variable.
    pub name_index: FromPool<Utf8>,
    /// Its field descriptor or its field signature.
    pub descriptor_or_signature_index: FromPool<Utf8>,
    /// Its place among the locals.
    pub index: u16,
}

/// An annotation.
#[derive(Debug, Hash, PartialEq, Eq)]
pub struct Annotation {
    /// The type of the annotation, as a field descriptor.
    pub type_index: FromPool<Utf8>,
    /// The number of pairs, as the file declares it.
    pub num_element_value_pairs: u16,
    /// The elements of the annotation with their values.
    pub element_value_pairs: Vec<AnnotationElementValuePair>,
}

/// One element of an annotation with its value.
#[derive(Debug, Hash, PartialEq, Eq)]
pub struct AnnotationElementValuePair {
    /// The name of the element.
    pub element_name_index: FromPool<Utf8>,
    /// The value of the element.
    pub element_name_name: AnnotationElementValue,
}

/// The value of an element of an annotation.
#[derive(Debug, Hash, PartialEq, Eq)]
pub struct AnnotationElementValue {
    /// One of `B C D F I J S Z s e c @ [`, as a byte.
    pub tag: u8,
    /// The value; the tag decides the variant.
    pub value: AnnotationElementValueValue,
}

/// The value of an element of an annotation, by variant.
#[derive(Debug, Hash, PartialEq, Eq)]
pub enum AnnotationElementValueValue {
    /// Tags `B C D F I J S Z s`: a constant of the pool.
    ConstValueIndex { index: FromPool<CpInfoInner> },
    /// Tag `e`: a constant of an enum type.
    EnumConstValue { type_name_index: FromPool<Utf8>, const_name_index: FromPool<Utf8> },
    /// Tag `c`: a class, as a return descriptor.
    ClassInfoIndex { index: FromPool<Utf8> },
    /// Tag `@`: a nested annotation.
    AnnotationValue { annotation: Box<Annotation> },
    /// Tag `[`: an array of values.
    ArrayValue { values: Vec<AnnotationElementValue> },
}

/// The annotations of one parameter of a method.
#[derive(Debug, Hash, PartialEq, Eq)]
pub struct ParameterAnnotation {
    pub annotations: Vec<Annotation>,
}

/// One bootstrap method with its static arguments.
#[derive(Debug, Hash, PartialEq, Eq)]
pub struct BootstrapMethod {
    /// The method handle that is called.
    pub bootstrap_method_ref: FromPool<MethodHandle>,
    /// The arguments, each a constant of the pool.
    pub bootstrap_arguments: Vec<FromPool<CpInfoInner>>,
}

/// The payload of a `Module` attribute.
#[derive(Debug, Hash, PartialEq, Eq)]
pub struct Module {
    /// The module.
    pub module_name_index: FromPool<crate::model::cp_info::Module>,
    /// `0x0020` open, `0x1000` synthetic, `0x8000` mandated.
    pub module_flags: u16,
    /// The version of the module; absent where it has none.
    pub module_version_index: FromPool<Option<Utf8>>,
    /// The modules that this one depends on.
    pub requires: Vec<ModuleRequires>,
    /// The packages that this one exports.
    pub exports: Vec<ModuleExports>,
    /// The packages that this one opens.
    pub opens: Vec<ModuleOpens>,
    /// The service interfaces that this one may discover.
    pub uses_index: Vec<FromPool<Class>>,
    /// The service implementations that this one offers.
    pub provides: Vec<ModuleProvides>,
}

/// A dependence of a module.
#[derive(Debug, Clone, Copy, Hash, PartialEq, Eq)]
pub struct ModuleRequires {
    /// The module depended on.
    pub requires_index: FromPool<crate::model::cp_info::Module>,
    /// `0x0020` transitive, `0x0040` static phase, `0x1000` synthetic, `0x8000` mandated.
    pub requires_flags: u16,
    /// The version of the module depended on; absent where none is recorded.
    pub requires_version_index: FromPool<Option<Utf8>>,
}

/// A package that a module exports.
#[derive(Debug, Hash, PartialEq, Eq)]
pub struct ModuleExports {
    /// The package.
    pub exports_index: FromPool<Package>,
    /// `0x1000` synthetic, `0x8000` mandated.
    pub exports_flags: u16,
    /// The modules that may access it; all where the list is empty.
    pub exports_to_index: Vec<FromPool<crate::model::cp_info::Module>>,
}

/// A package that a module opens.
#[derive(Debug, Hash, PartialEq, Eq)]
pub struct ModuleOpens {
    /// The package.
    pub opens_index: FromPool<Package>,
    /// `0x1000` synthetic, `0x8000` mandated.
    pub opens_flags: u16,
    /// The modules that may access it by reflection; all where the list is empty.
    pub opens_to_index: Vec<FromPool<crate::model::cp_info::Module>>,
}

/// A service that a module implements.
#[derive(Debug, Hash, PartialEq, Eq)]
pub struct ModuleProvides {
    /// The service interface.
    pub provides_index: FromPool<Class>,
    /// The implementations.
    pub provides_with_index: Vec<FromPool<Class>>,
}

/// The mathematical value of a [`Module`].
pub struct ModuleView {
    pub module_name_index: FromPool<crate::model::cp_info::Module>,
    pub module_flags: u16,
    pub module_version_index: FromPool<Option<Utf8>>,
    pub requires: Seq<ModuleRequires>,
    pub exports: Seq<ModuleExportsView>,
    pub opens: Seq<ModuleOpensView>,
    pub uses_index: Seq<FromPool<Class>>,
    pub provides: Seq<ModuleProvidesView>,
}

/// The mathematical value of a [`ModuleExports`].
pub struct ModuleExportsView {
    pub exports_index: FromPool<Package>,
    pub exports_flags: u16,
    pub exports_to_index: Seq<FromPool<crate::model::cp_info::Module>>,
}

/// The mathematical value of a [`ModuleOpens`].
pub struct ModuleOpensView {
    pub opens_index: FromPool<Package>,
    pub opens_flags: u16,
    pub opens_to_index: Seq<FromPool<crate::model::cp_info::Module>>,
}

/// The mathematical value of a [`ModuleProvides`].
pub struct ModuleProvidesView {
    pub provides_index: FromPool<Class>,
    pub provides_with_index: Seq<FromPool<Class>>,
}

impl View for ModuleRequires {
    type V = ModuleRequires;

    open spec fn view(&self) -> ModuleRequires {
        *self
    }
}

impl View for ModuleExports {
    type V = ModuleExportsView;

    open spec fn view(&self) -> ModuleExportsView {
        ModuleExportsView {
            exports_index: self.exports_index,
            exports_flags: self.exports_flags,
            exports_to_index: self.exports_to_index@,
        }
    }
}

impl View for ModuleOpens {
    type V = ModuleOpensView;

    open spec fn view(&self) -> ModuleOpensView {
        ModuleOpensView {
            opens_index: self.opens_index,
            opens_flags: self.opens_flags,
            opens_to_index: self.opens_to_index@,
        }
    }
}

impl View for ModuleProvides {
    type V = ModuleProvidesView;

    open spec fn view(&self) -> ModuleProvidesView {
        ModuleProvidesView {
            provides_index: self.provides_index,
            provides_with_index: self.provides_with_index@,
        }
    }
}

impl View for Module {
    type V = ModuleView;

    open spec fn view(&self) -> ModuleView {
        ModuleView {
            module_name_index: self.module_name_index,
            module_flags: self.module_flags,
            module_version_index: self.module_version_index,
            requires: self.requires@,
            exports: views(self.exports@),
            opens: views(self.opens@),
            uses_index: self.uses_index@,
            provides: views(self.provides@),
        }
    }
}

/// The mathematical value of an [`AttributeInfo`].
pub struct AttributeInfoView {
    pub attribute_name_index: FromPool<Utf8>,
    pub attribute_length: u32,
    pub inner: AttributeInfoInnerView,
}

/// The mathematical value of an [`AttributeInfoInner`].
pub enum AttributeInfoInnerView {
    Unknown { attribute_content: Seq<u8> },
    ConstantValue { constantvalue_index: FromPool<CpInfoInner> },
    Code {
        max_stack: u16,
        max_locals: u16,
        code: Seq<u8>,
        exception_table: Seq<AttributeCodeException>,
        attributes: Seq<AttributeInfoView>,
    },
    StackMapTable { number_of_entries: u16, entries: Seq<StackMapFrameView> },
    Exceptions { exception_index_table: Seq<FromPool<Class>> },
    InnerClasses { classes: Seq<AttributeInnerClass> },
    EnclosingMethod { class_index: FromPool<Class>, method_index: FromPool<Option<NameAndType>> },
    Synthetic,
    Signature { signature_index: FromPool<Utf8> },
    SourceFile { sourcefile_index: FromPool<Utf8> },
    SourceDebugExtension { debug_extension: Seq<u8> },
    LineNumberTable { line_number_table: Seq<AttributeLineNumber> },
    LocalVariableTable { local_variable_table: Seq<AttributeLocalVariableTable> },
    LocalVariableTypeTable { local_variable_table: Seq<AttributeLocalVariableTable> },
    Deprecated,
    RuntimeVisibleAnnotations { annotations: Seq<AnnotationView> },
    RuntimeInvisibleAnnotations { annotations: Seq<AnnotationView> },
    RuntimeVisibleParameterAnnotations { parameter_annotations: Seq<ParameterAnnotationView> },
    RuntimeInvisibleParameterAnnotations { parameter_annotations: Seq<ParameterAnnotationView> },
    AnnotationDefault { default_value: AnnotationElementValueView },
    BootstrapMethods { bootstrap_methods: Seq<BootstrapMethodView> },
    Module(ModuleView),
    MethodParameters,
    ModulePackages,
    ModuleMainClass,
    NestHost,
    NestMembers,
    Record,
}

/// The mathematical value of a [`StackMapFrame`].
pub enum StackMapFrameView {
    SameFrame { frame_type: u8 },
    SameLocals1StackItemFrame { frame_type: u8, stack: VerificationTypeInfo },
    SameLocals1StackItemFrameExtended {
        frame_type: u8,
        offset_delta: u16,
        stack: VerificationTypeInfo,
    },
    ChopFrame { frame_type: u8, offset_delta: u16 },
    SameFrameExtended { frame_type: u8, offset_delta: u16 },
    AppendFrame { frame_type: u8, offset_delta: u16, locals: Seq<VerificationTypeInfo> },
    FullFrame {
        frame_type: u8,
        offset_delta: u16,
        locals: Seq<VerificationTypeInfo>,
        stack: Seq<VerificationTypeInfo>,
    },
}

/// The mathematical value of an [`Annotation`].
pub struct AnnotationView {
    pub type_index: FromPool<Utf8>,
    pub num_element_value_pairs: u16,
    pub element_value_pairs: Seq<AnnotationElementValuePairView>,
}

/// The mathematical value of an [`AnnotationElementValuePair`].
pub struct AnnotationElementValuePairView {
    pub element_name_index: FromPool<Utf8>,
    pub element_name_name: AnnotationElementValueView,
}

/// The mathematical value of an [`AnnotationElementValue`].
pub struct AnnotationElementValueView {
    pub tag: u8,
    pub value: AnnotationElementValueValueView,
}

/// The mathematical value of an [`AnnotationElementValueValue`].
pub enum AnnotationElementValueValueView {
    ConstValueIndex { index: FromPool<CpInfoInner> },
    EnumConstValue { type_name_index: FromPool<Utf8>, const_name_index: FromPool<Utf8> },
    ClassInfoIndex { index: FromPool<Utf8> },
    AnnotationValue { annotation: Box<AnnotationView> },
    ArrayValue { values: Seq<AnnotationElementValueView> },
}

/// The mathematical value of a [`ParameterAnnotation`].
pub struct ParameterAnnotationView {
    pub annotations: Seq<AnnotationView>,
}

/// The mathematical value of a [`BootstrapMethod`].
pub struct BootstrapMethodView {
    pub bootstrap_method_ref: FromPool<MethodHandle>,
    pub bootstrap_arguments: Seq<FromPool<CpInfoInner>>,
}

impl View for AttributeCodeException {
    type V = AttributeCodeException;

    open spec fn view(&self) -> AttributeCodeException {
        *self
    }
}

impl View for VerificationTypeInfo {
    type V = VerificationTypeInfo;

    open spec fn view(&self) -> VerificationTypeInfo {
        *self
    }
}

impl View for AttributeInnerClass {
    type V = AttributeInnerClass;

    open spec fn view(&self) -> AttributeInnerClass {
        *self
    }
}

impl View for AttributeLineNumber {
    type V = AttributeLineNumber;

    open spec fn view(&self) -> AttributeLineNumber {
        *self
    }
}

impl View for AttributeLocalVariableTable {
    type V = AttributeLocalVariableTable;

    open spec fn view(&self) -> AttributeLocalVariableTable {
        *self
    }
}

impl View for StackMapFrame {
    type V = StackMapFrameView;

    open spec fn view(&self) -> StackMapFrameView {
        match self {
            StackMapFrame::SameFrame { frame_type } => StackMapFrameView::SameFrame {
                frame_type: *frame_type,
            },
            StackMapFrame::SameLocals1StackItemFrame {
                frame_type,
                stack,
            } => StackMapFrameView::SameLocals1StackItemFrame {
                frame_type: *frame_type,
                stack: *stack,
            },
            StackMapFrame::SameLocals1StackItemFrameExtended {
                frame_type,
                offset_delta,
                stack,
            } => StackMapFrameView::SameLocals1StackItemFrameExtended {
                frame_type: *frame_type,
                offset_delta: *offset_delta,
                stack: *stack,
            },
            StackMapFrame::ChopFrame { frame_type, offset_delta } => StackMapFrameView::ChopFrame {
                frame_type: *frame_type,
                offset_delta: *offset_delta,
            },
            StackMapFrame::SameFrameExtended {
                frame_type,
                offset_delta,
            } => StackMapFrameView::SameFrameExtended {
                frame_type: *frame_type,
                offset_delta: *offset_delta,
            },
            StackMapFrame::AppendFrame {
                frame_type,
                offset_delta,
                locals,
            } => StackMapFrameView::AppendFrame {
                frame_type: *frame_type,
                offset_delta: *offset_delta,
                locals: locals@,
            },
            StackMapFrame::FullFrame {
                frame_type,
                offset_delta,
                locals,
                stack,
            } => StackMapFrameView::FullFrame {
                frame_type: *frame_type,
                offset_delta: *offset_delta,
                locals: locals@,
                stack: stack@,
            },
        }
    }
}

impl View for BootstrapMethod {
    type V = BootstrapMethodView;

    open spec fn view(&self) -> BootstrapMethodView {
        BootstrapMethodView {
            bootstrap_method_ref: self.bootstrap_method_ref,
            bootstrap_arguments: self.bootstrap_arguments@,
        }
    }
}

/// The value of an annotation.
pub open spec fn annotation_view(a: Annotation) -> AnnotationView
    decreases a,
{
    AnnotationView {
        type_index: a.type_index,
        num_element_value_pairs: a.num_element_value_pairs,
        element_value_pairs: Seq::new(
            a.element_value_pairs.len() as nat,
            |i: int|
                if 0 <= i < a.element_value_pairs.len() {
                    pair_view(a.element_value_pairs[i])
                } else {
                    arbitrary()
                },
        ),
    }
}

/// The value of an element-value pair.
pub open spec fn pair_view(p: AnnotationElementValuePair) -> AnnotationElementValuePairView
    decreases p,
{
    AnnotationElementValuePairView {
        element_name_index: p.element_name_index,
        element_name_name: element_value_view(p.element_name_name),
    }
}

/// The value of an element value.
pub open spec fn element_value_view(v: AnnotationElementValue) -> AnnotationElementValueView
    decreases v,
{
    AnnotationElementValueView { tag: v.tag, value: value_view(v.value) }
}

/// The value of what an element value holds.
pub open spec fn value_view(v: AnnotationElementValueValue) -> AnnotationElementValueValueView
    decreases v,
{
    match v {
        AnnotationElementValueValue::ConstValueIndex {
            index,
        } => AnnotationElementValueValueView::ConstValueIndex { index },
        AnnotationElementValueValue::EnumConstValue {
            type_name_index,
            const_name_index,
        } => AnnotationElementValueValueView::EnumConstValue { type_name_index, const_name_index },
        AnnotationElementValueValue::ClassInfoIndex {
            index,
        } => AnnotationElementValueValueView::ClassInfoIndex { index },
        AnnotationElementValueValue::AnnotationValue {
            annotation,
        } => AnnotationElementValueValueView::AnnotationValue {
            annotation: Box::new(annotation_view(*annotation)),
        },
        AnnotationElementValueValue::ArrayValue {
            values,
        } => AnnotationElementValueValueView::ArrayValue {
            values: Seq::new(
                values.len() as nat,
                |i: int|
                    if 0 <= i < values.len() {
                        element_value_view(values[i])
                    } else {
                        arbitrary()
                    },
            ),
        },
    }
}

impl View for Annotation {
    type V = AnnotationView;

    open spec fn view(&self) -> AnnotationView {
        annotation_view(*self)
    }
}

impl View for AnnotationElementValuePair {
    type V = AnnotationElementValuePairView;

    open spec fn view(&self) -> AnnotationElementValuePairView {
        pair_view(*self)
    }
}

impl View for AnnotationElementValue {
    type V = AnnotationElementValueView;

    open spec fn view(&self) -> AnnotationElementValueView {
        element_value_view(*self)
    }
}

impl View for AnnotationElementValueValue {
    type V = AnnotationElementValueValueView;

    open spec fn view(&self) -> AnnotationElementValueValueView {
        value_view(*self)
    }
}

impl View for ParameterAnnotation {
    type V = ParameterAnnotationView;

    open spec fn view(&self) -> ParameterAnnotationView {
        ParameterAnnotationView {
            annotations: views(self.annotations@),
        }
    }
}

/// The value of an attribute.
pub open spec fn attribute_view(a: AttributeInfo) -> AttributeInfoView
    decreases a,
{
    AttributeInfoView {
        attribute_name_index: a.attribute_name_index,
        attribute_length: a.attribute_length,
        inner: attribute_inner_view(a.inner),
    }
}

/// The value of the payload of an attribute.
pub open spec fn attribute_inner_view(inner: AttributeInfoInner) -> AttributeInfoInnerView
    decreases inner,
{
    match inner {
        AttributeInfoInner::Unknown { attribute_content } => AttributeInfoInnerView::Unknown {
            attribute_content: attribute_content@,
        },
        AttributeInfoInner::ConstantValue {
            constantvalue_index,
        } => AttributeInfoInnerView::ConstantValue { constantvalue_index },
        AttributeInfoInner::Code {
            max_stack,
            max_locals,
            code,
            exception_table,
            attributes,
        } => AttributeInfoInnerView::Code {
            max_stack,
            max_locals,
            code: code@,
            exception_table: exception_table@,
            attributes: Seq::new(
                attributes.len() as nat,
                |i: int|
                    if 0 <= i < attributes.len() {
                        attribute_view(attributes[i])
                    } else {
                        arbitrary()
                    },
            ),
        },
        AttributeInfoInner::StackMapTable {
            number_of_entries,
            entries,
        } => AttributeInfoInnerView::StackMapTable {
            number_of_entries,
            entries: views(entries@),
        },
        AttributeInfoInner::Exceptions {
            exception_index_table,
        } => AttributeInfoInnerView::Exceptions {
            exception_index_table: exception_index_table@,
        },
        AttributeInfoInner::InnerClasses { classes } => AttributeInfoInnerView::InnerClasses {
            classes: classes@,
        },
        AttributeInfoInner::EnclosingMethod {
            class_index,
            method_index,
        } => AttributeInfoInnerView::EnclosingMethod { class_index, method_index },
        AttributeInfoInner::Synthetic => AttributeInfoInnerView::Synthetic,
        AttributeInfoInner::Signature { signature_index } => AttributeInfoInnerView::Signature {
            signature_index,
        },
        AttributeInfoInner::SourceFile {
            sourcefile_index,
        } => AttributeInfoInnerView::SourceFile { sourcefile_index },
        AttributeInfoInner::SourceDebugExtension {
            debug_extension,
        } => AttributeInfoInnerView::SourceDebugExtension {
            debug_extension: debug_extension@,
        },
        AttributeInfoInner::LineNumberTable {
            line_number_table,
        } => AttributeInfoInnerView::LineNumberTable { line_number_table: line_number_table@ },
        AttributeInfoInner::LocalVariableTable {
            local_variable_table,
        } => AttributeInfoInnerView::LocalVariableTable {
            local_variable_table: local_variable_table@,
        },
        AttributeInfoInner::LocalVariableTypeTable {
            local_variable_table,
        } => AttributeInfoInnerView::LocalVariableTypeTable {
            local_variable_table: local_variable_table@,
        },
        AttributeInfoInner::Deprecated => AttributeInfoInnerView::Deprecated,
        AttributeInfoInner::RuntimeVisibleAnnotations {
            annotations,
        } => AttributeInfoInnerView::RuntimeVisibleAnnotations {
            annotations: views(annotations@),
        },
        AttributeInfoInner::RuntimeInvisibleAnnotations {
            annotations,
        } => AttributeInfoInnerView::RuntimeInvisibleAnnotations {
            annotations: views(annotations@),
        },
        AttributeInfoInner::RuntimeVisibleParameterAnnotations {
            parameter_annotations,
        } => AttributeInfoInnerView::RuntimeVisibleParameterAnnotations {
            parameter_annotations: views(parameter_annotations@),
        },
        AttributeInfoInner::RuntimeInvisibleParameterAnnotations {
            parameter_annotations,
        } => AttributeInfoInnerView::RuntimeInvisibleParameterAnnotations {
            parameter_annotations: views(parameter_annotations@),
        },
        AttributeInfoInner::AnnotationDefault {
            default_value,
        } => AttributeInfoInnerView::AnnotationDefault { default_value: default_value@ },
        AttributeInfoInner::BootstrapMethods {
            bootstrap_methods,
        } => AttributeInfoInnerView::BootstrapMethods {
            bootstrap_methods: views(bootstrap_methods@),
        },
        AttributeInfoInner::Module(module) => AttributeInfoInnerView::Module((*module)@),
        AttributeInfoInner::MethodParameters => AttributeInfoInnerView::MethodParameters,
        AttributeInfoInner::ModulePackages => AttributeInfoInnerView::ModulePackages,
        AttributeInfoInner::ModuleMainClass => AttributeInfoInnerView::ModuleMainClass,
        AttributeInfoInner::NestHost => AttributeInfoInnerView::NestHost,
        AttributeInfoInner::NestMembers => AttributeInfoInnerView::NestMembers,
        AttributeInfoInner::Record => AttributeInfoInnerView::Record,
    }
}

impl View for AttributeInfo {
    type V = AttributeInfoView;

    open spec fn view(&self) -> AttributeInfoView {
        attribute_view(*self)
    }
}

impl View for AttributeInfoInner {
    type V = AttributeInfoInnerView;

    open spec fn view(&self) -> AttributeInfoInnerView {
        attribute_inner_view(*self)
    }
}

impl AttributeInfoView {
    /// Whether the payload has been resolved, and with it the attributes
    /// nested in a `Code` payload, at every depth.
    pub open spec fn is_resolved(self) -> bool
        decreases self,
    {
        match self.inner {
            AttributeInfoInnerView::Unknown { .. } => false,
            AttributeInfoInnerView::Code { attributes, .. } => forall|i: int|
                0 <= i < attributes.len() ==> (#[trigger] attributes[i]).is_resolved(),
            _ => true,
        }
    }
}

/// Whether each attribute of a list has been resolved.
pub open spec fn all_resolved(attributes: Seq<AttributeInfoView>) -> bool {
    forall|i: int| 0 <= i < attributes.len() ==> (#[trigger] attributes[i]).is_resolved()
}

} // verus!
