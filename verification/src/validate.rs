use crate::model::attribute::{
    Annotation, AnnotationElementValue, AnnotationElementValuePair, AnnotationElementValueValue,
    AttributeInfo, AttributeInfoInner, AttributeInnerClass, AttributeLocalVariableTable,
    BootstrapMethod, Module, ModuleExports, ModuleOpens, ModuleProvides, ModuleRequires,
    ParameterAnnotation, StackMapFrame, VerificationTypeInfo,
};
use crate::model::cp_info::{spec_slot_check, FromPool, MethodHandleIndex, ValidateCpInfo};
use crate::model::{ClassFile, CpInfo, CpInfoInner, FieldInfo, MethodInfo};
use vstd::prelude::*;

verus! {

/// Whether `reference` names a slot of `pool` that holds an entry of the
/// variant that its type expects; or is zero, where its type is optional.
pub open spec fn valid_reference<T: ValidateCpInfo>(
    pool: Seq<CpInfo>,
    reference: FromPool<T>,
) -> bool {
    spec_slot_check(pool, reference.index(), T::expected(), T::optional()) is Ok
}

/// A part of a class file that holds typed references into the pool.
pub trait References {
    /// Whether each typed reference in the value is valid in `pool`.
    spec fn references_valid(&self, pool: Seq<CpInfo>) -> bool;

    /// Checks each typed reference in the value against `pool`.
    fn check_references(&self, pool: &[CpInfo]) -> (valid: bool)
        ensures
            valid == self.references_valid(pool@),
    ;
}

/// Whether each value of a list has valid references.
pub open spec fn all_valid<T: References>(items: Seq<T>, pool: Seq<CpInfo>) -> bool {
    forall|i: int| 0 <= i < items.len() ==> (#[trigger] items[i]).references_valid(pool)
}

/// Checks the references of each value of a list.
pub fn check_each<T: References>(items: &Vec<T>, pool: &[CpInfo]) -> (valid: bool)
    ensures
        valid == all_valid(items@, pool@),
{
    let mut i: usize = 0;
    while i < items.len()
        invariant
            i <= items@.len(),
            forall|j: int| 0 <= j < i ==> (#[trigger] items@[j]).references_valid(pool@),
        decreases items@.len() - i,
    {
        if !items[i].check_references(pool) {
            return false;
        }
        i = i + 1;
    }
    true
}

impl<T: ValidateCpInfo> References for FromPool<T> {
    open spec fn references_valid(&self, pool: Seq<CpInfo>) -> bool {
        valid_reference(pool, *self)
    }

    fn check_references(&self, pool: &[CpInfo]) -> (valid: bool) {
        T::validate_cp_info(pool, self.inner()).is_ok()
    }
}

impl References for CpInfo {
    /// The references of an entry of the pool, by variant.
    open spec fn references_valid(&self, pool: Seq<CpInfo>) -> bool {
        match self.inner {
            CpInfoInner::Class(c) => c.name_index.references_valid(pool),
            CpInfoInner::Fieldref(f) => f.class_index.references_valid(pool)
                && f.name_and_type_index.references_valid(pool),
            CpInfoInner::MethodRef(m) => m.class_index.references_valid(pool)
                && m.name_and_type_index.references_valid(pool),
            CpInfoInner::InterfaceMethodref(m) => m.class_index.references_valid(pool)
                && m.name_and_type_index.references_valid(pool),
            CpInfoInner::String(s) => s.string_index.references_valid(pool),
            CpInfoInner::NameAndType(n) => n.name_index.references_valid(pool)
                && n.descriptor_index.references_valid(pool),
            CpInfoInner::MethodHandle(h) => match h.reference_index {
                MethodHandleIndex::Field(r) => r.references_valid(pool),
                MethodHandleIndex::Method(r) => r.references_valid(pool),
                MethodHandleIndex::Interface(r) => r.references_valid(pool),
            },
            CpInfoInner::MethodType(m) => m.descriptor_index.references_valid(pool),
            CpInfoInner::Dynamic(d) => d.name_and_type_index.references_valid(pool),
            CpInfoInner::InvokeDynamic(d) => d.name_and_type_index.references_valid(pool),
            CpInfoInner::Module(m) => m.name_index.references_valid(pool),
            CpInfoInner::Package(p) => p.name_index.references_valid(pool),
            _ => true,
        }
    }

    fn check_references(&self, pool: &[CpInfo]) -> (valid: bool) {
        match &self.inner {
            CpInfoInner::Class(c) => c.name_index.check_references(pool),
            CpInfoInner::Fieldref(f) => {
                if !f.class_index.check_references(pool) {
                    return false;
                }
                f.name_and_type_index.check_references(pool)
            },
            CpInfoInner::MethodRef(m) => {
                if !m.class_index.check_references(pool) {
                    return false;
                }
                m.name_and_type_index.check_references(pool)
            },
            CpInfoInner::InterfaceMethodref(m) => {
                if !m.class_index.check_references(pool) {
                    return false;
                }
                m.name_and_type_index.check_references(pool)
            },
            CpInfoInner::String(s) => s.string_index.check_references(pool),
            CpInfoInner::NameAndType(n) => {
                if !n.name_index.check_references(pool) {
                    return false;
                }
                n.descriptor_index.check_references(pool)
            },
            CpInfoInner::MethodHandle(h) => match &h.reference_index {
                MethodHandleIndex::Field(r) => r.check_references(pool),
                MethodHandleIndex::Method(r) => r.check_references(pool),
                MethodHandleIndex::Interface(r) => r.check_references(pool),
            },
            CpInfoInner::MethodType(m) => m.descriptor_index.check_references(pool),
            CpInfoInner::Dynamic(d) => d.name_and_type_index.check_references(pool),
            CpInfoInner::InvokeDynamic(d) => d.name_and_type_index.check_references(pool),
            CpInfoInner::Module(m) => m.name_index.check_references(pool),
            CpInfoInner::Package(p) => p.name_index.check_references(pool),
            _ => true,
        }
    }
}

impl References for VerificationTypeInfo {
    open spec fn references_valid(&self, pool: Seq<CpInfo>) -> bool {
        match self {
            VerificationTypeInfo::Object { cpool_index, .. } => cpool_index.references_valid(pool),
            _ => true,
        }
    }

    fn check_references(&self, pool: &[CpInfo]) -> (valid: bool) {
        match self {
            VerificationTypeInfo::Object { cpool_index, .. } => cpool_index.check_references(pool),
            _ => true,
        }
    }
}

impl References for StackMapFrame {
    open spec fn references_valid(&self, pool: Seq<CpInfo>) -> bool {
        match self {
            StackMapFrame::SameLocals1StackItemFrame { stack, .. } => stack.references_valid(pool),
            StackMapFrame::SameLocals1StackItemFrameExtended {
                stack,
                ..
            } => stack.references_valid(pool),
            StackMapFrame::AppendFrame { locals, .. } => all_valid(locals@, pool),
            StackMapFrame::FullFrame { locals, stack, .. } => all_valid(locals@, pool) && all_valid(
                stack@,
                pool,
            ),
            _ => true,
        }
    }

    fn check_references(&self, pool: &[CpInfo]) -> (valid: bool) {
        match self {
            StackMapFrame::SameLocals1StackItemFrame { stack, .. } => stack.check_references(pool),
            StackMapFrame::SameLocals1StackItemFrameExtended {
                stack,
                ..
            } => stack.check_references(pool),
            StackMapFrame::AppendFrame { locals, .. } => check_each(locals, pool),
            StackMapFrame::FullFrame { locals, stack, .. } => {
                if !check_each(locals, pool) {
                    return false;
                }
                check_each(stack, pool)
            },
            _ => true,
        }
    }
}

impl References for AttributeInnerClass {
    open spec fn references_valid(&self, pool: Seq<CpInfo>) -> bool {
        &&& self.inner_class_info_index.references_valid(pool)
        &&& self.outer_class_info_index.references_valid(pool)
        &&& self.inner_class_name_index.references_valid(pool)
    }

    fn check_references(&self, pool: &[CpInfo]) -> (valid: bool) {
        if !self.inner_class_info_index.check_references(pool) {
            return false;
        }
        if !self.outer_class_info_index.check_references(pool) {
            return false;
        }
        self.inner_class_name_index.check_references(pool)
    }
}

impl References for AttributeLocalVariableTable {
    open spec fn references_valid(&self, pool: Seq<CpInfo>) -> bool {
        &&& self.name_index.references_valid(pool)
        &&& self.descriptor_or_signature_index.references_valid(pool)
    }

    fn check_references(&self, pool: &[CpInfo]) -> (valid: bool) {
        if !self.name_index.check_references(pool) {
            return false;
        }
        self.descriptor_or_signature_index.check_references(pool)
    }
}

impl References for BootstrapMethod {
    open spec fn references_valid(&self, pool: Seq<CpInfo>) -> bool {
        &&& self.bootstrap_method_ref.references_valid(pool)
        &&& all_valid(self.bootstrap_arguments@, pool)
    }

    fn check_references(&self, pool: &[CpInfo]) -> (valid: bool) {
        if !self.bootstrap_method_ref.check_references(pool) {
            return false;
        }
        check_each(&self.bootstrap_arguments, pool)
    }
}

impl References for ModuleRequires {
    open spec fn references_valid(&self, pool: Seq<CpInfo>) -> bool {
        &&& self.requires_index.references_valid(pool)
        &&& self.requires_version_index.references_valid(pool)
    }

    fn check_references(&self, pool: &[CpInfo]) -> (valid: bool) {
        if !self.requires_index.check_references(pool) {
            return false;
        }
        self.requires_version_index.check_references(pool)
    }
}

impl References for ModuleExports {
    open spec fn references_valid(&self, pool: Seq<CpInfo>) -> bool {
        &&& self.exports_index.references_valid(pool)
        &&& all_valid(self.exports_to_index@, pool)
    }

    fn check_references(&self, pool: &[CpInfo]) -> (valid: bool) {
        if !self.exports_index.check_references(pool) {
            return false;
        }
        check_each(&self.exports_to_index, pool)
    }
}

impl References for ModuleOpens {
    open spec fn references_valid(&self, pool: Seq<CpInfo>) -> bool {
        &&& self.opens_index.references_valid(pool)
        &&& all_valid(self.opens_to_index@, pool)
    }

    fn check_references(&self, pool: &[CpInfo]) -> (valid: bool) {
        if !self.opens_index.check_references(pool) {
            return false;
        }
        check_each(&self.opens_to_index, pool)
    }
}

impl References for ModuleProvides {
    open spec fn references_valid(&self, pool: Seq<CpInfo>) -> bool {
        &&& self.provides_index.references_valid(pool)
        &&& all_valid(self.provides_with_index@, pool)
    }

    fn check_references(&self, pool: &[CpInfo]) -> (valid: bool) {
        if !self.provides_index.check_references(pool) {
            return false;
        }
        check_each(&self.provides_with_index, pool)
    }
}

impl References for Module {
    open spec fn references_valid(&self, pool: Seq<CpInfo>) -> bool {
        &&& self.module_name_index.references_valid(pool)
        &&& self.module_version_index.references_valid(pool)
        &&& all_valid(self.requires@, pool)
        &&& all_valid(self.exports@, pool)
        &&& all_valid(self.opens@, pool)
        &&& all_valid(self.uses_index@, pool)
        &&& all_valid(self.provides@, pool)
    }

    fn check_references(&self, pool: &[CpInfo]) -> (valid: bool) {
        if !self.module_name_index.check_references(pool) {
            return false;
        }
        if !self.module_version_index.check_references(pool) {
            return false;
        }
        if !check_each(&self.requires, pool) {
            return false;
        }
        if !check_each(&self.exports, pool) {
            return false;
        }
        if !check_each(&self.opens, pool) {
            return false;
        }
        if !check_each(&self.uses_index, pool) {
            return false;
        }
        check_each(&self.provides, pool)
    }
}

/// Whether each typed reference in an annotation is valid, those in the
/// values of its elements included.
pub open spec fn valid_annotation(a: Annotation, pool: Seq<CpInfo>) -> bool
    decreases a,
{
    &&& a.type_index.references_valid(pool)
    &&& forall|i: int|
        0 <= i < a.element_value_pairs.len() ==> valid_pair(
            #[trigger] a.element_value_pairs[i],
            pool,
        )
}

/// Whether each typed reference in an element-value pair is valid.
pub open spec fn valid_pair(p: AnnotationElementValuePair, pool: Seq<CpInfo>) -> bool
    decreases p,
{
    &&& p.element_name_index.references_valid(pool)
    &&& valid_element_value(p.element_name_name, pool)
}

/// Whether each typed reference in an element value is valid.
pub open spec fn valid_element_value(v: AnnotationElementValue, pool: Seq<CpInfo>) -> bool
    decreases v,
{
    match v.value {
        AnnotationElementValueValue::ConstValueIndex { index } => index.references_valid(pool),
        AnnotationElementValueValue::EnumConstValue {
            type_name_index,
            const_name_index,
        } => type_name_index.references_valid(pool) && const_name_index.references_valid(pool),
        AnnotationElementValueValue::ClassInfoIndex { index } => index.references_valid(pool),
        AnnotationElementValueValue::AnnotationValue { annotation } => valid_annotation(
            *annotation,
            pool,
        ),
        AnnotationElementValueValue::ArrayValue { values } => forall|i: int|
            0 <= i < values.len() ==> valid_element_value(#[trigger] values[i], pool),
    }
}

/// Whether each typed reference in a list of annotations is valid.
pub open spec fn valid_annotations(annotations: Seq<Annotation>, pool: Seq<CpInfo>) -> bool {
    forall|i: int| 0 <= i < annotations.len() ==> valid_annotation(#[trigger] annotations[i], pool)
}

/// Checks each typed reference in an annotation.
pub fn check_annotation(a: &Annotation, pool: &[CpInfo]) -> (valid: bool)
    ensures
        valid == valid_annotation(*a, pool@),
    decreases a,
{
    if !a.type_index.check_references(pool) {
        return false;
    }
    let mut i: usize = 0;
    while i < a.element_value_pairs.len()
        invariant
            i <= a.element_value_pairs.len(),
            a.type_index.references_valid(pool@),
            forall|j: int| 0 <= j < i ==> valid_pair(#[trigger] a.element_value_pairs[j], pool@),
        decreases a.element_value_pairs.len() - i,
    {
        let pair = &a.element_value_pairs[i];
        if !pair.element_name_index.check_references(pool) {
            return false;
        }
        if !check_element_value(&pair.element_name_name, pool) {
            return false;
        }
        i = i + 1;
    }
    true
}

/// Checks each typed reference in an element value.
pub fn check_element_value(v: &AnnotationElementValue, pool: &[CpInfo]) -> (valid: bool)
    ensures
        valid == valid_element_value(*v, pool@),
    decreases v,
{
    match &v.value {
        AnnotationElementValueValue::ConstValueIndex { index } => index.check_references(pool),
        AnnotationElementValueValue::EnumConstValue { type_name_index, const_name_index } => {
            if !type_name_index.check_references(pool) {
                return false;
            }
            const_name_index.check_references(pool)
        },
        AnnotationElementValueValue::ClassInfoIndex { index } => index.check_references(pool),
        AnnotationElementValueValue::AnnotationValue { annotation } => check_annotation(
            annotation,
            pool,
        ),
        AnnotationElementValueValue::ArrayValue { values } => {
            let mut i: usize = 0;
            while i < values.len()
                invariant
                    i <= values.len(),
                    v.value is ArrayValue,
                    v.value->ArrayValue_values == *values,
                    forall|j: int| 0 <= j < i ==> valid_element_value(#[trigger] values[j], pool@),
                decreases values.len() - i,
            {
                if !check_element_value(&values[i], pool) {
                    return false;
                }
                i = i + 1;
            }
            true
        },
    }
}

/// Checks each typed reference in a list of annotations.
pub fn check_annotations(annotations: &Vec<Annotation>, pool: &[CpInfo]) -> (valid: bool)
    ensures
        valid == valid_annotations(annotations@, pool@),
{
    let mut i: usize = 0;
    while i < annotations.len()
        invariant
            i <= annotations.len(),
            forall|j: int| 0 <= j < i ==> valid_annotation(#[trigger] annotations@[j], pool@),
        decreases annotations.len() - i,
    {
        if !check_annotation(&annotations[i], pool) {
            return false;
        }
        i = i + 1;
    }
    true
}

impl References for ParameterAnnotation {
    open spec fn references_valid(&self, pool: Seq<CpInfo>) -> bool {
        valid_annotations(self.annotations@, pool)
    }

    fn check_references(&self, pool: &[CpInfo]) -> (valid: bool) {
        check_annotations(&self.annotations, pool)
    }
}

/// Whether each typed reference in an attribute is valid: its name, what
/// its payload holds, and for a `Code` payload the attributes nested in it.
/// An unresolved payload holds no reference.
pub open spec fn valid_attribute(a: AttributeInfo, pool: Seq<CpInfo>) -> bool
    decreases a,
{
    &&& a.attribute_name_index.references_valid(pool)
    &&& valid_payload(a.inner, pool)
}

/// Whether each typed reference in the payload of an attribute is valid.
pub open spec fn valid_payload(inner: AttributeInfoInner, pool: Seq<CpInfo>) -> bool
    decreases inner,
{
    match inner {
        AttributeInfoInner::ConstantValue {
            constantvalue_index,
        } => constantvalue_index.references_valid(pool),
        AttributeInfoInner::Code { attributes, .. } => forall|i: int|
            0 <= i < attributes.len() ==> valid_attribute(#[trigger] attributes[i], pool),
        AttributeInfoInner::StackMapTable { entries, .. } => all_valid(entries@, pool),
        AttributeInfoInner::Exceptions { exception_index_table } => all_valid(
            exception_index_table@,
            pool,
        ),
        AttributeInfoInner::InnerClasses { classes } => all_valid(classes@, pool),
        AttributeInfoInner::EnclosingMethod {
            class_index,
            method_index,
        } => class_index.references_valid(pool) && method_index.references_valid(pool),
        AttributeInfoInner::Signature { signature_index } => signature_index.references_valid(
            pool,
        ),
        AttributeInfoInner::SourceFile { sourcefile_index } => sourcefile_index.references_valid(
            pool,
        ),
        AttributeInfoInner::LocalVariableTable { local_variable_table } => all_valid(
            local_variable_table@,
            pool,
        ),
        AttributeInfoInner::LocalVariableTypeTable { local_variable_table } => all_valid(
            local_variable_table@,
            pool,
        ),
        AttributeInfoInner::RuntimeVisibleAnnotations { annotations } => valid_annotations(
            annotations@,
            pool,
        ),
        AttributeInfoInner::RuntimeInvisibleAnnotations { annotations } => valid_annotations(
            annotations@,
            pool,
        ),
        AttributeInfoInner::RuntimeVisibleParameterAnnotations {
            parameter_annotations,
        } => all_valid(parameter_annotations@, pool),
        AttributeInfoInner::RuntimeInvisibleParameterAnnotations {
            parameter_annotations,
        } => all_valid(parameter_annotations@, pool),
        AttributeInfoInner::AnnotationDefault { default_value } => valid_element_value(
            default_value,
            pool,
        ),
        AttributeInfoInner::BootstrapMethods { bootstrap_methods } => all_valid(
            bootstrap_methods@,
            pool,
        ),
        AttributeInfoInner::Module(module) => module.references_valid(pool),
        _ => true,
    }
}

/// Whether each typed reference in a list of attributes is valid.
pub open spec fn valid_attributes(attributes: Seq<AttributeInfo>, pool: Seq<CpInfo>) -> bool {
    forall|i: int| 0 <= i < attributes.len() ==> valid_attribute(#[trigger] attributes[i], pool)
}

/// Checks each typed reference in an attribute.
pub fn check_attribute(a: &AttributeInfo, pool: &[CpInfo]) -> (valid: bool)
    ensures
        valid == valid_attribute(*a, pool@),
    decreases a,
{
    if !a.attribute_name_index.check_references(pool) {
        return false;
    }
    match &a.inner {
        AttributeInfoInner::ConstantValue {
            constantvalue_index,
        } => constantvalue_index.check_references(pool),
        AttributeInfoInner::Code { attributes, .. } => {
            let mut i: usize = 0;
            while i < attributes.len()
                invariant
                    i <= attributes.len(),
                    a.inner is Code,
                    a.inner->Code_attributes == *attributes,
                    forall|j: int| 0 <= j < i ==> valid_attribute(#[trigger] attributes[j], pool@),
                decreases attributes.len() - i,
            {
                if !check_attribute(&attributes[i], pool) {
                    return false;
                }
                i = i + 1;
            }
            true
        },
        AttributeInfoInner::StackMapTable { entries, .. } => check_each(entries, pool),
        AttributeInfoInner::Exceptions { exception_index_table } => check_each(
            exception_index_table,
            pool,
        ),
        AttributeInfoInner::InnerClasses { classes } => check_each(classes, pool),
        AttributeInfoInner::EnclosingMethod { class_index, method_index } => {
            if !class_index.check_references(pool) {
                return false;
            }
            method_index.check_references(pool)
        },
        AttributeInfoInner::Signature { signature_index } => signature_index.check_references(
            pool,
        ),
        AttributeInfoInner::SourceFile { sourcefile_index } => sourcefile_index.check_references(
            pool,
        ),
        AttributeInfoInner::LocalVariableTable { local_variable_table } => check_each(
            local_variable_table,
            pool,
        ),
        AttributeInfoInner::LocalVariableTypeTable { local_variable_table } => check_each(
            local_variable_table,
            pool,
        ),
        AttributeInfoInner::RuntimeVisibleAnnotations { annotations } => check_annotations(
            annotations,
            pool,
        ),
        AttributeInfoInner::RuntimeInvisibleAnnotations { annotations } => check_annotations(
            annotations,
            pool,
        ),
        AttributeInfoInner::RuntimeVisibleParameterAnnotations {
            parameter_annotations,
        } => check_each(parameter_annotations, pool),
        AttributeInfoInner::RuntimeInvisibleParameterAnnotations {
            parameter_annotations,
        } => check_each(parameter_annotations, pool),
        AttributeInfoInner::AnnotationDefault { default_value } => check_element_value(
            default_value,
            pool,
        ),
        AttributeInfoInner::BootstrapMethods { bootstrap_methods } => check_each(
            bootstrap_methods,
            pool,
        ),
        AttributeInfoInner::Module(module) => module.check_references(pool),
        _ => true,
    }
}

/// Checks each typed reference in a list of attributes.
pub fn check_attributes(attributes: &Vec<AttributeInfo>, pool: &[CpInfo]) -> (valid: bool)
    ensures
        valid == valid_attributes(attributes@, pool@),
{
    let mut i: usize = 0;
    while i < attributes.len()
        invariant
            i <= attributes.len(),
            forall|j: int| 0 <= j < i ==> valid_attribute(#[trigger] attributes@[j], pool@),
        decreases attributes.len() - i,
    {
        if !check_attribute(&attributes[i], pool) {
            return false;
        }
        i = i + 1;
    }
    true
}

impl References for FieldInfo {
    open spec fn references_valid(&self, pool: Seq<CpInfo>) -> bool {
        &&& self.name_index.references_valid(pool)
        &&& self.descriptor_index.references_valid(pool)
        &&& valid_attributes(self.attributes@, pool)
    }

    fn check_references(&self, pool: &[CpInfo]) -> (valid: bool) {
        if !self.name_index.check_references(pool) {
            return false;
        }
        if !self.descriptor_index.check_references(pool) {
            return false;
        }
        check_attributes(&self.attributes, pool)
    }
}

impl References for MethodInfo {
    open spec fn references_valid(&self, pool: Seq<CpInfo>) -> bool {
        &&& self.name_index.references_valid(pool)
        &&& self.descriptor_index.references_valid(pool)
        &&& valid_attributes(self.attributes@, pool)
    }

    fn check_references(&self, pool: &[CpInfo]) -> (valid: bool) {
        if !self.name_index.check_references(pool) {
            return false;
        }
        if !self.descriptor_index.check_references(pool) {
            return false;
        }
        check_attributes(&self.attributes, pool)
    }
}

impl ClassFile {
    /// Whether every typed reference of the class file names an entry of
    /// the variant that its type expects, or is zero where its type is
    /// optional: the references of the entries of the pool, of the class,
    /// of its fields and methods, and of every attribute.
    pub open spec fn references_valid(&self) -> bool {
        let pool = self.constant_pool@;
        &&& all_valid(pool, pool)
        &&& self.this_class.references_valid(pool)
        &&& self.super_class.references_valid(pool)
        &&& all_valid(self.interfaces@, pool)
        &&& all_valid(self.fields@, pool)
        &&& all_valid(self.methods@, pool)
        &&& valid_attributes(self.attributes@, pool)
    }

    /// Checks every typed reference of the class file against its constant
    /// pool. Parsing does not do so: a reference is checked when it is
    /// looked up. Where this check holds, every lookup of a reference of
    /// the class file in its own pool succeeds.
    pub fn validate(&self) -> (valid: bool)
        ensures
            valid == self.references_valid(),
    {
        let pool = self.constant_pool.as_slice();
        if !check_each(&self.constant_pool, pool) {
            return false;
        }
        if !self.this_class.check_references(pool) {
            return false;
        }
        if !self.super_class.check_references(pool) {
            return false;
        }
        if !check_each(&self.interfaces, pool) {
            return false;
        }
        if !check_each(&self.fields, pool) {
            return false;
        }
        if !check_each(&self.methods, pool) {
            return false;
        }
        check_attributes(&self.attributes, pool)
    }

    /// In a class file whose references are valid, this class is a `Class`
    /// entry whose name is a `Utf8` entry; the superclass is absent or a
    /// `Class` entry; and each interface is a `Class` entry.
    pub proof fn lemma_valid_header(&self)
        requires
            self.references_valid(),
        ensures
            self.names_class(self.this_class.index()),
            self.super_class.index() == 0 || self.names_class(self.super_class.index()),
            forall|i: int|
                0 <= i < self.interfaces@.len() ==> self.names_class(
                    (#[trigger] self.interfaces@[i]).index(),
                ),
    {
        let pool = self.constant_pool@;
        assert forall|index: u16|
            spec_slot_check(pool, index, Some(7u8), false) is Ok implies self.names_class(
            index,
        ) by {
            let entry = pool[index - 1];
            assert(entry.references_valid(pool));
        }
        assert forall|i: int| 0 <= i < self.interfaces@.len() implies self.names_class(
            (#[trigger] self.interfaces@[i]).index(),
        ) by {
            assert(self.interfaces@[i].references_valid(pool));
        }
    }

    /// Whether slot `index` of the pool holds a `Class` entry whose name is
    /// a `Utf8` entry of the pool.
    pub open spec fn names_class(&self, index: u16) -> bool {
        let pool = self.constant_pool@;
        &&& 0 < index <= pool.len()
        &&& pool[index - 1].inner is Class
        &&& 0 < pool[index - 1].inner->Class_0.name_index.index() <= pool.len()
        &&& pool[pool[index - 1].inner->Class_0.name_index.index() - 1].inner is Utf8
    }
}

} // verus!
