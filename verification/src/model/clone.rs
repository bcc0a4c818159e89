use crate::model::attribute::{
    Annotation, AnnotationElementValue, AnnotationElementValuePair, AnnotationElementValueValue,
    AttributeInfo, AttributeInfoInner, BootstrapMethod, Module, ModuleExports, ModuleOpens,
    ModuleProvides, ParameterAnnotation, StackMapFrame,
};
use crate::model::cp_info::Utf8;
use crate::model::{views, ClassFile, CpInfo, CpInfoInner, FieldInfo, MethodInfo};
use vstd::prelude::*;
use vstd::slice::slice_to_vec;

verus! {

impl Clone for Utf8 {
    fn clone(&self) -> (copy: Utf8)
        ensures
            copy@ == self@,
    {
        Utf8 { bytes: self.bytes.clone() }
    }
}

impl Clone for CpInfoInner {
    fn clone(&self) -> (copy: CpInfoInner)
        ensures
            copy@ == self@,
    {
        match self {
            CpInfoInner::Class(c) => CpInfoInner::Class(*c),
            CpInfoInner::Fieldref(c) => CpInfoInner::Fieldref(*c),
            CpInfoInner::MethodRef(c) => CpInfoInner::MethodRef(*c),
            CpInfoInner::InterfaceMethodref(c) => CpInfoInner::InterfaceMethodref(*c),
            CpInfoInner::String(c) => CpInfoInner::String(*c),
            CpInfoInner::Integer(c) => CpInfoInner::Integer(*c),
            CpInfoInner::Float(c) => CpInfoInner::Float(*c),
            CpInfoInner::Long(c) => CpInfoInner::Long(*c),
            CpInfoInner::Double(c) => CpInfoInner::Double(*c),
            CpInfoInner::NameAndType(c) => CpInfoInner::NameAndType(*c),
            CpInfoInner::Utf8(c) => CpInfoInner::Utf8(c.clone()),
            CpInfoInner::MethodHandle(c) => CpInfoInner::MethodHandle(*c),
            CpInfoInner::MethodType(c) => CpInfoInner::MethodType(*c),
            CpInfoInner::Dynamic(c) => CpInfoInner::Dynamic(*c),
            CpInfoInner::InvokeDynamic(c) => CpInfoInner::InvokeDynamic(*c),
            CpInfoInner::Module(c) => CpInfoInner::Module(*c),
            CpInfoInner::Package(c) => CpInfoInner::Package(*c),
            CpInfoInner::Reserved => CpInfoInner::Reserved,
        }
    }
}

impl Clone for CpInfo {
    fn clone(&self) -> (copy: CpInfo)
        ensures
            copy@ == self@,
    {
        CpInfo { tag: self.tag, inner: self.inner.clone() }
    }
}

impl Clone for StackMapFrame {
    fn clone(&self) -> (copy: StackMapFrame)
        ensures
            copy@ == self@,
    {
        match self {
            StackMapFrame::SameFrame { frame_type } => StackMapFrame::SameFrame {
                frame_type: *frame_type,
            },
            StackMapFrame::SameLocals1StackItemFrame {
                frame_type,
                stack,
            } => StackMapFrame::SameLocals1StackItemFrame { frame_type: *frame_type, stack: *stack },
            StackMapFrame::SameLocals1StackItemFrameExtended {
                frame_type,
                offset_delta,
                stack,
            } => StackMapFrame::SameLocals1StackItemFrameExtended {
                frame_type: *frame_type,
                offset_delta: *offset_delta,
                stack: *stack,
            },
            StackMapFrame::ChopFrame { frame_type, offset_delta } => StackMapFrame::ChopFrame {
                frame_type: *frame_type,
                offset_delta: *offset_delta,
            },
            StackMapFrame::SameFrameExtended {
                frame_type,
                offset_delta,
            } => StackMapFrame::SameFrameExtended {
                frame_type: *frame_type,
                offset_delta: *offset_delta,
            },
            StackMapFrame::AppendFrame {
                frame_type,
                offset_delta,
                locals,
            } => StackMapFrame::AppendFrame {
                frame_type: *frame_type,
                offset_delta: *offset_delta,
                locals: slice_to_vec(locals.as_slice()),
            },
            StackMapFrame::FullFrame {
                frame_type,
                offset_delta,
                locals,
                stack,
            } => StackMapFrame::FullFrame {
                frame_type: *frame_type,
                offset_delta: *offset_delta,
                locals: slice_to_vec(locals.as_slice()),
                stack: slice_to_vec(stack.as_slice()),
            },
        }
    }
}

impl Clone for BootstrapMethod {
    fn clone(&self) -> (copy: BootstrapMethod)
        ensures
            copy@ == self@,
    {
        BootstrapMethod {
            bootstrap_method_ref: self.bootstrap_method_ref,
            bootstrap_arguments: slice_to_vec(self.bootstrap_arguments.as_slice()),
        }
    }
}

impl Clone for ModuleExports {
    fn clone(&self) -> (copy: ModuleExports)
        ensures
            copy@ == self@,
    {
        ModuleExports {
            exports_index: self.exports_index,
            exports_flags: self.exports_flags,
            exports_to_index: slice_to_vec(self.exports_to_index.as_slice()),
        }
    }
}

impl Clone for ModuleOpens {
    fn clone(&self) -> (copy: ModuleOpens)
        ensures
            copy@ == self@,
    {
        ModuleOpens {
            opens_index: self.opens_index,
            opens_flags: self.opens_flags,
            opens_to_index: slice_to_vec(self.opens_to_index.as_slice()),
        }
    }
}

impl Clone for ModuleProvides {
    fn clone(&self) -> (copy: ModuleProvides)
        ensures
            copy@ == self@,
    {
        ModuleProvides {
            provides_index: self.provides_index,
            provides_with_index: slice_to_vec(self.provides_with_index.as_slice()),
        }
    }
}

impl Clone for Module {
    fn clone(&self) -> (copy: Module)
        ensures
            copy@ == self@,
    {
        let mut exports: Vec<ModuleExports> = Vec::new();
        let mut i: usize = 0;
        while i < self.exports.len()
            invariant
                i <= self.exports@.len(),
                exports@.len() == i,
                forall|j: int| 0 <= j < i ==> exports@[j]@ == self.exports@[j]@,
            decreases self.exports@.len() - i,
        {
            exports.push(self.exports[i].clone());
            i = i + 1;
        }
        let mut opens: Vec<ModuleOpens> = Vec::new();
        let mut i: usize = 0;
        while i < self.opens.len()
            invariant
                i <= self.opens@.len(),
                opens@.len() == i,
                forall|j: int| 0 <= j < i ==> opens@[j]@ == self.opens@[j]@,
            decreases self.opens@.len() - i,
        {
            opens.push(self.opens[i].clone());
            i = i + 1;
        }
        let mut provides: Vec<ModuleProvides> = Vec::new();
        let mut i: usize = 0;
        while i < self.provides.len()
            invariant
                i <= self.provides@.len(),
                provides@.len() == i,
                forall|j: int| 0 <= j < i ==> provides@[j]@ == self.provides@[j]@,
            decreases self.provides@.len() - i,
        {
            provides.push(self.provides[i].clone());
            i = i + 1;
        }
        assert(views(exports@) =~= views(self.exports@));
        assert(views(opens@) =~= views(self.opens@));
        assert(views(provides@) =~= views(self.provides@));
        Module {
            module_name_index: self.module_name_index,
            module_flags: self.module_flags,
            module_version_index: self.module_version_index,
            requires: slice_to_vec(self.requires.as_slice()),
            exports,
            opens,
            uses_index: slice_to_vec(self.uses_index.as_slice()),
            provides,
        }
    }
}

/// A copy of an annotation.
pub fn clone_annotation(a: &Annotation) -> (copy: Annotation)
    ensures
        copy@ == a@,
    decreases a,
{
    let mut pairs: Vec<AnnotationElementValuePair> = Vec::new();
    let mut i: usize = 0;
    while i < a.element_value_pairs.len()
        invariant
            i <= a.element_value_pairs.len(),
            pairs@.len() == i,
            forall|j: int| 0 <= j < i ==> pairs@[j]@ == a.element_value_pairs[j]@,
        decreases a.element_value_pairs.len() - i,
    {
        let pair = &a.element_value_pairs[i];
        pairs.push(
            AnnotationElementValuePair {
                element_name_index: pair.element_name_index,
                element_name_name: clone_element_value(&pair.element_name_name),
            },
        );
        i = i + 1;
    }
    let copy = Annotation {
        type_index: a.type_index,
        num_element_value_pairs: a.num_element_value_pairs,
        element_value_pairs: pairs,
    };
    assert(copy@.element_value_pairs =~= a@.element_value_pairs);
    copy
}

/// A copy of an element value.
pub fn clone_element_value(v: &AnnotationElementValue) -> (copy: AnnotationElementValue)
    ensures
        copy@ == v@,
    decreases v,
{
    let value = match &v.value {
        AnnotationElementValueValue::ConstValueIndex {
            index,
        } => AnnotationElementValueValue::ConstValueIndex { index: *index },
        AnnotationElementValueValue::EnumConstValue {
            type_name_index,
            const_name_index,
        } => AnnotationElementValueValue::EnumConstValue {
            type_name_index: *type_name_index,
            const_name_index: *const_name_index,
        },
        AnnotationElementValueValue::ClassInfoIndex {
            index,
        } => AnnotationElementValueValue::ClassInfoIndex { index: *index },
        AnnotationElementValueValue::AnnotationValue {
            annotation,
        } => AnnotationElementValueValue::AnnotationValue {
            annotation: Box::new(clone_annotation(annotation)),
        },
        AnnotationElementValueValue::ArrayValue { values } => {
            let mut copies: Vec<AnnotationElementValue> = Vec::new();
            let mut i: usize = 0;
            while i < values.len()
                invariant
                    i <= values.len(),
                    copies@.len() == i,
                    v.value is ArrayValue,
                    v.value->ArrayValue_values == *values,
                    forall|j: int| 0 <= j < i ==> copies@[j]@ == values[j]@,
                decreases values.len() - i,
            {
                copies.push(clone_element_value(&values[i]));
                i = i + 1;
            }
            let value = AnnotationElementValueValue::ArrayValue { values: copies };
            assert(value@->ArrayValue_values =~= v.value@->ArrayValue_values);
            value
        },
    };
    AnnotationElementValue { tag: v.tag, value }
}

/// Copies of the annotations of a list.
pub fn clone_annotations(annotations: &Vec<Annotation>) -> (copies: Vec<Annotation>)
    ensures
        views(copies@) == views(annotations@),
{
    let mut copies: Vec<Annotation> = Vec::new();
    let mut i: usize = 0;
    while i < annotations.len()
        invariant
            i <= annotations@.len(),
            copies@.len() == i,
            forall|j: int| 0 <= j < i ==> copies@[j]@ == annotations@[j]@,
        decreases annotations@.len() - i,
    {
        copies.push(clone_annotation(&annotations[i]));
        i = i + 1;
    }
    assert(views(copies@) =~= views(annotations@));
    copies
}

impl Clone for Annotation {
    fn clone(&self) -> (copy: Annotation)
        ensures
            copy@ == self@,
    {
        clone_annotation(self)
    }
}

impl Clone for AnnotationElementValue {
    fn clone(&self) -> (copy: AnnotationElementValue)
        ensures
            copy@ == self@,
    {
        clone_element_value(self)
    }
}

impl Clone for AnnotationElementValuePair {
    fn clone(&self) -> (copy: AnnotationElementValuePair)
        ensures
            copy@ == self@,
    {
        AnnotationElementValuePair {
            element_name_index: self.element_name_index,
            element_name_name: clone_element_value(&self.element_name_name),
        }
    }
}

impl Clone for ParameterAnnotation {
    fn clone(&self) -> (copy: ParameterAnnotation)
        ensures
            copy@ == self@,
    {
        ParameterAnnotation { annotations: clone_annotations(&self.annotations) }
    }
}

/// Copies of the parameter annotations of a list.
fn clone_parameters(parameters: &Vec<ParameterAnnotation>) -> (copies: Vec<ParameterAnnotation>)
    ensures
        views(copies@) == views(parameters@),
{
    let mut copies: Vec<ParameterAnnotation> = Vec::new();
    let mut i: usize = 0;
    while i < parameters.len()
        invariant
            i <= parameters@.len(),
            copies@.len() == i,
            forall|j: int| 0 <= j < i ==> copies@[j]@ == parameters@[j]@,
        decreases parameters@.len() - i,
    {
        copies.push(parameters[i].clone());
        i = i + 1;
    }
    assert(views(copies@) =~= views(parameters@));
    copies
}

/// Copies of the frames of a list.
fn clone_frames(frames: &Vec<StackMapFrame>) -> (copies: Vec<StackMapFrame>)
    ensures
        views(copies@) == views(frames@),
{
    let mut copies: Vec<StackMapFrame> = Vec::new();
    let mut i: usize = 0;
    while i < frames.len()
        invariant
            i <= frames@.len(),
            copies@.len() == i,
            forall|j: int| 0 <= j < i ==> copies@[j]@ == frames@[j]@,
        decreases frames@.len() - i,
    {
        copies.push(frames[i].clone());
        i = i + 1;
    }
    assert(views(copies@) =~= views(frames@));
    copies
}

/// Copies of the bootstrap methods of a list.
fn clone_bootstrap_methods(methods: &Vec<BootstrapMethod>) -> (copies: Vec<BootstrapMethod>)
    ensures
        views(copies@) == views(methods@),
{
    let mut copies: Vec<BootstrapMethod> = Vec::new();
    let mut i: usize = 0;
    while i < methods.len()
        invariant
            i <= methods@.len(),
            copies@.len() == i,
            forall|j: int| 0 <= j < i ==> copies@[j]@ == methods@[j]@,
        decreases methods@.len() - i,
    {
        copies.push(methods[i].clone());
        i = i + 1;
    }
    assert(views(copies@) =~= views(methods@));
    copies
}

/// A copy of an attribute.
pub fn clone_attribute(a: &AttributeInfo) -> (copy: AttributeInfo)
    ensures
        copy@ == a@,
    decreases a,
{
    let inner = match &a.inner {
        AttributeInfoInner::Unknown { attribute_content } => AttributeInfoInner::Unknown {
            attribute_content: slice_to_vec(attribute_content.as_slice()),
        },
        AttributeInfoInner::ConstantValue {
            constantvalue_index,
        } => AttributeInfoInner::ConstantValue { constantvalue_index: *constantvalue_index },
        AttributeInfoInner::Code { max_stack, max_locals, code, exception_table, attributes } => {
            let mut copies: Vec<AttributeInfo> = Vec::new();
            let mut i: usize = 0;
            while i < attributes.len()
                invariant
                    i <= attributes.len(),
                    copies@.len() == i,
                    a.inner is Code,
                    a.inner->Code_attributes == *attributes,
                    forall|j: int| 0 <= j < i ==> copies@[j]@ == attributes[j]@,
                decreases attributes.len() - i,
            {
                copies.push(clone_attribute(&attributes[i]));
                i = i + 1;
            }
            let inner = AttributeInfoInner::Code {
                max_stack: *max_stack,
                max_locals: *max_locals,
                code: slice_to_vec(code.as_slice()),
                exception_table: slice_to_vec(exception_table.as_slice()),
                attributes: copies,
            };
            assert(inner@->Code_attributes =~= a.inner@->Code_attributes);
            inner
        },
        AttributeInfoInner::StackMapTable {
            number_of_entries,
            entries,
        } => AttributeInfoInner::StackMapTable {
            number_of_entries: *number_of_entries,
            entries: clone_frames(entries),
        },
        AttributeInfoInner::Exceptions {
            exception_index_table,
        } => AttributeInfoInner::Exceptions {
            exception_index_table: slice_to_vec(exception_index_table.as_slice()),
        },
        AttributeInfoInner::InnerClasses { classes } => AttributeInfoInner::InnerClasses {
            classes: slice_to_vec(classes.as_slice()),
        },
        AttributeInfoInner::EnclosingMethod {
            class_index,
            method_index,
        } => AttributeInfoInner::EnclosingMethod {
            class_index: *class_index,
            method_index: *method_index,
        },
        AttributeInfoInner::Synthetic => AttributeInfoInner::Synthetic,
        AttributeInfoInner::Signature { signature_index } => AttributeInfoInner::Signature {
            signature_index: *signature_index,
        },
        AttributeInfoInner::SourceFile { sourcefile_index } => AttributeInfoInner::SourceFile {
            sourcefile_index: *sourcefile_index,
        },
        AttributeInfoInner::SourceDebugExtension {
            debug_extension,
        } => AttributeInfoInner::SourceDebugExtension {
            debug_extension: slice_to_vec(debug_extension.as_slice()),
        },
        AttributeInfoInner::LineNumberTable {
            line_number_table,
        } => AttributeInfoInner::LineNumberTable {
            line_number_table: slice_to_vec(line_number_table.as_slice()),
        },
        AttributeInfoInner::LocalVariableTable {
            local_variable_table,
        } => AttributeInfoInner::LocalVariableTable {
            local_variable_table: slice_to_vec(local_variable_table.as_slice()),
        },
        AttributeInfoInner::LocalVariableTypeTable {
            local_variable_table,
        } => AttributeInfoInner::LocalVariableTypeTable {
            local_variable_table: slice_to_vec(local_variable_table.as_slice()),
        },
        AttributeInfoInner::Deprecated => AttributeInfoInner::Deprecated,
        AttributeInfoInner::RuntimeVisibleAnnotations {
            annotations,
        } => AttributeInfoInner::RuntimeVisibleAnnotations {
            annotations: clone_annotations(annotations),
        },
        AttributeInfoInner::RuntimeInvisibleAnnotations {
            annotations,
        } => AttributeInfoInner::RuntimeInvisibleAnnotations {
            annotations: clone_annotations(annotations),
        },
        AttributeInfoInner::RuntimeVisibleParameterAnnotations {
            parameter_annotations,
        } => AttributeInfoInner::RuntimeVisibleParameterAnnotations {
            parameter_annotations: clone_parameters(parameter_annotations),
        },
        AttributeInfoInner::RuntimeInvisibleParameterAnnotations {
            parameter_annotations,
        } => AttributeInfoInner::RuntimeInvisibleParameterAnnotations {
            parameter_annotations: clone_parameters(parameter_annotations),
        },
        AttributeInfoInner::AnnotationDefault {
            default_value,
        } => AttributeInfoInner::AnnotationDefault {
            default_value: clone_element_value(default_value),
        },
        AttributeInfoInner::BootstrapMethods {
            bootstrap_methods,
        } => AttributeInfoInner::BootstrapMethods {
            bootstrap_methods: clone_bootstrap_methods(bootstrap_methods),
        },
        AttributeInfoInner::Module(module) => AttributeInfoInner::Module(
            Box::new((**module).clone()),
        ),
        AttributeInfoInner::MethodParameters => AttributeInfoInner::MethodParameters,
        AttributeInfoInner::ModulePackages => AttributeInfoInner::ModulePackages,
        AttributeInfoInner::ModuleMainClass => AttributeInfoInner::ModuleMainClass,
        AttributeInfoInner::NestHost => AttributeInfoInner::NestHost,
        AttributeInfoInner::NestMembers => AttributeInfoInner::NestMembers,
        AttributeInfoInner::Record => AttributeInfoInner::Record,
    };
    AttributeInfo {
        attribute_name_index: a.attribute_name_index,
        attribute_length: a.attribute_length,
        inner,
    }
}

/// Copies of the attributes of a list.
pub fn clone_attributes(attributes: &Vec<AttributeInfo>) -> (copies: Vec<AttributeInfo>)
    ensures
        views(copies@) == views(attributes@),
{
    let mut copies: Vec<AttributeInfo> = Vec::new();
    let mut i: usize = 0;
    while i < attributes.len()
        invariant
            i <= attributes@.len(),
            copies@.len() == i,
            forall|j: int| 0 <= j < i ==> copies@[j]@ == attributes@[j]@,
        decreases attributes@.len() - i,
    {
        copies.push(clone_attribute(&attributes[i]));
        i = i + 1;
    }
    assert(views(copies@) =~= views(attributes@));
    copies
}

impl Clone for AttributeInfo {
    fn clone(&self) -> (copy: AttributeInfo)
        ensures
            copy@ == self@,
    {
        clone_attribute(self)
    }
}

impl Clone for FieldInfo {
    fn clone(&self) -> (copy: FieldInfo)
        ensures
            copy@ == self@,
    {
        FieldInfo {
            access_flags: self.access_flags,
            name_index: self.name_index,
            descriptor_index: self.descriptor_index,
            attributes: clone_attributes(&self.attributes),
        }
    }
}

impl Clone for MethodInfo {
    fn clone(&self) -> (copy: MethodInfo)
        ensures
            copy@ == self@,
    {
        MethodInfo {
            access_flags: self.access_flags,
            name_index: self.name_index,
            descriptor_index: self.descriptor_index,
            attributes: clone_attributes(&self.attributes),
        }
    }
}

impl Clone for ClassFile {
    fn clone(&self) -> (copy: ClassFile)
        ensures
            copy@ == self@,
    {
        let mut constant_pool: Vec<CpInfo> = Vec::new();
        let mut i: usize = 0;
        while i < self.constant_pool.len()
            invariant
                i <= self.constant_pool@.len(),
                constant_pool@.len() == i,
                forall|j: int| 0 <= j < i ==> constant_pool@[j]@ == self.constant_pool@[j]@,
            decreases self.constant_pool@.len() - i,
        {
            constant_pool.push(self.constant_pool[i].clone());
            i = i + 1;
        }
        let mut fields: Vec<FieldInfo> = Vec::new();
        let mut i: usize = 0;
        while i < self.fields.len()
            invariant
                i <= self.fields@.len(),
                fields@.len() == i,
                forall|j: int| 0 <= j < i ==> fields@[j]@ == self.fields@[j]@,
            decreases self.fields@.len() - i,
        {
            fields.push(self.fields[i].clone());
            i = i + 1;
        }
        let mut methods: Vec<MethodInfo> = Vec::new();
        let mut i: usize = 0;
        while i < self.methods.len()
            invariant
                i <= self.methods@.len(),
                methods@.len() == i,
                forall|j: int| 0 <= j < i ==> methods@[j]@ == self.methods@[j]@,
            decreases self.methods@.len() - i,
        {
            methods.push(self.methods[i].clone());
            i = i + 1;
        }
        assert(views(constant_pool@) =~= views(self.constant_pool@));
        assert(views(fields@) =~= views(self.fields@));
        assert(views(methods@) =~= views(self.methods@));
        ClassFile {
            magic: self.magic,
            minor_version: self.minor_version,
            major_version: self.major_version,
            constant_pool,
            access_flags: self.access_flags,
            this_class: self.this_class,
            super_class: self.super_class,
            interfaces: slice_to_vec(self.interfaces.as_slice()),
            fields,
            methods,
            attributes: clone_attributes(&self.attributes),
        }
    }
}

} // verus!
