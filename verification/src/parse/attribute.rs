use crate::cursor::{be_u16, be_u32, has_bytes, Data};
use crate::error::{ErrorKind, ErrorKindView, ParseErr};
use crate::model::attribute::{
    all_resolved, Annotation, AnnotationElementValue, AnnotationView, AttributeCodeException, AttributeInfo,
    AttributeInfoInner, AttributeInfoInnerView, AttributeInfoView, AttributeInnerClass,
    AttributeLineNumber, AttributeLocalVariableTable, BootstrapMethod, ParameterAnnotation,
    ParameterAnnotationView, StackMapFrame,
};
use crate::model::clone::clone_attribute;
use crate::model::cp_info::{Class, FromCpInfo, FromPool, Utf8, ValidateCpInfo};
use crate::model::{views, CpInfo, CpInfoInnerView, CpInfoView};
use crate::parse::annotation::{
    parse_annotations, parse_parameter_annotations, spec_parse_annotations,
    spec_parse_element_value, spec_parse_parameter_annotations,
};
use crate::parse::{
    gives, gives_seq, join, parse_vec, spec_parse_seq, value_of, yields_seq, Parse, Parsed,
};
use crate::text::str_eq;
use vstd::prelude::*;
use vstd::slice::slice_to_vec;

verus! {

/// How many levels of nesting the parser follows below a top-level
/// attribute: `Code` attributes inside `Code` attributes, and annotations
/// and arrays inside element values of annotations.
pub const MAX_NESTING_DEPTH: usize = 64;

impl Parse for AttributeInfo {
    /// A name, a 32-bit length, and that many bytes of payload, kept as they stand.
    open spec fn spec_parse(s: Seq<u8>, pos: int) -> Parsed<AttributeInfoView> {
        if !has_bytes(s, pos, 6) {
            Err(ErrorKindView::TruncatedInput)
        } else {
            let length = be_u32(s, pos + 2);
            if !has_bytes(s, pos + 6, length as int) {
                Err(ErrorKindView::TruncatedInput)
            } else {
                Ok(
                    (
                        AttributeInfoView {
                            attribute_name_index: FromPool::spec_new(be_u16(s, pos)),
                            attribute_length: length,
                            inner: AttributeInfoInnerView::Unknown {
                                attribute_content: s.subrange(pos + 6, pos + 6 + length),
                            },
                        },
                        pos + 6 + length,
                    ),
                )
            }
        }
    }

    fn parse(data: &mut Data) -> (r: Result<AttributeInfo, ParseErr>) {
        let attribute_name_index = data.cp()?;
        let attribute_length = data.u4()?;
        let payload = data.take(attribute_length as usize)?;
        Ok(
            AttributeInfo {
                attribute_name_index,
                attribute_length,
                inner: AttributeInfoInner::Unknown { attribute_content: slice_to_vec(payload) },
            },
        )
    }
}

/// A 16-bit count at `pos` and that many values behind it.
pub open spec fn spec_parse_counted<T: Parse>(s: Seq<u8>, pos: int) -> Parsed<Seq<T::V>> {
    if has_bytes(s, pos, 2) {
        spec_parse_seq::<T>(s, pos + 2, be_u16(s, pos) as nat)
    } else {
        Err(ErrorKindView::TruncatedInput)
    }
}

/// Reads a 16-bit count and that many values.
pub fn parse_counted<T: Parse>(data: &mut Data) -> (r: Result<Vec<T>, ParseErr>)
    ensures
        final(data).bytes() == old(data).bytes(),
        yields_seq(
            r,
            final(data).pos(),
            spec_parse_counted::<T>(old(data).bytes(), old(data).pos()),
        ),
{
    let count = data.u2()?;
    parse_vec::<T>(count as usize, data)
}

/// The characters of the `Utf8` entry in slot `index` of the pool.
pub open spec fn spec_utf8_at(pool: Seq<CpInfoView>, index: u16) -> Result<
    Seq<char>,
    ErrorKindView,
> {
    if index == 0 {
        Err(ErrorKindView::BadPoolIndex)
    } else if index > pool.len() {
        Err(ErrorKindView::OutOfBoundsIndex)
    } else {
        match pool[index - 1].inner {
            CpInfoInnerView::Utf8(chars) => Ok(chars),
            CpInfoInnerView::Reserved => Err(ErrorKindView::BadPoolIndex),
            other => Err(ErrorKindView::PoolTypeMismatch { expected: 1, found: other.tag() }),
        }
    }
}

/// The payload of a `Code` attribute: two 16-bit maxima, the instructions
/// with their 32-bit length, the exception table with its count, and the
/// nested attributes with their count, each resolved one level down.
pub open spec fn spec_parse_code(content: Seq<u8>, pool: Seq<CpInfoView>, depth: nat) -> Result<
    AttributeInfoInnerView,
    ErrorKindView,
>
    decreases depth, 0nat, 0nat,
{
    if depth == 0 {
        Err(ErrorKindView::NestingTooDeep)
    } else if !has_bytes(content, 0, 8) {
        Err(ErrorKindView::TruncatedInput)
    } else {
        let code_length = be_u32(content, 4) as int;
        if !has_bytes(content, 8, code_length) {
            Err(ErrorKindView::TruncatedInput)
        } else {
            match spec_parse_counted::<AttributeCodeException>(content, 8 + code_length) {
                Err(e) => Err(e),
                Ok((exception_table, mid)) => match spec_parse_counted::<AttributeInfo>(
                    content,
                    mid,
                ) {
                    Err(e) => Err(e),
                    Ok((raw, _)) => match spec_resolve_from(raw, 0, pool, (depth - 1) as nat) {
                        Err(e) => Err(e),
                        Ok(attributes) => Ok(
                            AttributeInfoInnerView::Code {
                                max_stack: be_u16(content, 0),
                                max_locals: be_u16(content, 2),
                                code: content.subrange(8, 8 + code_length),
                                exception_table,
                                attributes,
                            },
                        ),
                    },
                },
            }
        }
    }
}

/// The pool reference that is the whole payload `content`.
pub open spec fn spec_parse_reference<T>(content: Seq<u8>) -> Result<FromPool<T>, ErrorKindView> {
    if has_bytes(content, 0, 2) {
        Ok(FromPool::spec_new(be_u16(content, 0)))
    } else {
        Err(ErrorKindView::TruncatedInput)
    }
}

/// The table that is the payload `content`: a 16-bit count and that many entries.
pub open spec fn spec_parse_table<T: Parse>(content: Seq<u8>) -> Result<Seq<T::V>, ErrorKindView> {
    value_of(spec_parse_counted::<T>(content, 0))
}

/// The annotations that are the payload `content`: a 16-bit count and that
/// many annotations.
pub open spec fn spec_parse_annotation_table(content: Seq<u8>, depth: nat) -> Result<
    Seq<AnnotationView>,
    ErrorKindView,
> {
    if has_bytes(content, 0, 2) {
        value_of(spec_parse_annotations(content, 2, be_u16(content, 0) as nat, depth))
    } else {
        Err(ErrorKindView::TruncatedInput)
    }
}

/// The parameter annotations that are the payload `content`: a count of one
/// byte and, for that many parameters, the annotations of each.
pub open spec fn spec_parse_parameter_table(content: Seq<u8>, depth: nat) -> Result<
    Seq<ParameterAnnotationView>,
    ErrorKindView,
> {
    if has_bytes(content, 0, 1) {
        value_of(spec_parse_parameter_annotations(content, 1, content[0] as nat, depth))
    } else {
        Err(ErrorKindView::TruncatedInput)
    }
}

/// The payload that the bytes `content` hold for an attribute of the given
/// name. Bytes of `content` behind the payload are not looked at.
pub open spec fn spec_parse_body(
    name: Seq<char>,
    content: Seq<u8>,
    pool: Seq<CpInfoView>,
    depth: nat,
) -> Result<AttributeInfoInnerView, ErrorKindView>
    decreases depth, 1nat, 0nat,
{
    if name == "ConstantValue"@ {
        match spec_parse_reference(content) {
            Ok(constantvalue_index) => Ok(
                AttributeInfoInnerView::ConstantValue { constantvalue_index },
            ),
            Err(e) => Err(e),
        }
    } else if name == "Code"@ {
        spec_parse_code(content, pool, depth)
    } else if name == "StackMapTable"@ {
        match spec_parse_table::<StackMapFrame>(content) {
            Ok(entries) => Ok(
                AttributeInfoInnerView::StackMapTable {
                    number_of_entries: be_u16(content, 0),
                    entries,
                },
            ),
            Err(e) => Err(e),
        }
    } else if name == "Exceptions"@ {
        match spec_parse_table::<FromPool<Class>>(content) {
            Ok(exception_index_table) => Ok(
                AttributeInfoInnerView::Exceptions { exception_index_table },
            ),
            Err(e) => Err(e),
        }
    } else if name == "InnerClasses"@ {
        match spec_parse_table::<AttributeInnerClass>(content) {
            Ok(classes) => Ok(AttributeInfoInnerView::InnerClasses { classes }),
            Err(e) => Err(e),
        }
    } else if name == "EnclosingMethod"@ {
        if has_bytes(content, 0, 4) {
            Ok(
                AttributeInfoInnerView::EnclosingMethod {
                    class_index: FromPool::spec_new(be_u16(content, 0)),
                    method_index: FromPool::spec_new(be_u16(content, 2)),
                },
            )
        } else {
            Err(ErrorKindView::TruncatedInput)
        }
    } else if name == "Synthetic"@ {
        Ok(AttributeInfoInnerView::Synthetic)
    } else if name == "Signature"@ {
        match spec_parse_reference(content) {
            Ok(signature_index) => Ok(AttributeInfoInnerView::Signature { signature_index }),
            Err(e) => Err(e),
        }
    } else if name == "SourceFile"@ {
        match spec_parse_reference(content) {
            Ok(sourcefile_index) => Ok(AttributeInfoInnerView::SourceFile { sourcefile_index }),
            Err(e) => Err(e),
        }
    } else if name == "SourceDebugExtension"@ {
        Ok(AttributeInfoInnerView::SourceDebugExtension { debug_extension: content })
    } else if name == "LineNumberTable"@ {
        match spec_parse_table::<AttributeLineNumber>(content) {
            Ok(line_number_table) => Ok(
                AttributeInfoInnerView::LineNumberTable { line_number_table },
            ),
            Err(e) => Err(e),
        }
    } else if name == "LocalVariableTable"@ {
        match spec_parse_table::<AttributeLocalVariableTable>(content) {
            Ok(local_variable_table) => Ok(
                AttributeInfoInnerView::LocalVariableTable { local_variable_table },
            ),
            Err(e) => Err(e),
        }
    } else if name == "LocalVariableTypeTable"@ {
        match spec_parse_table::<AttributeLocalVariableTable>(content) {
            Ok(local_variable_table) => Ok(
                AttributeInfoInnerView::LocalVariableTypeTable { local_variable_table },
            ),
            Err(e) => Err(e),
        }
    } else if name == "Deprecated"@ {
        Ok(AttributeInfoInnerView::Deprecated)
    } else if name == "RuntimeVisibleAnnotations"@ {
        match spec_parse_annotation_table(content, depth) {
            Ok(annotations) => Ok(AttributeInfoInnerView::RuntimeVisibleAnnotations { annotations }),
            Err(e) => Err(e),
        }
    } else if name == "RuntimeInvisibleAnnotations"@ {
        match spec_parse_annotation_table(content, depth) {
            Ok(annotations) => Ok(
                AttributeInfoInnerView::RuntimeInvisibleAnnotations { annotations },
            ),
            Err(e) => Err(e),
        }
    } else if name == "RuntimeVisibleParameterAnnotations"@ {
        match spec_parse_parameter_table(content, depth) {
            Ok(parameter_annotations) => Ok(
                AttributeInfoInnerView::RuntimeVisibleParameterAnnotations { parameter_annotations },
            ),
            Err(e) => Err(e),
        }
    } else if name == "RuntimeInvisibleParameterAnnotations"@ {
        match spec_parse_parameter_table(content, depth) {
            Ok(parameter_annotations) => Ok(
                AttributeInfoInnerView::RuntimeInvisibleParameterAnnotations {
                    parameter_annotations,
                },
            ),
            Err(e) => Err(e),
        }
    } else if name == "AnnotationDefault"@ {
        match value_of(spec_parse_element_value(content, 0, depth)) {
            Ok(default_value) => Ok(AttributeInfoInnerView::AnnotationDefault { default_value }),
            Err(e) => Err(e),
        }
    } else if name == "BootstrapMethods"@ {
        match spec_parse_table::<BootstrapMethod>(content) {
            Ok(bootstrap_methods) => Ok(
                AttributeInfoInnerView::BootstrapMethods { bootstrap_methods },
            ),
            Err(e) => Err(e),
        }
    } else {
        Err(ErrorKindView::UnknownAttributeName { name })
    }
}

/// The attribute `a` with its payload resolved against `pool`: the name is
/// looked up in the pool and selects the variant as which the payload is
/// read. An attribute that is resolved already stays as it is.
pub open spec fn spec_resolve(a: AttributeInfoView, pool: Seq<CpInfoView>, depth: nat) -> Result<
    AttributeInfoView,
    ErrorKindView,
>
    decreases depth, 2nat, 0nat,
{
    match a.inner {
        AttributeInfoInnerView::Unknown { attribute_content } => match spec_utf8_at(
            pool,
            a.attribute_name_index.index(),
        ) {
            Err(e) => Err(e),
            Ok(name) => match spec_parse_body(name, attribute_content, pool, depth) {
                Err(e) => Err(e),
                Ok(inner) => Ok(
                    AttributeInfoView {
                        attribute_name_index: a.attribute_name_index,
                        attribute_length: a.attribute_length,
                        inner,
                    },
                ),
            },
        },
        _ => Ok(a),
    }
}

/// The attributes of `attributes` from place `from` on, each resolved, in
/// their order; the failure of the first that fails.
pub open spec fn spec_resolve_from(
    attributes: Seq<AttributeInfoView>,
    from: int,
    pool: Seq<CpInfoView>,
    depth: nat,
) -> Result<Seq<AttributeInfoView>, ErrorKindView>
    decreases depth, 3nat, attributes.len() - from,
{
    if from < 0 || from >= attributes.len() {
        Ok(Seq::empty())
    } else {
        match spec_resolve(attributes[from], pool, depth) {
            Err(e) => Err(e),
            Ok(first) => match spec_resolve_from(attributes, from + 1, pool, depth) {
                Err(e) => Err(e),
                Ok(rest) => Ok(seq![first] + rest),
            },
        }
    }
}

/// All attributes of a list, each resolved.
pub open spec fn spec_resolve_all(
    attributes: Seq<AttributeInfoView>,
    pool: Seq<CpInfoView>,
    depth: nat,
) -> Result<Seq<AttributeInfoView>, ErrorKindView> {
    spec_resolve_from(attributes, 0, pool, depth)
}

/// Looking a name up through the views of the pool is looking it up in the pool.
pub proof fn lemma_utf8_at(pool: Seq<CpInfo>, index: u16)
    ensures
        match spec_utf8_at(views(pool), index) {
            Ok(chars) => {
                &&& crate::model::cp_info::spec_slot_check(pool, index, Some(1u8), false) is Ok
                &&& pool[index - 1].inner is Utf8
                &&& pool[index - 1].inner->Utf8_0.bytes@ == chars
            },
            Err(e) => crate::model::cp_info::spec_slot_check(pool, index, Some(1u8), false)
                == Err::<(), ErrorKindView>(e),
        },
{
}

/// Reads a payload that is one pool reference.
pub fn parse_reference<T>(content: &[u8]) -> (r: Result<FromPool<T>, ParseErr>)
    ensures
        gives(r, spec_parse_reference::<T>(content@)),
{
    let mut data = Data::new(content);
    data.cp()
}

/// Reads a payload that is a 16-bit count and that many entries.
pub fn parse_table<T: Parse>(content: &[u8]) -> (r: Result<Vec<T>, ParseErr>)
    ensures
        gives_seq(r, spec_parse_table::<T>(content@)),
{
    let mut data = Data::new(content);
    parse_counted::<T>(&mut data)
}

/// Reads a payload that is a 16-bit count and that many annotations.
pub fn parse_annotation_table(content: &[u8], depth: usize) -> (r: Result<
    Vec<Annotation>,
    ParseErr,
>)
    ensures
        gives_seq(r, spec_parse_annotation_table(content@, depth as nat)),
{
    let mut data = Data::new(content);
    let count = data.u2()?;
    parse_annotations(&mut data, count as usize, depth)
}

/// Reads a payload that is a count of one byte and, for that many
/// parameters, the annotations of each.
pub fn parse_parameter_table(content: &[u8], depth: usize) -> (r: Result<
    Vec<ParameterAnnotation>,
    ParseErr,
>)
    ensures
        gives_seq(r, spec_parse_parameter_table(content@, depth as nat)),
{
    let mut data = Data::new(content);
    let count = data.u1()?;
    parse_parameter_annotations(&mut data, count as usize, depth)
}

impl AttributeInfo {
    /// Reads the payload of an attribute of the given name out of `content`.
    /// `depth` is how many levels of nesting are followed below the attribute.
    pub fn resolve_attribute_inner(name: &str, content: &[u8], pool: &[CpInfo], depth: usize) -> (r:
        Result<AttributeInfoInner, ParseErr>)
        ensures
            gives(r, spec_parse_body(name@, content@, views(pool@), depth as nat)),
        decreases depth, 1nat, 0nat,
    {
        if str_eq(name, "ConstantValue") {
            Ok(AttributeInfoInner::ConstantValue { constantvalue_index: parse_reference(content)? })
        } else if str_eq(name, "Code") {
            parse_code(content, pool, depth)
        } else if str_eq(name, "StackMapTable") {
            let entries = parse_table::<StackMapFrame>(content)?;
            let mut data = Data::new(content);
            let number_of_entries = data.u2()?;
            let inner = AttributeInfoInner::StackMapTable { number_of_entries, entries };
            assert(inner@->StackMapTable_entries =~= views(inner->StackMapTable_entries@));
            Ok(inner)
        } else if str_eq(name, "Exceptions") {
            let exception_index_table = parse_table::<FromPool<Class>>(content)?;
            assert(views(exception_index_table@) =~= exception_index_table@);
            Ok(AttributeInfoInner::Exceptions { exception_index_table })
        } else if str_eq(name, "InnerClasses") {
            let classes = parse_table::<AttributeInnerClass>(content)?;
            assert(views(classes@) =~= classes@);
            Ok(AttributeInfoInner::InnerClasses { classes })
        } else if str_eq(name, "EnclosingMethod") {
            let mut data = Data::new(content);
            let class_index = data.cp()?;
            let method_index = data.cp()?;
            Ok(AttributeInfoInner::EnclosingMethod { class_index, method_index })
        } else if str_eq(name, "Synthetic") {
            Ok(AttributeInfoInner::Synthetic)
        } else if str_eq(name, "Signature") {
            Ok(AttributeInfoInner::Signature { signature_index: parse_reference(content)? })
        } else if str_eq(name, "SourceFile") {
            Ok(AttributeInfoInner::SourceFile { sourcefile_index: parse_reference(content)? })
        } else if str_eq(name, "SourceDebugExtension") {
            Ok(AttributeInfoInner::SourceDebugExtension { debug_extension: slice_to_vec(content) })
        } else if str_eq(name, "LineNumberTable") {
            let line_number_table = parse_table::<AttributeLineNumber>(content)?;
            assert(views(line_number_table@) =~= line_number_table@);
            Ok(AttributeInfoInner::LineNumberTable { line_number_table })
        } else if str_eq(name, "LocalVariableTable") {
            let local_variable_table = parse_table::<AttributeLocalVariableTable>(content)?;
            assert(views(local_variable_table@) =~= local_variable_table@);
            Ok(AttributeInfoInner::LocalVariableTable { local_variable_table })
        } else if str_eq(name, "LocalVariableTypeTable") {
            let local_variable_table = parse_table::<AttributeLocalVariableTable>(content)?;
            assert(views(local_variable_table@) =~= local_variable_table@);
            Ok(AttributeInfoInner::LocalVariableTypeTable { local_variable_table })
        } else if str_eq(name, "Deprecated") {
            Ok(AttributeInfoInner::Deprecated)
        } else if str_eq(name, "RuntimeVisibleAnnotations") {
            let annotations = parse_annotation_table(content, depth)?;
            let inner = AttributeInfoInner::RuntimeVisibleAnnotations { annotations };
            assert(inner@->RuntimeVisibleAnnotations_annotations =~= views(
                inner->RuntimeVisibleAnnotations_annotations@,
            ));
            Ok(inner)
        } else if str_eq(name, "RuntimeInvisibleAnnotations") {
            let annotations = parse_annotation_table(content, depth)?;
            let inner = AttributeInfoInner::RuntimeInvisibleAnnotations { annotations };
            assert(inner@->RuntimeInvisibleAnnotations_annotations =~= views(
                inner->RuntimeInvisibleAnnotations_annotations@,
            ));
            Ok(inner)
        } else if str_eq(name, "RuntimeVisibleParameterAnnotations") {
            let parameter_annotations = parse_parameter_table(content, depth)?;
            let inner = AttributeInfoInner::RuntimeVisibleParameterAnnotations {
                parameter_annotations,
            };
            assert(inner@->RuntimeVisibleParameterAnnotations_parameter_annotations =~= views(
                inner->RuntimeVisibleParameterAnnotations_parameter_annotations@,
            ));
            Ok(inner)
        } else if str_eq(name, "RuntimeInvisibleParameterAnnotations") {
            let parameter_annotations = parse_parameter_table(content, depth)?;
            let inner = AttributeInfoInner::RuntimeInvisibleParameterAnnotations {
                parameter_annotations,
            };
            assert(inner@->RuntimeInvisibleParameterAnnotations_parameter_annotations =~= views(
                inner->RuntimeInvisibleParameterAnnotations_parameter_annotations@,
            ));
            Ok(inner)
        } else if str_eq(name, "AnnotationDefault") {
            let mut data = Data::new(content);
            let default_value = AnnotationElementValue::parse(&mut data, depth)?;
            Ok(AttributeInfoInner::AnnotationDefault { default_value })
        } else if str_eq(name, "BootstrapMethods") {
            let bootstrap_methods = parse_table::<BootstrapMethod>(content)?;
            let inner = AttributeInfoInner::BootstrapMethods { bootstrap_methods };
            assert(inner@->BootstrapMethods_bootstrap_methods =~= views(
                inner->BootstrapMethods_bootstrap_methods@,
            ));
            Ok(inner)
        } else {
            Err(ParseErr::new(ErrorKind::UnknownAttributeName { name: name.to_owned() }))
        }
    }

    /// The attribute with its payload resolved against `pool`. An
    /// attribute that is resolved already is handed out as it is.
    pub fn resolved(&self, pool: &[CpInfo], depth: usize) -> (r: Result<AttributeInfo, ParseErr>)
        ensures
            gives(r, spec_resolve(self@, views(pool@), depth as nat)),
        decreases depth, 2nat, 0nat,
    {
        match &self.inner {
            AttributeInfoInner::Unknown { attribute_content } => {
                proof {
                    lemma_utf8_at(pool@, self.attribute_name_index.index());
                }
                let name = self.attribute_name_index.get(pool)?;
                let inner = Self::resolve_attribute_inner(
                    name,
                    attribute_content.as_slice(),
                    pool,
                    depth,
                )?;
                Ok(
                    AttributeInfo {
                        attribute_name_index: self.attribute_name_index,
                        attribute_length: self.attribute_length,
                        inner,
                    },
                )
            },
            _ => Ok(clone_attribute(self)),
        }
    }

    /// Resolves the payload against `pool`, in place. An attribute that is
    /// resolved already, and one whose resolution fails, stays as it is.
    pub fn resolve_attribute(&mut self, pool: &[CpInfo], depth: usize) -> (r: Result<(), ParseErr>)
        ensures
            match r {
                Ok(()) => spec_resolve(old(self)@, views(pool@), depth as nat) == Ok::<
                    AttributeInfoView,
                    ErrorKindView,
                >(final(self)@),
                Err(e) => {
                    &&& spec_resolve(old(self)@, views(pool@), depth as nat) == Err::<
                        AttributeInfoView,
                        ErrorKindView,
                    >(e@)
                    &&& *final(self) == *old(self)
                },
            },
    {
        let resolved = self.resolved(pool, depth)?;
        *self = resolved;
        Ok(())
    }
}

/// Reads the payload of a `Code` attribute out of `content`.
pub fn parse_code(content: &[u8], pool: &[CpInfo], depth: usize) -> (r: Result<
    AttributeInfoInner,
    ParseErr,
>)
    ensures
        gives(r, spec_parse_code(content@, views(pool@), depth as nat)),
    decreases depth, 0nat, 0nat,
{
    if depth == 0 {
        return Err(ParseErr::new(ErrorKind::NestingTooDeep));
    }
    let mut data = Data::new(content);
    let max_stack = data.u2()?;
    let max_locals = data.u2()?;
    let code_length = data.u4()?;
    let code = slice_to_vec(data.take(code_length as usize)?);
    let exception_table = parse_counted::<AttributeCodeException>(&mut data)?;
    let raw = parse_counted::<AttributeInfo>(&mut data)?;
    let attributes = resolved_all(&raw, pool, depth - 1)?;
    assert(views(exception_table@) =~= exception_table@);
    let inner = AttributeInfoInner::Code { max_stack, max_locals, code, exception_table, attributes };
    assert(inner@->Code_attributes =~= views(inner->Code_attributes@));
    Ok(inner)
}

/// The attributes of a list, each resolved against `pool`, in their order.
/// Stops at the first that fails.
pub fn resolved_all(attributes: &Vec<AttributeInfo>, pool: &[CpInfo], depth: usize) -> (r: Result<
    Vec<AttributeInfo>,
    ParseErr,
>)
    ensures
        gives_seq(r, spec_resolve_all(views(attributes@), views(pool@), depth as nat)),
    decreases depth, 3nat, 0nat,
{
    let ghost raw = views(attributes@);
    let ghost p = views(pool@);
    let mut resolved: Vec<AttributeInfo> = Vec::new();
    let mut i: usize = 0;
    while i < attributes.len()
        invariant
            i <= attributes@.len(),
            resolved@.len() == i,
            raw == views(attributes@),
            p == views(pool@),
            spec_resolve_from(raw, 0, p, depth as nat) == join(
                views(resolved@),
                spec_resolve_from(raw, i as int, p, depth as nat),
            ),
        decreases attributes@.len() - i,
    {
        let ghost before = resolved@;
        let ghost rest = spec_resolve_from(raw, i + 1, p, depth as nat);
        let one = attributes[i].resolved(pool, depth)?;
        resolved.push(one);
        proof {
            assert(views(resolved@) =~= views(before).push(one@));
            if rest is Ok {
                assert(views(before) + (seq![one@] + rest->Ok_0) =~= views(resolved@)
                    + rest->Ok_0);
            }
        }
        i = i + 1;
    }
    assert(views(resolved@) + Seq::<AttributeInfoView>::empty() =~= views(resolved@));
    Ok(resolved)
}

/// Resolves each attribute of a list against `pool`, in place. Where one
/// fails, the list stays as it is.
pub fn resolve_all(attributes: &mut Vec<AttributeInfo>, pool: &[CpInfo], depth: usize) -> (r:
    Result<(), ParseErr>)
    ensures
        match r {
            Ok(()) => spec_resolve_all(views(old(attributes)@), views(pool@), depth as nat) == Ok::<
                Seq<AttributeInfoView>,
                ErrorKindView,
            >(views(final(attributes)@)),
            Err(e) => {
                &&& spec_resolve_all(views(old(attributes)@), views(pool@), depth as nat)
                    == Err::<Seq<AttributeInfoView>, ErrorKindView>(e@)
                &&& *final(attributes) == *old(attributes)
            },
        },
{
    let resolved = resolved_all(attributes, pool, depth)?;
    *attributes = resolved;
    Ok(())
}

/// Whether each attribute of a list still has its payload as it stands in the file.
pub open spec fn all_raw(attributes: Seq<AttributeInfoView>) -> bool {
    forall|i: int| 0 <= i < attributes.len() ==> (#[trigger] attributes[i]).inner is Unknown
}

/// Attributes that are read from the input have their payloads as they stand.
pub proof fn lemma_parsed_attributes_are_raw(s: Seq<u8>, pos: int, n: nat)
    ensures
        spec_parse_seq::<AttributeInfo>(s, pos, n) matches Ok((attributes, _)) ==> all_raw(
            attributes,
        ),
    decreases n,
{
    if n > 0 {
        match AttributeInfo::spec_parse(s, pos) {
            Ok((first, next)) => {
                lemma_parsed_attributes_are_raw(s, next, (n - 1) as nat);
            },
            Err(_) => {},
        }
    }
}

/// Resolution leaves no payload as it stands: where an attribute whose
/// payload is unresolved resolves, the result is resolved, and so is every
/// attribute nested in it.
pub proof fn lemma_resolve_resolves(a: AttributeInfoView, pool: Seq<CpInfoView>, depth: nat)
    requires
        a.inner is Unknown,
    ensures
        spec_resolve(a, pool, depth) matches Ok(resolved) ==> resolved.is_resolved(),
    decreases depth, 0nat, 0nat,
{
    let content = a.inner->Unknown_attribute_content;
    match spec_utf8_at(pool, a.attribute_name_index.index()) {
        Ok(name) => {
            if name == "Code"@ && name != "ConstantValue"@ && depth > 0 {
                if has_bytes(content, 0, 8) && has_bytes(content, 8, be_u32(content, 4) as int) {
                    match spec_parse_counted::<AttributeCodeException>(
                        content,
                        8 + be_u32(content, 4),
                    ) {
                        Ok((_, mid)) => {
                            if has_bytes(content, mid, 2) {
                                lemma_parsed_attributes_are_raw(
                                    content,
                                    mid + 2,
                                    be_u16(content, mid) as nat,
                                );
                                match spec_parse_counted::<AttributeInfo>(content, mid) {
                                    Ok((raw, _)) => {
                                        lemma_resolve_all_resolves(
                                            raw,
                                            0,
                                            pool,
                                            (depth - 1) as nat,
                                        );
                                    },
                                    Err(_) => {},
                                }
                            }
                        },
                        Err(_) => {},
                    }
                }
            }
        },
        Err(_) => {},
    }
}

/// Resolution of a list leaves no payload as it stands, and keeps the
/// number of attributes.
pub proof fn lemma_resolve_all_resolves(
    attributes: Seq<AttributeInfoView>,
    from: int,
    pool: Seq<CpInfoView>,
    depth: nat,
)
    requires
        all_raw(attributes),
        0 <= from <= attributes.len(),
    ensures
        spec_resolve_from(attributes, from, pool, depth) matches Ok(resolved) ==> {
            &&& resolved.len() == attributes.len() - from
            &&& all_resolved(resolved)
        },
    decreases depth, 1nat, attributes.len() - from,
{
    if from < attributes.len() {
        lemma_resolve_resolves(attributes[from], pool, depth);
        lemma_resolve_all_resolves(attributes, from + 1, pool, depth);
    }
}

} // verus!
