use crate::cursor::{be_u16, be_u32, has_bytes, Data};
use crate::error::{ErrorKind, ErrorKindView, ParseErr};
use crate::model::attribute::{AttributeInfo, AttributeInfoView};
use crate::model::cp_info::{Class, FromPool};
use crate::model::{
    views, ClassFile, ClassFileView, CpInfo, CpInfoView, FieldInfo, FieldInfoView, MethodInfo,
    MethodInfoView,
};
use crate::model::attribute::all_resolved;
use crate::parse::attribute::{
    all_raw, lemma_parsed_attributes_are_raw, lemma_resolve_all_resolves, parse_counted,
    resolved_all, spec_parse_counted, spec_resolve_all, MAX_NESTING_DEPTH,
};
use crate::parse::pool::{
    lemma_pool_slots, parse_constant_pool, pool_slots, slots_are_paired, spec_parse_pool,
};
use crate::parse::{gives, gives_seq, join, Parse, Parsed};
use vstd::prelude::*;

verus! {

/// The number that every class file starts with.
pub const MAGIC: u32 = 0xCAFEBABE;

impl Parse for FieldInfo {
    /// Access flags, name, descriptor, and the attributes with their count,
    /// each attribute with its payload as it stands.
    open spec fn spec_parse(s: Seq<u8>, pos: int) -> Parsed<FieldInfoView> {
        if !has_bytes(s, pos, 6) {
            Err(ErrorKindView::TruncatedInput)
        } else {
            match spec_parse_counted::<AttributeInfo>(s, pos + 6) {
                Err(e) => Err(e),
                Ok((attributes, end)) => Ok(
                    (
                        FieldInfoView {
                            access_flags: be_u16(s, pos),
                            name_index: FromPool::spec_new(be_u16(s, pos + 2)),
                            descriptor_index: FromPool::spec_new(be_u16(s, pos + 4)),
                            attributes,
                        },
                        end,
                    ),
                ),
            }
        }
    }

    fn parse(data: &mut Data) -> (r: Result<FieldInfo, ParseErr>) {
        let access_flags = data.u2()?;
        let name_index = data.cp()?;
        let descriptor_index = data.cp()?;
        let attributes = parse_counted::<AttributeInfo>(data)?;
        Ok(FieldInfo { access_flags, name_index, descriptor_index, attributes })
    }
}

impl Parse for MethodInfo {
    /// Access flags, name, descriptor, and the attributes with their count,
    /// each attribute with its payload as it stands.
    open spec fn spec_parse(s: Seq<u8>, pos: int) -> Parsed<MethodInfoView> {
        if !has_bytes(s, pos, 6) {
            Err(ErrorKindView::TruncatedInput)
        } else {
            match spec_parse_counted::<AttributeInfo>(s, pos + 6) {
                Err(e) => Err(e),
                Ok((attributes, end)) => Ok(
                    (
                        MethodInfoView {
                            access_flags: be_u16(s, pos),
                            name_index: FromPool::spec_new(be_u16(s, pos + 2)),
                            descriptor_index: FromPool::spec_new(be_u16(s, pos + 4)),
                            attributes,
                        },
                        end,
                    ),
                ),
            }
        }
    }

    fn parse(data: &mut Data) -> (r: Result<MethodInfo, ParseErr>) {
        let access_flags = data.u2()?;
        let name_index = data.cp()?;
        let descriptor_index = data.cp()?;
        let attributes = parse_counted::<AttributeInfo>(data)?;
        Ok(MethodInfo { access_flags, name_index, descriptor_index, attributes })
    }
}

/// What follows the constant pool, from `pos` on: access flags, this class,
/// superclass, and the interfaces, fields, methods and attributes, each
/// list with its count. The payloads of the attributes are kept as they stand.
pub open spec fn spec_parse_bodies(
    s: Seq<u8>,
    pos: int,
    minor_version: u16,
    major_version: u16,
    constant_pool: Seq<CpInfoView>,
) -> Result<ClassFileView, ErrorKindView> {
    if !has_bytes(s, pos, 6) {
        Err(ErrorKindView::TruncatedInput)
    } else {
        match spec_parse_counted::<FromPool<Class>>(s, pos + 6) {
            Err(e) => Err(e),
            Ok((interfaces, after_interfaces)) => match spec_parse_counted::<FieldInfo>(s, after_interfaces) {
                Err(e) => Err(e),
                Ok((fields, after_fields)) => match spec_parse_counted::<MethodInfo>(s, after_fields) {
                    Err(e) => Err(e),
                    Ok((methods, after_methods)) => match spec_parse_counted::<AttributeInfo>(s, after_methods) {
                        Err(e) => Err(e),
                        Ok((attributes, _)) => Ok(
                            ClassFileView {
                                magic: MAGIC,
                                minor_version,
                                major_version,
                                constant_pool,
                                access_flags: be_u16(s, pos),
                                this_class: FromPool::spec_new(be_u16(s, pos + 2)),
                                super_class: FromPool::spec_new(be_u16(s, pos + 4)),
                                interfaces,
                                fields,
                                methods,
                                attributes,
                            },
                        ),
                    },
                },
            },
        }
    }
}

/// The class file at `pos`, with the payloads of its attributes as they
/// stand: the magic number, the versions, the constant pool with its count,
/// and the bodies. Bytes behind the class file are not looked at.
pub open spec fn spec_parse_raw_class(s: Seq<u8>, pos: int) -> Result<ClassFileView, ErrorKindView> {
    if !has_bytes(s, pos, 4) {
        Err(ErrorKindView::TruncatedInput)
    } else if be_u32(s, pos) != MAGIC {
        Err(ErrorKindView::BadMagic)
    } else if !has_bytes(s, pos + 4, 6) {
        Err(ErrorKindView::TruncatedInput)
    } else {
        match spec_parse_pool(s, pos + 10, pool_slots(be_u16(s, pos + 8))) {
            Err(e) => Err(e),
            Ok((constant_pool, end)) => spec_parse_bodies(
                s,
                end,
                be_u16(s, pos + 4),
                be_u16(s, pos + 6),
                constant_pool,
            ),
        }
    }
}

/// The fields of `fields` from place `from` on, each with its attributes
/// resolved; the failure of the first attribute that fails.
pub open spec fn spec_resolve_fields(
    fields: Seq<FieldInfoView>,
    from: int,
    pool: Seq<CpInfoView>,
    depth: nat,
) -> Result<Seq<FieldInfoView>, ErrorKindView>
    decreases fields.len() - from,
{
    if from < 0 || from >= fields.len() {
        Ok(Seq::empty())
    } else {
        match spec_resolve_all(fields[from].attributes, pool, depth) {
            Err(e) => Err(e),
            Ok(attributes) => join(
                seq![
                    FieldInfoView {
                        access_flags: fields[from].access_flags,
                        name_index: fields[from].name_index,
                        descriptor_index: fields[from].descriptor_index,
                        attributes,
                    },
                ],
                spec_resolve_fields(fields, from + 1, pool, depth),
            ),
        }
    }
}

/// The methods of `methods` from place `from` on, each with its attributes
/// resolved; the failure of the first attribute that fails.
pub open spec fn spec_resolve_methods(
    methods: Seq<MethodInfoView>,
    from: int,
    pool: Seq<CpInfoView>,
    depth: nat,
) -> Result<Seq<MethodInfoView>, ErrorKindView>
    decreases methods.len() - from,
{
    if from < 0 || from >= methods.len() {
        Ok(Seq::empty())
    } else {
        match spec_resolve_all(methods[from].attributes, pool, depth) {
            Err(e) => Err(e),
            Ok(attributes) => join(
                seq![
                    MethodInfoView {
                        access_flags: methods[from].access_flags,
                        name_index: methods[from].name_index,
                        descriptor_index: methods[from].descriptor_index,
                        attributes,
                    },
                ],
                spec_resolve_methods(methods, from + 1, pool, depth),
            ),
        }
    }
}

/// The class `class` with every attribute resolved against its constant
/// pool: those of the class first, then those of each method, then those of
/// each field. The failure is that of the first attribute that fails.
pub open spec fn spec_resolve_class(class: ClassFileView, depth: nat) -> Result<
    ClassFileView,
    ErrorKindView,
> {
    match spec_resolve_all(class.attributes, class.constant_pool, depth) {
        Err(e) => Err(e),
        Ok(attributes) => match spec_resolve_methods(
            class.methods,
            0,
            class.constant_pool,
            depth,
        ) {
            Err(e) => Err(e),
            Ok(methods) => match spec_resolve_fields(class.fields, 0, class.constant_pool, depth) {
                Err(e) => Err(e),
                Ok(fields) => Ok(
                    ClassFileView {
                        magic: class.magic,
                        minor_version: class.minor_version,
                        major_version: class.major_version,
                        constant_pool: class.constant_pool,
                        access_flags: class.access_flags,
                        this_class: class.this_class,
                        super_class: class.super_class,
                        interfaces: class.interfaces,
                        fields,
                        methods,
                        attributes,
                    },
                ),
            },
        }
    }
}

/// The class file that the bytes `s` encode from `pos` on, with every
/// attribute resolved.
pub open spec fn spec_parse_class(s: Seq<u8>, pos: int) -> Result<ClassFileView, ErrorKindView> {
    match spec_parse_raw_class(s, pos) {
        Err(e) => Err(e),
        Ok(raw) => spec_resolve_class(raw, MAX_NESTING_DEPTH as nat),
    }
}

/// The class file that the bytes `s` encode.
pub open spec fn spec_parse_class_file(s: Seq<u8>) -> Result<ClassFileView, ErrorKindView> {
    spec_parse_class(s, 0)
}

/// The methods of a list, each with its attributes resolved.
pub fn resolved_methods(methods: &Vec<MethodInfo>, pool: &[CpInfo], depth: usize) -> (r: Result<
    Vec<MethodInfo>,
    ParseErr,
>)
    ensures
        gives_seq(r, spec_resolve_methods(views(methods@), 0, views(pool@), depth as nat)),
{
    let ghost raw = views(methods@);
    let ghost p = views(pool@);
    let mut resolved: Vec<MethodInfo> = Vec::new();
    let mut i: usize = 0;
    while i < methods.len()
        invariant
            i <= methods@.len(),
            resolved@.len() == i,
            raw == views(methods@),
            p == views(pool@),
            spec_resolve_methods(raw, 0, p, depth as nat) == join(
                views(resolved@),
                spec_resolve_methods(raw, i as int, p, depth as nat),
            ),
        decreases methods@.len() - i,
    {
        let ghost before = resolved@;
        let ghost rest = spec_resolve_methods(raw, i + 1, p, depth as nat);
        let method = &methods[i];
        let one = MethodInfo {
            access_flags: method.access_flags,
            name_index: method.name_index,
            descriptor_index: method.descriptor_index,
            attributes: resolved_all(&method.attributes, pool, depth)?,
        };
        resolved.push(one);
        proof {
            assert(views(resolved@) =~= views(before).push(one@));
            if rest is Ok {
                assert(views(before) + (seq![one@] + rest->Ok_0) =~= views(resolved@)
                    + rest->Ok_0);
            }
        }
        i = i + 1;
    }
    assert(views(resolved@) + Seq::<MethodInfoView>::empty() =~= views(resolved@));
    Ok(resolved)
}

/// The fields of a list, each with its attributes resolved.
pub fn resolved_fields(fields: &Vec<FieldInfo>, pool: &[CpInfo], depth: usize) -> (r: Result<
    Vec<FieldInfo>,
    ParseErr,
>)
    ensures
        gives_seq(r, spec_resolve_fields(views(fields@), 0, views(pool@), depth as nat)),
{
    let ghost raw = views(fields@);
    let ghost p = views(pool@);
    let mut resolved: Vec<FieldInfo> = Vec::new();
    let mut i: usize = 0;
    while i < fields.len()
        invariant
            i <= fields@.len(),
            resolved@.len() == i,
            raw == views(fields@),
            p == views(pool@),
            spec_resolve_fields(raw, 0, p, depth as nat) == join(
                views(resolved@),
                spec_resolve_fields(raw, i as int, p, depth as nat),
            ),
        decreases fields@.len() - i,
    {
        let ghost before = resolved@;
        let ghost rest = spec_resolve_fields(raw, i + 1, p, depth as nat);
        let field = &fields[i];
        let one = FieldInfo {
            access_flags: field.access_flags,
            name_index: field.name_index,
            descriptor_index: field.descriptor_index,
            attributes: resolved_all(&field.attributes, pool, depth)?,
        };
        resolved.push(one);
        proof {
            assert(views(resolved@) =~= views(before).push(one@));
            if rest is Ok {
                assert(views(before) + (seq![one@] + rest->Ok_0) =~= views(resolved@)
                    + rest->Ok_0);
            }
        }
        i = i + 1;
    }
    assert(views(resolved@) + Seq::<FieldInfoView>::empty() =~= views(resolved@));
    Ok(resolved)
}

/// Resolves every attribute of the class against its constant pool, in
/// place: those of the class, then those of each method, then those of each
/// field, and with each `Code` attribute those nested in it. An attribute
/// that is resolved already stays as it is. Where an attribute fails, the
/// class stays as it is.
pub fn resolve_attributes(class: &mut ClassFile) -> (r: Result<(), ParseErr>)
    ensures
        match r {
            Ok(()) => spec_resolve_class(old(class)@, MAX_NESTING_DEPTH as nat) == Ok::<
                ClassFileView,
                ErrorKindView,
            >(final(class)@),
            Err(e) => {
                &&& spec_resolve_class(old(class)@, MAX_NESTING_DEPTH as nat) == Err::<
                    ClassFileView,
                    ErrorKindView,
                >(e@)
                &&& *final(class) == *old(class)
            },
        },
{
    let pool = class.constant_pool.as_slice();
    let attributes = resolved_all(&class.attributes, pool, MAX_NESTING_DEPTH)?;
    let methods = resolved_methods(&class.methods, pool, MAX_NESTING_DEPTH)?;
    let fields = resolved_fields(&class.fields, pool, MAX_NESTING_DEPTH)?;
    class.attributes = attributes;
    class.methods = methods;
    class.fields = fields;
    Ok(())
}

impl ClassFile {
    /// Reads a class file at the cursor and resolves its attributes.
    pub fn parse(data: &mut Data) -> (r: Result<ClassFile, ParseErr>)
        ensures
            final(data).bytes() == old(data).bytes(),
            gives(r, spec_parse_class(old(data).bytes(), old(data).pos())),
            r matches Ok(class) ==> {
                &&& class.magic == MAGIC
                &&& class@.is_resolved()
                &&& slots_are_paired(class@.constant_pool)
            },
    {
        proof {
            lemma_parsed_class_is_resolved(data.bytes(), data.pos());
            lemma_parsed_pool_is_paired(data.bytes(), data.pos());
        }
        let magic = data.u4()?;
        if magic != MAGIC {
            return Err(ParseErr::new(ErrorKind::BadMagic));
        }
        let minor_version = data.u2()?;
        let major_version = data.u2()?;
        let count = data.u2()?;
        let constant_pool = parse_constant_pool(count, data)?;
        let access_flags = data.u2()?;
        let this_class = data.cp()?;
        let super_class = data.cp()?;
        let interfaces = parse_counted::<FromPool<Class>>(data)?;
        let fields = parse_counted::<FieldInfo>(data)?;
        let methods = parse_counted::<MethodInfo>(data)?;
        let attributes = parse_counted::<AttributeInfo>(data)?;
        assert(views(interfaces@) =~= interfaces@);
        let mut class = ClassFile {
            magic,
            minor_version,
            major_version,
            constant_pool,
            access_flags,
            this_class,
            super_class,
            interfaces,
            fields,
            methods,
            attributes,
        };
        resolve_attributes(&mut class)?;
        Ok(class)
    }
}

/// Fields that are read from the input have attributes with their payloads
/// as they stand.
pub proof fn lemma_parsed_fields_are_raw(s: Seq<u8>, pos: int, n: nat)
    ensures
        crate::parse::spec_parse_seq::<FieldInfo>(s, pos, n) matches Ok((fields, _)) ==> forall|
            i: int,
        |
            0 <= i < fields.len() ==> all_raw((#[trigger] fields[i]).attributes),
    decreases n,
{
    if n > 0 {
        match FieldInfo::spec_parse(s, pos) {
            Ok((first, next)) => {
                if has_bytes(s, pos + 6, 2) {
                    lemma_parsed_attributes_are_raw(s, pos + 8, be_u16(s, pos + 6) as nat);
                }
                lemma_parsed_fields_are_raw(s, next, (n - 1) as nat);
            },
            Err(_) => {},
        }
    }
}

/// Methods that are read from the input have attributes with their payloads
/// as they stand.
pub proof fn lemma_parsed_methods_are_raw(s: Seq<u8>, pos: int, n: nat)
    ensures
        crate::parse::spec_parse_seq::<MethodInfo>(s, pos, n) matches Ok((methods, _))
            ==> forall|i: int|
            0 <= i < methods.len() ==> all_raw((#[trigger] methods[i]).attributes),
    decreases n,
{
    if n > 0 {
        match MethodInfo::spec_parse(s, pos) {
            Ok((first, next)) => {
                if has_bytes(s, pos + 6, 2) {
                    lemma_parsed_attributes_are_raw(s, pos + 8, be_u16(s, pos + 6) as nat);
                }
                lemma_parsed_methods_are_raw(s, next, (n - 1) as nat);
            },
            Err(_) => {},
        }
    }
}

/// Resolution of the fields leaves no payload as it stands.
pub proof fn lemma_resolve_fields_resolves(
    fields: Seq<FieldInfoView>,
    from: int,
    pool: Seq<CpInfoView>,
    depth: nat,
)
    requires
        0 <= from <= fields.len(),
        forall|i: int| 0 <= i < fields.len() ==> all_raw((#[trigger] fields[i]).attributes),
    ensures
        spec_resolve_fields(fields, from, pool, depth) matches Ok(resolved) ==> forall|i: int|
            0 <= i < resolved.len() ==> all_resolved((#[trigger] resolved[i]).attributes),
    decreases fields.len() - from,
{
    if from < fields.len() {
        lemma_resolve_all_resolves(fields[from].attributes, 0, pool, depth);
        lemma_resolve_fields_resolves(fields, from + 1, pool, depth);
    }
}

/// Resolution of the methods leaves no payload as it stands.
pub proof fn lemma_resolve_methods_resolves(
    methods: Seq<MethodInfoView>,
    from: int,
    pool: Seq<CpInfoView>,
    depth: nat,
)
    requires
        0 <= from <= methods.len(),
        forall|i: int| 0 <= i < methods.len() ==> all_raw((#[trigger] methods[i]).attributes),
    ensures
        spec_resolve_methods(methods, from, pool, depth) matches Ok(resolved) ==> forall|i: int|
            0 <= i < resolved.len() ==> all_resolved((#[trigger] resolved[i]).attributes),
    decreases methods.len() - from,
{
    if from < methods.len() {
        lemma_resolve_all_resolves(methods[from].attributes, 0, pool, depth);
        lemma_resolve_methods_resolves(methods, from + 1, pool, depth);
    }
}

/// A class file that parses starts with the magic number and has no
/// attribute left unresolved: not on the class, not on a field, not on a
/// method, and not inside a `Code` attribute, at any depth.
pub proof fn lemma_parsed_class_is_resolved(s: Seq<u8>, pos: int)
    ensures
        spec_parse_class(s, pos) matches Ok(class) ==> class.magic == MAGIC && class.is_resolved(),
{
    if let Ok(raw) = spec_parse_raw_class(s, pos) {
        let (pool, after_pool) = spec_parse_pool(s, pos + 10, pool_slots(be_u16(s, pos + 8)))->Ok_0;
        let (interfaces, after_interfaces) = spec_parse_counted::<FromPool<Class>>(s, after_pool + 6)->Ok_0;
        let (fields, after_fields) = spec_parse_counted::<FieldInfo>(s, after_interfaces)->Ok_0;
        let (methods, after_methods) = spec_parse_counted::<MethodInfo>(s, after_fields)->Ok_0;
        lemma_parsed_fields_are_raw(s, after_interfaces + 2, be_u16(s, after_interfaces) as nat);
        lemma_parsed_methods_are_raw(s, after_fields + 2, be_u16(s, after_fields) as nat);
        lemma_parsed_attributes_are_raw(s, after_methods + 2, be_u16(s, after_methods) as nat);
        let depth = MAX_NESTING_DEPTH as nat;
        lemma_resolve_all_resolves(raw.attributes, 0, raw.constant_pool, depth);
        lemma_resolve_methods_resolves(raw.methods, 0, raw.constant_pool, depth);
        lemma_resolve_fields_resolves(raw.fields, 0, raw.constant_pool, depth);
    }
}

/// Parsing is a function of the bytes: two outcomes of parsing the same
/// bytes are both successes with the same value, or both failures of the
/// same kind.
pub proof fn lemma_parse_is_deterministic(
    bytes: Seq<u8>,
    first: Result<ClassFile, ParseErr>,
    second: Result<ClassFile, ParseErr>,
)
    requires
        gives(first, spec_parse_class_file(bytes)),
        gives(second, spec_parse_class_file(bytes)),
    ensures
        match (first, second) {
            (Ok(a), Ok(b)) => a@ == b@,
            (Err(a), Err(b)) => a@ == b@,
            _ => false,
        },
{
}

/// The constant pool of a class file that parses has one slot less than
/// its count, and every `Long` and `Double` in it is followed by a reserved
/// slot, which no reference may name.
pub proof fn lemma_parsed_pool_is_paired(s: Seq<u8>, pos: int)
    ensures
        spec_parse_class(s, pos) matches Ok(class) ==> {
            &&& class.constant_pool.len() == pool_slots(be_u16(s, pos + 8))
            &&& slots_are_paired(class.constant_pool)
        },
{
    lemma_pool_slots(s, pos + 10, pool_slots(be_u16(s, pos + 8)));
}

} // verus!
