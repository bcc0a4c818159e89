use crate::error::{ErrorKindView, ParseErr};
use crate::model::attribute::AttributeInfo;
use crate::model::cp_info::{spec_slot_check, FromPool};
use crate::model::cp_info::{Class, Utf8};
use crate::model::{ClassFile, CpInfo, FieldInfo, MethodInfo};
use crate::text::{push_decimal, push_hexadecimal, spec_decimal, spec_hexadecimal};
use vstd::prelude::*;
use vstd::string::StringExecFns;

verus! {

/// The first `n` parts of a text, one behind the other; the failure of the
/// first part that fails.
pub open spec fn spec_concat(
    n: nat,
    part: spec_fn(int) -> Result<Seq<char>, ErrorKindView>,
) -> Result<Seq<char>, ErrorKindView>
    decreases n,
{
    if n == 0 {
        Ok(Seq::empty())
    } else {
        match spec_concat((n - 1) as nat, part) {
            Err(e) => Err(e),
            Ok(front) => match part(n - 1) {
                Err(e) => Err(e),
                Ok(text) => Ok(front + text),
            },
        }
    }
}

/// Once a part has failed, more parts do not change the failure.
pub proof fn lemma_concat_failure_stays(
    k: nat,
    n: nat,
    part: spec_fn(int) -> Result<Seq<char>, ErrorKindView>,
)
    requires
        k <= n,
        spec_concat(k, part) is Err,
    ensures
        spec_concat(n, part) == spec_concat(k, part),
    decreases n - k,
{
    if k < n {
        lemma_concat_failure_stays(k, (n - 1) as nat, part);
    }
}

/// The characters of the `Utf8` entry that `index` names.
pub open spec fn spec_text_at(pool: Seq<CpInfo>, index: u16) -> Result<Seq<char>, ErrorKindView> {
    match spec_slot_check(pool, index, Some(1u8), false) {
        Err(e) => Err(e),
        Ok(()) => Ok(pool[index - 1].inner->Utf8_0.bytes@),
    }
}

/// The name of the `Class` entry that `index` names.
pub open spec fn spec_class_name_at(pool: Seq<CpInfo>, index: u16) -> Result<
    Seq<char>,
    ErrorKindView,
> {
    match spec_slot_check(pool, index, Some(7u8), false) {
        Err(e) => Err(e),
        Ok(()) => spec_text_at(pool, pool[index - 1].inner->Class_0.name_index.index()),
    }
}

/// Looks up the name of the class that `reference` names.
fn class_name<'pool>(reference: &FromPool<Class>, pool: &'pool [CpInfo]) -> (r: Result<
    &'pool str,
    ParseErr,
>)
    ensures
        match r {
            Ok(name) => spec_class_name_at(pool@, reference.index()) == Ok::<
                Seq<char>,
                ErrorKindView,
            >(name@),
            Err(e) => spec_class_name_at(pool@, reference.index()) == Err::<
                Seq<char>,
                ErrorKindView,
            >(e@),
        },
{
    let class = reference.get(pool)?;
    class.name_index.get(pool)
}

/// Looks up the text that `reference` names.
fn text_at<'pool>(reference: &FromPool<Utf8>, pool: &'pool [CpInfo]) -> (r: Result<
    &'pool str,
    ParseErr,
>)
    ensures
        match r {
            Ok(text) => spec_text_at(pool@, reference.index()) == Ok::<Seq<char>, ErrorKindView>(
                text@,
            ),
            Err(e) => spec_text_at(pool@, reference.index()) == Err::<Seq<char>, ErrorKindView>(
                e@,
            ),
        },
{
    reference.get(pool)
}

/// The first line of the listing: the magic number in hexadecimal and the
/// version as major, `.`, minor, in decimal.
pub open spec fn spec_display_header(class: ClassFile) -> Seq<char> {
    ".class (0x"@ + spec_hexadecimal(class.magic as nat) + ") file version "@ + spec_decimal(
        class.major_version as nat,
    ) + "."@ + spec_decimal(class.minor_version as nat) + "\n"@
}

/// What stands behind `extends`: the name of the superclass, or `<none>`
/// where there is none.
pub open spec fn spec_display_super(class: ClassFile) -> Result<Seq<char>, ErrorKindView> {
    if class.super_class.index() == 0 {
        Ok("<none>"@)
    } else {
        spec_class_name_at(class.constant_pool@, class.super_class.index())
    }
}

/// The part of the list of interfaces for the interface at place `i`: its
/// name, behind a comma where it is not the first.
pub open spec fn spec_interface_part(class: ClassFile) -> spec_fn(int) -> Result<
    Seq<char>,
    ErrorKindView,
> {
    |i: int|
        match spec_class_name_at(class.constant_pool@, class.interfaces@[i].index()) {
            Err(e) => Err(e),
            Ok(name) => Ok(
                if i == 0 {
                    name
                } else {
                    ","@ + name
                },
            ),
        }
}

/// The line that opens the class: its name, its superclass, and the
/// interfaces that it implements, if any.
pub open spec fn spec_display_class_line(class: ClassFile) -> Result<Seq<char>, ErrorKindView> {
    match spec_class_name_at(class.constant_pool@, class.this_class.index()) {
        Err(e) => Err(e),
        Ok(this) => match spec_display_super(class) {
            Err(e) => Err(e),
            Ok(parent) => match spec_concat(class.interfaces@.len(), spec_interface_part(class)) {
                Err(e) => Err(e),
                Ok(interfaces) => Ok(
                    "class "@ + this + " extends "@ + parent + (if class.interfaces@.len() == 0 {
                        Seq::empty()
                    } else {
                        " implements "@ + interfaces
                    }) + " {\n"@,
                ),
            },
        },
    }
}

/// The line of the attribute at place `i`: two spaces and the name.
pub open spec fn spec_attribute_line(attributes: Seq<AttributeInfo>, pool: Seq<CpInfo>) -> spec_fn(
    int,
) -> Result<Seq<char>, ErrorKindView> {
    |i: int|
        match spec_text_at(pool, attributes[i].attribute_name_index.index()) {
            Err(e) => Err(e),
            Ok(name) => Ok("  "@ + name + "\n"@),
        }
}

/// The line of a member: two spaces, the descriptor, a space, and the name.
pub open spec fn spec_member_line(
    pool: Seq<CpInfo>,
    descriptor_index: FromPool<Utf8>,
    name_index: FromPool<Utf8>,
) -> Result<Seq<char>, ErrorKindView> {
    match spec_text_at(pool, descriptor_index.index()) {
        Err(e) => Err(e),
        Ok(descriptor) => match spec_text_at(pool, name_index.index()) {
            Err(e) => Err(e),
            Ok(name) => Ok("  "@ + descriptor + " "@ + name + "\n"@),
        },
    }
}

/// The line of the field at place `i`.
pub open spec fn spec_field_line(fields: Seq<FieldInfo>, pool: Seq<CpInfo>) -> spec_fn(
    int,
) -> Result<Seq<char>, ErrorKindView> {
    |i: int| spec_member_line(pool, fields[i].descriptor_index, fields[i].name_index)
}

/// The line of the method at place `i`.
pub open spec fn spec_method_line(methods: Seq<MethodInfo>, pool: Seq<CpInfo>) -> spec_fn(
    int,
) -> Result<Seq<char>, ErrorKindView> {
    |i: int| spec_member_line(pool, methods[i].descriptor_index, methods[i].name_index)
}

/// The listing of a class: the header and an empty line; the line that
/// opens the class; the names of its attributes; the descriptors and names
/// of its fields and of its methods; and the closing brace. The failure is
/// that of the first lookup in the pool that fails.
pub open spec fn spec_display_class(class: ClassFile) -> Result<Seq<char>, ErrorKindView> {
    let pool = class.constant_pool@;
    match spec_display_class_line(class) {
        Err(e) => Err(e),
        Ok(class_line) => match spec_concat(
            class.attributes@.len(),
            spec_attribute_line(class.attributes@, pool),
        ) {
            Err(e) => Err(e),
            Ok(attributes) => match spec_concat(
                class.fields@.len(),
                spec_field_line(class.fields@, pool),
            ) {
                Err(e) => Err(e),
                Ok(fields) => match spec_concat(
                    class.methods@.len(),
                    spec_method_line(class.methods@, pool),
                ) {
                    Err(e) => Err(e),
                    Ok(methods) => Ok(
                        spec_display_header(class) + "\n"@ + class_line + " Attributes:\n"@
                            + attributes + "\n"@ + " Fields:\n"@ + fields + "\n"@
                            + " Methods:\n"@ + methods + "}\n"@,
                    ),
                },
            },
        },
    }
}

/// Appends the line that opens the class.
fn push_class_line(text: &mut String, class: &ClassFile) -> (r: Result<(), ParseErr>)
    ensures
        match r {
            Ok(()) => spec_display_class_line(*class) == Ok::<Seq<char>, ErrorKindView>(
                final(text)@.skip(old(text)@.len() as int),
            ) && final(text)@.len() >= old(text)@.len() && final(text)@.take(
                old(text)@.len() as int,
            ) == old(text)@,
            Err(e) => spec_display_class_line(*class) == Err::<Seq<char>, ErrorKindView>(e@),
        },
{
    let pool = class.constant_pool.as_slice();
    let ghost start = text@;
    let this = class_name(&class.this_class, pool)?;
    let parent = match class.super_class.maybe_get(pool)? {
        None => "<none>",
        Some(parent) => parent.name_index.get(pool)?,
    };
    text.append("class ");
    text.append(this);
    text.append(" extends ");
    text.append(parent);
    let ghost head = text@;
    let mut i: usize = 0;
    while i < class.interfaces.len()
        invariant
            i <= class.interfaces@.len(),
            pool@ == class.constant_pool@,
            head == start + "class "@ + this@ + " extends "@ + parent@,
            spec_class_name_at(pool@, class.this_class.index()) == Ok::<Seq<char>, ErrorKindView>(
                this@,
            ),
            spec_display_super(*class) == Ok::<Seq<char>, ErrorKindView>(parent@),
            match spec_concat(i as nat, spec_interface_part(*class)) {
                Ok(names) => text@ == head + (if i == 0 {
                    Seq::empty()
                } else {
                    " implements "@ + names
                }),
                Err(_) => false,
            },
        decreases class.interfaces@.len() - i,
    {
        let ghost before = text@;
        let ghost names = spec_concat(i as nat, spec_interface_part(*class))->Ok_0;
        proof {
            if spec_interface_part(*class)(i as int) is Err {
                assert(spec_concat((i + 1) as nat, spec_interface_part(*class)) is Err);
                lemma_concat_failure_stays(
                    (i + 1) as nat,
                    class.interfaces@.len(),
                    spec_interface_part(*class),
                );
            }
        }
        let name = class_name(&class.interfaces[i], pool)?;
        if i == 0 {
            text.append(" implements ");
            text.append(name);
            assert(text@ =~= head + (" implements "@ + (names + name@)));
        } else {
            text.append(",");
            text.append(name);
            assert(text@ =~= head + (" implements "@ + (names + (","@ + name@))));
        }
        i = i + 1;
    }
    text.append(" {\n");
    proof {
        let names = spec_concat(class.interfaces@.len(), spec_interface_part(*class))->Ok_0;
        let tail = if class.interfaces@.len() == 0 {
            Seq::<char>::empty()
        } else {
            " implements "@ + names
        };
        assert(text@.skip(start.len() as int) =~= "class "@ + this@ + " extends "@ + parent@
            + tail + " {\n"@);
        assert(text@.take(start.len() as int) =~= start);
    }
    Ok(())
}

/// The listing of a class as a text: what a human reader wants to see of
/// it first.
pub fn display_class(class: &ClassFile) -> (r: Result<String, ParseErr>)
    ensures
        match r {
            Ok(text) => spec_display_class(*class) == Ok::<Seq<char>, ErrorKindView>(text@),
            Err(e) => spec_display_class(*class) == Err::<Seq<char>, ErrorKindView>(e@),
        },
{
    let pool = class.constant_pool.as_slice();
    let mut text = String::new();
    text.append(".class (0x");
    push_hexadecimal(&mut text, class.magic);
    text.append(") file version ");
    push_decimal(&mut text, class.major_version as u32);
    text.append(".");
    push_decimal(&mut text, class.minor_version as u32);
    text.append("\n");
    text.append("\n");
    let ghost header = text@;
    assert(header =~= spec_display_header(*class) + "\n"@);
    push_class_line(&mut text, class)?;
    let ghost class_line = spec_display_class_line(*class)->Ok_0;
    assert(text@ =~= header + class_line) by {
        assert(text@ =~= text@.take(header.len() as int) + text@.skip(header.len() as int));
    }
    text.append(" Attributes:\n");
    let ghost head = text@;
    let mut i: usize = 0;
    while i < class.attributes.len()
        invariant
            i <= class.attributes@.len(),
            pool@ == class.constant_pool@,
            spec_display_class_line(*class) is Ok,
            match spec_concat(i as nat, spec_attribute_line(class.attributes@, pool@)) {
                Ok(lines) => text@ == head + lines,
                Err(_) => false,
            },
        decreases class.attributes@.len() - i,
    {
        let ghost lines = spec_concat(i as nat, spec_attribute_line(class.attributes@, pool@))->Ok_0;
        proof {
            if spec_attribute_line(class.attributes@, pool@)(i as int) is Err {
                assert(spec_concat((i + 1) as nat, spec_attribute_line(class.attributes@, pool@)) is Err);
                lemma_concat_failure_stays(
                    (i + 1) as nat,
                    class.attributes@.len(),
                    spec_attribute_line(class.attributes@, pool@),
                );
            }
        }
        let name = text_at(&class.attributes[i].attribute_name_index, pool)?;
        text.append("  ");
        text.append(name);
        text.append("\n");
        assert(text@ =~= head + (lines + "  "@ + name@ + "\n"@));
        i = i + 1;
    }
    let ghost attributes = spec_concat(
        class.attributes@.len(),
        spec_attribute_line(class.attributes@, pool@),
    )->Ok_0;
    text.append("\n");
    text.append(" Fields:\n");
    let ghost head = text@;
    let mut i: usize = 0;
    while i < class.fields.len()
        invariant
            i <= class.fields@.len(),
            pool@ == class.constant_pool@,
            spec_display_class_line(*class) is Ok,
            spec_concat(class.attributes@.len(), spec_attribute_line(class.attributes@, pool@)) is Ok,
            match spec_concat(i as nat, spec_field_line(class.fields@, pool@)) {
                Ok(lines) => text@ == head + lines,
                Err(_) => false,
            },
        decreases class.fields@.len() - i,
    {
        let ghost lines = spec_concat(i as nat, spec_field_line(class.fields@, pool@))->Ok_0;
        proof {
            if spec_field_line(class.fields@, pool@)(i as int) is Err {
                assert(spec_concat((i + 1) as nat, spec_field_line(class.fields@, pool@)) is Err);
                lemma_concat_failure_stays(
                    (i + 1) as nat,
                    class.fields@.len(),
                    spec_field_line(class.fields@, pool@),
                );
            }
        }
        let descriptor = text_at(&class.fields[i].descriptor_index, pool)?;
        let name = text_at(&class.fields[i].name_index, pool)?;
        text.append("  ");
        text.append(descriptor);
        text.append(" ");
        text.append(name);
        text.append("\n");
        assert(text@ =~= head + (lines + ("  "@ + descriptor@ + " "@ + name@ + "\n"@)));
        i = i + 1;
    }
    let ghost fields = spec_concat(
        class.fields@.len(),
        spec_field_line(class.fields@, pool@),
    )->Ok_0;
    text.append("\n");
    text.append(" Methods:\n");
    let ghost head = text@;
    let mut i: usize = 0;
    while i < class.methods.len()
        invariant
            i <= class.methods@.len(),
            pool@ == class.constant_pool@,
            spec_display_class_line(*class) is Ok,
            spec_concat(class.attributes@.len(), spec_attribute_line(class.attributes@, pool@)) is Ok,
            spec_concat(class.fields@.len(), spec_field_line(class.fields@, pool@)) is Ok,
            match spec_concat(i as nat, spec_method_line(class.methods@, pool@)) {
                Ok(lines) => text@ == head + lines,
                Err(_) => false,
            },
        decreases class.methods@.len() - i,
    {
        let ghost lines = spec_concat(i as nat, spec_method_line(class.methods@, pool@))->Ok_0;
        proof {
            if spec_method_line(class.methods@, pool@)(i as int) is Err {
                assert(spec_concat((i + 1) as nat, spec_method_line(class.methods@, pool@)) is Err);
                lemma_concat_failure_stays(
                    (i + 1) as nat,
                    class.methods@.len(),
                    spec_method_line(class.methods@, pool@),
                );
            }
        }
        let descriptor = text_at(&class.methods[i].descriptor_index, pool)?;
        let name = text_at(&class.methods[i].name_index, pool)?;
        text.append("  ");
        text.append(descriptor);
        text.append(" ");
        text.append(name);
        text.append("\n");
        assert(text@ =~= head + (lines + ("  "@ + descriptor@ + " "@ + name@ + "\n"@)));
        i = i + 1;
    }
    let ghost methods = spec_concat(
        class.methods@.len(),
        spec_method_line(class.methods@, pool@),
    )->Ok_0;
    text.append("}\n");
    assert(text@ =~= spec_display_header(*class) + "\n"@ + class_line + " Attributes:\n"@
        + attributes + "\n"@ + " Fields:\n"@ + fields + "\n"@ + " Methods:\n"@ + methods
        + "}\n"@);
    Ok(text)
}

} // verus!
