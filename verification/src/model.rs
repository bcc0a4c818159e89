use vstd::prelude::*;

pub mod access;
pub mod attribute;
pub mod clone;
pub mod cp_info;

use attribute::{all_resolved, AttributeInfo, AttributeInfoView};
use cp_info::FromPool;

verus! {

/// The values of a sequence of data, item by item.
pub open spec fn views<T: View>(items: Seq<T>) -> Seq<T::V> {
    Seq::new(items.len(), |i: int| items[i]@)
}

/// A class file: the compiled form of one class or interface.
#[derive(Debug, Hash, PartialEq, Eq)]
pub struct ClassFile {
    /// The number that marks the format, `0xCAFEBABE`.
    pub magic: u32,
    /// The minor version of the format.
    pub minor_version: u16,
    /// The major version of the format.
    pub major_version: u16,
    /// The constant pool. Slot `i` of the format is `constant_pool[i - 1]`;
    /// the slot behind a `Long` or a `Double` is held as a reserved entry.
    pub constant_pool: Vec<CpInfo>,
    /// A mask of `ClassAccessFlag` bits.
    pub access_flags: u16,
    /// The class that the file defines.
    pub this_class: FromPool<cp_info::Class>,
    /// The direct superclass; absent only for the root class.
    pub super_class: FromPool<Option<cp_info::Class>>,
    /// The direct superinterfaces, in the order of the file.
    pub interfaces: Vec<FromPool<cp_info::Class>>,
    /// The fields that the class declares.
    pub fields: Vec<FieldInfo>,
    /// The methods that the class declares.
    pub methods: Vec<MethodInfo>,
    /// The attributes of the class.
    pub attributes: Vec<AttributeInfo>,
}

/// The mathematical value of a [`ClassFile`].
pub struct ClassFileView {
    pub magic: u32,
    pub minor_version: u16,
    pub major_version: u16,
    pub constant_pool: Seq<CpInfoView>,
    pub access_flags: u16,
    pub this_class: FromPool<cp_info::Class>,
    pub super_class: FromPool<Option<cp_info::Class>>,
    pub interfaces: Seq<FromPool<cp_info::Class>>,
    pub fields: Seq<FieldInfoView>,
    pub methods: Seq<MethodInfoView>,
    pub attributes: Seq<AttributeInfoView>,
}

impl ClassFileView {
    /// Whether every attribute of the class has been resolved: those of the
    /// class, of each field and of each method, and those nested in them.
    pub open spec fn is_resolved(self) -> bool {
        &&& all_resolved(self.attributes)
        &&& forall|i: int|
            0 <= i < self.fields.len() ==> all_resolved((#[trigger] self.fields[i]).attributes)
        &&& forall|i: int|
            0 <= i < self.methods.len() ==> all_resolved((#[trigger] self.methods[i]).attributes)
    }
}

impl View for ClassFile {
    type V = ClassFileView;

    open spec fn view(&self) -> ClassFileView {
        ClassFileView {
            magic: self.magic,
            minor_version: self.minor_version,
            major_version: self.major_version,
            constant_pool: views(self.constant_pool@),
            access_flags: self.access_flags,
            this_class: self.this_class,
            super_class: self.super_class,
            interfaces: self.interfaces@,
            fields: views(self.fields@),
            methods: views(self.methods@),
            attributes: views(self.attributes@),
        }
    }
}

/// One slot of the constant pool.
#[derive(Debug, Hash, PartialEq, Eq)]
pub struct CpInfo {
    /// The tag byte that the entry started with; zero for a reserved slot.
    pub tag: u8,
    /// The entry.
    pub inner: CpInfoInner,
}

/// The mathematical value of a [`CpInfo`].
pub struct CpInfoView {
    pub tag: u8,
    pub inner: CpInfoInnerView,
}

impl View for CpInfo {
    type V = CpInfoView;

    open spec fn view(&self) -> CpInfoView {
        CpInfoView { tag: self.tag, inner: self.inner@ }
    }
}

/// The entries of the constant pool, by variant.
#[derive(Debug, Hash, PartialEq, Eq)]
pub enum CpInfoInner {
    Class(cp_info::Class),
    Fieldref(cp_info::Fieldref),
    MethodRef(cp_info::MethodRef),
    InterfaceMethodref(cp_info::InterfaceMethodref),
    String(cp_info::String),
    Integer(cp_info::Integer),
    Float(cp_info::Float),
    /// Takes two slots of the pool.
    Long(cp_info::Long),
    /// Takes two slots of the pool.
    Double(cp_info::Double),
    NameAndType(cp_info::NameAndType),
    Utf8(cp_info::Utf8),
    MethodHandle(cp_info::MethodHandle),
    MethodType(cp_info::MethodType),
    Dynamic(cp_info::Dynamic),
    InvokeDynamic(cp_info::InvokeDynamic),
    Module(cp_info::Module),
    Package(cp_info::Package),
    /// The slot behind a `Long` or a `Double`. It holds no entry of its own
    /// and no reference may name it.
    Reserved,
}

/// The mathematical value of a [`CpInfoInner`]: a `Utf8` entry is its characters.
pub enum CpInfoInnerView {
    Class(cp_info::Class),
    Fieldref(cp_info::Fieldref),
    MethodRef(cp_info::MethodRef),
    InterfaceMethodref(cp_info::InterfaceMethodref),
    String(cp_info::String),
    Integer(cp_info::Integer),
    Float(cp_info::Float),
    Long(cp_info::Long),
    Double(cp_info::Double),
    NameAndType(cp_info::NameAndType),
    Utf8(Seq<char>),
    MethodHandle(cp_info::MethodHandle),
    MethodType(cp_info::MethodType),
    Dynamic(cp_info::Dynamic),
    InvokeDynamic(cp_info::InvokeDynamic),
    Module(cp_info::Module),
    Package(cp_info::Package),
    Reserved,
}

impl View for CpInfoInner {
    type V = CpInfoInnerView;

    open spec fn view(&self) -> CpInfoInnerView {
        match self {
            CpInfoInner::Class(c) => CpInfoInnerView::Class(*c),
            CpInfoInner::Fieldref(c) => CpInfoInnerView::Fieldref(*c),
            CpInfoInner::MethodRef(c) => CpInfoInnerView::MethodRef(*c),
            CpInfoInner::InterfaceMethodref(c) => CpInfoInnerView::InterfaceMethodref(*c),
            CpInfoInner::String(c) => CpInfoInnerView::String(*c),
            CpInfoInner::Integer(c) => CpInfoInnerView::Integer(*c),
            CpInfoInner::Float(c) => CpInfoInnerView::Float(*c),
            CpInfoInner::Long(c) => CpInfoInnerView::Long(*c),
            CpInfoInner::Double(c) => CpInfoInnerView::Double(*c),
            CpInfoInner::NameAndType(c) => CpInfoInnerView::NameAndType(*c),
            CpInfoInner::Utf8(c) => CpInfoInnerView::Utf8(c.bytes@),
            CpInfoInner::MethodHandle(c) => CpInfoInnerView::MethodHandle(*c),
            CpInfoInner::MethodType(c) => CpInfoInnerView::MethodType(*c),
            CpInfoInner::Dynamic(c) => CpInfoInnerView::Dynamic(*c),
            CpInfoInner::InvokeDynamic(c) => CpInfoInnerView::InvokeDynamic(*c),
            CpInfoInner::Module(c) => CpInfoInnerView::Module(*c),
            CpInfoInner::Package(c) => CpInfoInnerView::Package(*c),
            CpInfoInner::Reserved => CpInfoInnerView::Reserved,
        }
    }
}

impl CpInfoInnerView {
    /// The wire tag of the variant; zero for a reserved slot.
    pub open spec fn tag(self) -> u8 {
        match self {
            CpInfoInnerView::Utf8(_) => 1,
            CpInfoInnerView::Integer(_) => 3,
            CpInfoInnerView::Float(_) => 4,
            CpInfoInnerView::Long(_) => 5,
            CpInfoInnerView::Double(_) => 6,
            CpInfoInnerView::Class(_) => 7,
            CpInfoInnerView::String(_) => 8,
            CpInfoInnerView::Fieldref(_) => 9,
            CpInfoInnerView::MethodRef(_) => 10,
            CpInfoInnerView::InterfaceMethodref(_) => 11,
            CpInfoInnerView::NameAndType(_) => 12,
            CpInfoInnerView::MethodHandle(_) => 15,
            CpInfoInnerView::MethodType(_) => 16,
            CpInfoInnerView::Dynamic(_) => 17,
            CpInfoInnerView::InvokeDynamic(_) => 18,
            CpInfoInnerView::Module(_) => 19,
            CpInfoInnerView::Package(_) => 20,
            CpInfoInnerView::Reserved => 0,
        }
    }

    /// Whether the entry takes two slots of the pool.
    pub open spec fn is_wide(self) -> bool {
        self is Long || self is Double
    }
}

impl CpInfoInner {
    /// The wire tag of the variant; zero for a reserved slot.
    pub open spec fn spec_tag(&self) -> u8 {
        self@.tag()
    }

    /// The wire tag of the variant; zero for a reserved slot.
    pub fn tag(&self) -> (t: u8)
        ensures
            t == self.spec_tag(),
    {
        match self {
            CpInfoInner::Utf8(_) => 1,
            CpInfoInner::Integer(_) => 3,
            CpInfoInner::Float(_) => 4,
            CpInfoInner::Long(_) => 5,
            CpInfoInner::Double(_) => 6,
            CpInfoInner::Class(_) => 7,
            CpInfoInner::String(_) => 8,
            CpInfoInner::Fieldref(_) => 9,
            CpInfoInner::MethodRef(_) => 10,
            CpInfoInner::InterfaceMethodref(_) => 11,
            CpInfoInner::NameAndType(_) => 12,
            CpInfoInner::MethodHandle(_) => 15,
            CpInfoInner::MethodType(_) => 16,
            CpInfoInner::Dynamic(_) => 17,
            CpInfoInner::InvokeDynamic(_) => 18,
            CpInfoInner::Module(_) => 19,
            CpInfoInner::Package(_) => 20,
            CpInfoInner::Reserved => 0,
        }
    }

    /// Whether the entry takes two slots of the pool.
    pub fn is_wide(&self) -> (b: bool)
        ensures
            b == self@.is_wide(),
    {
        match self {
            CpInfoInner::Long(_) => true,
            CpInfoInner::Double(_) => true,
            _ => false,
        }
    }
}

/// A field of the class.
#[derive(Debug, Hash, PartialEq, Eq)]
pub struct FieldInfo {
    /// A mask of `FieldAccessFlags` bits.
    pub access_flags: u16,
    /// The name of the field.
    pub name_index: FromPool<cp_info::Utf8>,
    /// The field descriptor.
    pub descriptor_index: FromPool<cp_info::Utf8>,
    /// The attributes of the field.
    pub attributes: Vec<AttributeInfo>,
}

/// The mathematical value of a [`FieldInfo`].
pub struct FieldInfoView {
    pub access_flags: u16,
    pub name_index: FromPool<cp_info::Utf8>,
    pub descriptor_index: FromPool<cp_info::Utf8>,
    pub attributes: Seq<AttributeInfoView>,
}

impl View for FieldInfo {
    type V = FieldInfoView;

    open spec fn view(&self) -> FieldInfoView {
        FieldInfoView {
            access_flags: self.access_flags,
            name_index: self.name_index,
            descriptor_index: self.descriptor_index,
            attributes: views(self.attributes@),
        }
    }
}

/// A method of the class.
#[derive(Debug, Hash, PartialEq, Eq)]
pub struct MethodInfo {
    /// A mask of `MethodAccessFlag` bits.
    pub access_flags: u16,
    /// The name of the method.
    pub name_index: FromPool<cp_info::Utf8>,
    /// The method descriptor.
    pub descriptor_index: FromPool<cp_info::Utf8>,
    /// The attributes of the method.
    pub attributes: Vec<AttributeInfo>,
}

/// The mathematical value of a [`MethodInfo`].
pub struct MethodInfoView {
    pub access_flags: u16,
    pub name_index: FromPool<cp_info::Utf8>,
    pub descriptor_index: FromPool<cp_info::Utf8>,
    pub attributes: Seq<AttributeInfoView>,
}

impl View for MethodInfo {
    type V = MethodInfoView;

    open spec fn view(&self) -> MethodInfoView {
        MethodInfoView {
            access_flags: self.access_flags,
            name_index: self.name_index,
            descriptor_index: self.descriptor_index,
            attributes: views(self.attributes@),
        }
    }
}

} // verus!
