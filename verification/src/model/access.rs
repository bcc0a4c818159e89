use vstd::prelude::*;

verus! {

/// The access flags of a class. Each flag is one bit of a 16-bit mask.
#[allow(non_camel_case_types)]
#[derive(Debug, Clone, Copy, Hash, PartialEq, Eq)]
pub enum ClassAccessFlag {
    /// `0x0001`: declared public; may be accessed from outside its package.
    Public,
    /// `0x0010`: declared final; no subclasses allowed.
    Final,
    /// `0x0020`: treat superclass methods specially when invoked by `invokespecial`.
    Super,
    /// `0x0200`: is an interface, not a class.
    Interface,
    /// `0x0400`: declared abstract; must not be instantiated.
    Abstract,
    /// `0x1000`: declared synthetic; not present in the source code.
    Synthetic,
    /// `0x2000`: declared as an annotation type.
    Annotation,
    /// `0x4000`: declared as an enum type.
    Enum,
    /// `0x8000`: is a module, not a class or interface.
    MODULE,
}

impl ClassAccessFlag {
    /// The bit of the flag.
    pub open spec fn spec_mask(self) -> u16 {
        match self {
            ClassAccessFlag::Public => 0x0001,
            ClassAccessFlag::Final => 0x0010,
            ClassAccessFlag::Super => 0x0020,
            ClassAccessFlag::Interface => 0x0200,
            ClassAccessFlag::Abstract => 0x0400,
            ClassAccessFlag::Synthetic => 0x1000,
            ClassAccessFlag::Annotation => 0x2000,
            ClassAccessFlag::Enum => 0x4000,
            ClassAccessFlag::MODULE => 0x8000,
        }
    }

    /// The bit of the flag.
    pub fn mask(self) -> (bit: u16)
        ensures
            bit == self.spec_mask(),
    {
        match self {
            ClassAccessFlag::Public => 0x0001,
            ClassAccessFlag::Final => 0x0010,
            ClassAccessFlag::Super => 0x0020,
            ClassAccessFlag::Interface => 0x0200,
            ClassAccessFlag::Abstract => 0x0400,
            ClassAccessFlag::Synthetic => 0x1000,
            ClassAccessFlag::Annotation => 0x2000,
            ClassAccessFlag::Enum => 0x4000,
            ClassAccessFlag::MODULE => 0x8000,
        }
    }

    /// Whether the flag is set in the mask `access_flags`.
    pub fn is_set_in(self, access_flags: u16) -> (set: bool)
        ensures
            set == (access_flags & self.spec_mask() != 0),
    {
        access_flags & self.mask() != 0
    }
}

/// The access flags of a method. Each flag is one bit of a 16-bit mask.
#[allow(non_camel_case_types)]
#[derive(Debug, Clone, Copy, Hash, PartialEq, Eq)]
pub enum MethodAccessFlag {
    /// `0x0001`: declared public; may be accessed from outside its package.
    PUBLIC,
    /// `0x0002`: declared private; accessible only within the defining class.
    PRIVATE,
    /// `0x0004`: declared protected; may be accessed within subclasses.
    PROTECTED,
    /// `0x0008`: declared static.
    STATIC,
    /// `0x0010`: declared final; must not be overridden.
    FINAL,
    /// `0x0020`: declared synchronized; invocation is wrapped by a monitor use.
    SYNCHRONIZED,
    /// `0x0040`: a bridge method, generated by the compiler.
    BRIDGE,
    /// `0x0080`: declared with variable number of arguments.
    VARARGS,
    /// `0x0100`: declared native; implemented in a language other than Java.
    NATIVE,
    /// `0x0400`: declared abstract; no implementation is provided.
    ABSTRACT,
    /// `0x0800`: declared strictfp; floating-point mode is FP-strict.
    STRICT,
    /// `0x1000`: declared synthetic; not present in the source code.
    SYNTHETIC,
}

impl MethodAccessFlag {
    /// The bit of the flag.
    pub open spec fn spec_mask(self) -> u16 {
        match self {
            MethodAccessFlag::PUBLIC => 0x0001,
            MethodAccessFlag::PRIVATE => 0x0002,
            MethodAccessFlag::PROTECTED => 0x0004,
            MethodAccessFlag::STATIC => 0x0008,
            MethodAccessFlag::FINAL => 0x0010,
            MethodAccessFlag::SYNCHRONIZED => 0x0020,
            MethodAccessFlag::BRIDGE => 0x0040,
            MethodAccessFlag::VARARGS => 0x0080,
            MethodAccessFlag::NATIVE => 0x0100,
            MethodAccessFlag::ABSTRACT => 0x0400,
            MethodAccessFlag::STRICT => 0x0800,
            MethodAccessFlag::SYNTHETIC => 0x1000,
        }
    }

    /// The bit of the flag.
    pub fn mask(self) -> (bit: u16)
        ensures
            bit == self.spec_mask(),
    {
        match self {
            MethodAccessFlag::PUBLIC => 0x0001,
            MethodAccessFlag::PRIVATE => 0x0002,
            MethodAccessFlag::PROTECTED => 0x0004,
            MethodAccessFlag::STATIC => 0x0008,
            MethodAccessFlag::FINAL => 0x0010,
            MethodAccessFlag::SYNCHRONIZED => 0x0020,
            MethodAccessFlag::BRIDGE => 0x0040,
            MethodAccessFlag::VARARGS => 0x0080,
            MethodAccessFlag::NATIVE => 0x0100,
            MethodAccessFlag::ABSTRACT => 0x0400,
            MethodAccessFlag::STRICT => 0x0800,
            MethodAccessFlag::SYNTHETIC => 0x1000,
        }
    }

    /// Whether the flag is set in the mask `access_flags`.
    pub fn is_set_in(self, access_flags: u16) -> (set: bool)
        ensures
            set == (access_flags & self.spec_mask() != 0),
    {
        access_flags & self.mask() != 0
    }
}

/// The access flags of an inner class. Each flag is one bit of a 16-bit mask.
#[allow(non_camel_case_types)]
#[derive(Debug, Clone, Copy, Hash, PartialEq, Eq)]
pub enum InnerClassAccessFlags {
    /// `0x0001`: marked or implicitly public in source.
    PUBLIC,
    /// `0x0002`: marked private in source.
    PRIVATE,
    /// `0x0004`: marked protected in source.
    PROTECTED,
    /// `0x0008`: marked or implicitly static in source.
    STATIC,
    /// `0x0010`: marked final in source.
    FINAL,
    /// `0x0200`: was an interface in source.
    INTERFACE,
    /// `0x0400`: marked or implicitly abstract in source.
    ABSTRACT,
    /// `0x1000`: declared synthetic; not present in the source code.
    SYNTHETIC,
    /// `0x2000`: declared as an annotation type.
    ANNOTATION,
    /// `0x4000`: declared as an enum type.
    ENUM,
}

impl InnerClassAccessFlags {
    /// The bit of the flag.
    pub open spec fn spec_mask(self) -> u16 {
        match self {
            InnerClassAccessFlags::PUBLIC => 0x0001,
            InnerClassAccessFlags::PRIVATE => 0x0002,
            InnerClassAccessFlags::PROTECTED => 0x0004,
            InnerClassAccessFlags::STATIC => 0x0008,
            InnerClassAccessFlags::FINAL => 0x0010,
            InnerClassAccessFlags::INTERFACE => 0x0200,
            InnerClassAccessFlags::ABSTRACT => 0x0400,
            InnerClassAccessFlags::SYNTHETIC => 0x1000,
            InnerClassAccessFlags::ANNOTATION => 0x2000,
            InnerClassAccessFlags::ENUM => 0x4000,
        }
    }

    /// The bit of the flag.
    pub fn mask(self) -> (bit: u16)
        ensures
            bit == self.spec_mask(),
    {
        match self {
            InnerClassAccessFlags::PUBLIC => 0x0001,
            InnerClassAccessFlags::PRIVATE => 0x0002,
            InnerClassAccessFlags::PROTECTED => 0x0004,
            InnerClassAccessFlags::STATIC => 0x0008,
            InnerClassAccessFlags::FINAL => 0x0010,
            InnerClassAccessFlags::INTERFACE => 0x0200,
            InnerClassAccessFlags::ABSTRACT => 0x0400,
            InnerClassAccessFlags::SYNTHETIC => 0x1000,
            InnerClassAccessFlags::ANNOTATION => 0x2000,
            InnerClassAccessFlags::ENUM => 0x4000,
        }
    }

    /// Whether the flag is set in the mask `access_flags`.
    pub fn is_set_in(self, access_flags: u16) -> (set: bool)
        ensures
            set == (access_flags & self.spec_mask() != 0),
    {
        access_flags & self.mask() != 0
    }
}

/// The access flags of a field. Each flag is one bit of a 16-bit mask.
#[allow(non_camel_case_types)]
#[derive(Debug, Clone, Copy, Hash, PartialEq, Eq)]
pub enum FieldAccessFlags {
    /// `0x0001`: declared public; may be accessed from outside its package.
    PUBLIC,
    /// `0x0002`: declared private; usable only within the defining class.
    PRIVATE,
    /// `0x0004`: declared protected; may be accessed within subclasses.
    PROTECTED,
    /// `0x0008`: declared static.
    STATIC,
    /// `0x0010`: declared final; never directly assigned to after object construction.
    FINAL,
    /// `0x0040`: declared volatile; cannot be cached.
    VOLATILE,
    /// `0x0080`: declared transient; not written or read by a persistent object manager.
    TRANSIENT,
    /// `0x1000`: declared synthetic; not present in the source code.
    SYNTHETIC,
    /// `0x4000`: declared as an element of an enum.
    ENUM,
}

impl FieldAccessFlags {
    /// The bit of the flag.
    pub open spec fn spec_mask(self) -> u16 {
        match self {
            FieldAccessFlags::PUBLIC => 0x0001,
            FieldAccessFlags::PRIVATE => 0x0002,
            FieldAccessFlags::PROTECTED => 0x0004,
            FieldAccessFlags::STATIC => 0x0008,
            FieldAccessFlags::FINAL => 0x0010,
            FieldAccessFlags::VOLATILE => 0x0040,
            FieldAccessFlags::TRANSIENT => 0x0080,
            FieldAccessFlags::SYNTHETIC => 0x1000,
            FieldAccessFlags::ENUM => 0x4000,
        }
    }

    /// The bit of the flag.
    pub fn mask(self) -> (bit: u16)
        ensures
            bit == self.spec_mask(),
    {
        match self {
            FieldAccessFlags::PUBLIC => 0x0001,
            FieldAccessFlags::PRIVATE => 0x0002,
            FieldAccessFlags::PROTECTED => 0x0004,
            FieldAccessFlags::STATIC => 0x0008,
            FieldAccessFlags::FINAL => 0x0010,
            FieldAccessFlags::VOLATILE => 0x0040,
            FieldAccessFlags::TRANSIENT => 0x0080,
            FieldAccessFlags::SYNTHETIC => 0x1000,
            FieldAccessFlags::ENUM => 0x4000,
        }
    }

    /// Whether the flag is set in the mask `access_flags`.
    pub fn is_set_in(self, access_flags: u16) -> (set: bool)
        ensures
            set == (access_flags & self.spec_mask() != 0),
    {
        access_flags & self.mask() != 0
    }
}

} // verus!
