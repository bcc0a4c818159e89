use crate::error::{ErrorKind, ErrorKindView, ParseErr};
use crate::model::{CpInfo, CpInfoInner};
use std::marker::PhantomData;
use vstd::prelude::*;

verus! {

/// An index into the constant pool of a class, together with the variant
/// `T` that the slot is expected to hold. The expectation lives in the type
/// alone: at run time a reference is its sixteen bits.
///
/// Slots count from one. Index zero stands for "no entry" where `T` is an
/// `Option`, and is invalid elsewhere.
#[derive(Debug, PartialEq, Eq, PartialOrd, Ord, Hash)]
pub struct FromPool<T> {
    inner: u16,
    _marker: PhantomData<T>,
}

impl<T> Clone for FromPool<T> {
    fn clone(&self) -> (r: Self)
        ensures
            r == *self,
    {
        FromPool { inner: self.inner, _marker: PhantomData }
    }
}

impl<T> Copy for FromPool<T> {

}

impl<T> View for FromPool<T> {
    type V = FromPool<T>;

    open spec fn view(&self) -> FromPool<T> {
        *self
    }
}

/// What a slot that holds an entry of wire tag `found` offers to a reference
/// that expects `expected`. Tag zero marks the reserved slot behind an
/// eight-byte constant, which no reference may name.
pub open spec fn spec_entry_check(expected: Option<u8>, found: u8) -> Result<(), ErrorKindView> {
    if found == 0 {
        Err(ErrorKindView::BadPoolIndex)
    } else if expected is Some && expected->0 != found {
        Err(ErrorKindView::PoolTypeMismatch { expected: expected->0, found })
    } else {
        Ok(())
    }
}

/// Whether `index` is a valid reference into `pool` for the expectation given.
pub open spec fn spec_slot_check(
    pool: Seq<CpInfo>,
    index: u16,
    expected: Option<u8>,
    optional: bool,
) -> Result<(), ErrorKindView> {
    if index == 0 {
        if optional {
            Ok(())
        } else {
            Err(ErrorKindView::BadPoolIndex)
        }
    } else if index > pool.len() {
        Err(ErrorKindView::OutOfBoundsIndex)
    } else {
        spec_entry_check(expected, pool[index - 1].inner.spec_tag())
    }
}

/// No reference may name a reserved slot: whatever it expects, the lookup
/// fails with `BadPoolIndex`.
pub proof fn lemma_reserved_slot_is_no_target(
    pool: Seq<CpInfo>,
    index: u16,
    expected: Option<u8>,
    optional: bool,
)
    requires
        0 < index <= pool.len(),
        pool[index - 1].inner is Reserved,
    ensures
        spec_slot_check(pool, index, expected, optional) == Err::<(), ErrorKindView>(
            ErrorKindView::BadPoolIndex,
        ),
{
}

/// A reference that passes the check names a slot of the pool that holds
/// an entry of the variant it expects; or it is zero and optional.
pub proof fn lemma_checked_slot_holds_expected(
    pool: Seq<CpInfo>,
    index: u16,
    expected: Option<u8>,
    optional: bool,
)
    requires
        spec_slot_check(pool, index, expected, optional) is Ok,
    ensures
        index == 0 ==> optional,
        index != 0 ==> {
            &&& 0 < index <= pool.len()
            &&& !(pool[index - 1].inner is Reserved)
            &&& expected is Some ==> pool[index - 1].inner.spec_tag() == expected->0
        },
{
}

/// Checks an entry of wire tag `found` against what a reference expects.
fn entry_check(expected: Option<u8>, found: u8) -> (r: Result<(), ParseErr>)
    ensures
        match r {
            Ok(()) => spec_entry_check(expected, found) is Ok,
            Err(e) => spec_entry_check(expected, found) == Err::<(), ErrorKindView>(e@),
        },
{
    if found == 0 {
        return Err(ParseErr::new(ErrorKind::BadPoolIndex));
    }
    match expected {
        Some(tag) => {
            if tag != found {
                return Err(ParseErr::new(ErrorKind::PoolTypeMismatch { expected: tag, found }));
            }
        },
        None => {},
    }
    Ok(())
}

/// Checks slot `index` of the pool against what a reference expects.
fn slot_check(pool: &[CpInfo], index: u16, expected: Option<u8>, optional: bool) -> (r: Result<
    (),
    ParseErr,
>)
    ensures
        match r {
            Ok(()) => spec_slot_check(pool@, index, expected, optional) is Ok,
            Err(e) => spec_slot_check(pool@, index, expected, optional) == Err::<
                (),
                ErrorKindView,
            >(e@),
        },
{
    if index == 0 {
        if optional {
            return Ok(());
        }
        return Err(ParseErr::new(ErrorKind::BadPoolIndex));
    }
    let slot = (index - 1) as usize;
    if slot >= pool.len() {
        return Err(ParseErr::new(ErrorKind::OutOfBoundsIndex));
    }
    entry_check(expected, pool[slot].inner.tag())
}

/// The failure of a lookup that expected tag `expected` and found `found`.
fn mismatch(expected: u8, found: u8) -> (e: ParseErr)
    requires
        expected != found,
    ensures
        spec_entry_check(Some(expected), found) == Err::<(), ErrorKindView>(e@),
{
    if found == 0 {
        ParseErr::new(ErrorKind::BadPoolIndex)
    } else {
        ParseErr::new(ErrorKind::PoolTypeMismatch { expected, found })
    }
}

/// The expectation that a reference type puts on the slot it names.
pub trait ValidateCpInfo {
    /// The wire tag of the variant that the slot must hold; `None` where any
    /// entry will do.
    spec fn expected() -> Option<u8>;

    /// Whether index zero is admitted and stands for "no entry".
    spec fn optional() -> bool;

    /// Checks that slot `index` of the pool holds what this type expects.
    fn validate_cp_info(info: &[CpInfo], index: u16) -> (r: Result<(), ParseErr>)
        ensures
            match r {
                Ok(()) => spec_slot_check(info@, index, Self::expected(), Self::optional()) is Ok,
                Err(e) => spec_slot_check(info@, index, Self::expected(), Self::optional())
                    == Err::<(), ErrorKindView>(e@),
            },
    ;
}

/// How a reference type reads its target out of the pool.
pub trait FromCpInfo<'pool>: ValidateCpInfo {
    /// What a successful lookup hands out.
    type Target;

    /// Whether `target` is what the entry `info` holds.
    spec fn is_target(info: CpInfo, target: Self::Target) -> bool;

    /// Whether `target` is what slot `index` of `pool` holds.
    spec fn is_target_at(pool: Seq<CpInfo>, index: u16, target: Self::Target) -> bool;

    /// Reads the target out of one entry.
    fn from_cp_info(info: &'pool CpInfo) -> (r: Result<Self::Target, ParseErr>)
        ensures
            match r {
                Ok(t) => {
                    &&& spec_entry_check(Self::expected(), info.inner.spec_tag()) is Ok
                    &&& Self::is_target(*info, t)
                },
                Err(e) => spec_entry_check(Self::expected(), info.inner.spec_tag()) == Err::<
                    (),
                    ErrorKindView,
                >(e@),
            },
    ;

    /// Reads the target out of slot `index` of the pool.
    fn from_cp_info_with_index(info: &'pool [CpInfo], index: u16) -> (r: Result<
        Self::Target,
        ParseErr,
    >)
        ensures
            match r {
                Ok(t) => {
                    &&& spec_slot_check(info@, index, Self::expected(), Self::optional()) is Ok
                    &&& Self::is_target_at(info@, index, t)
                },
                Err(e) => spec_slot_check(info@, index, Self::expected(), Self::optional())
                    == Err::<(), ErrorKindView>(e@),
            },
    ;
}

impl<T> FromPool<T> {
    /// The index as it stands in the class file.
    pub closed spec fn index(&self) -> u16 {
        self.inner
    }

    /// The index as it stands in the class file.
    pub fn inner(&self) -> (i: u16)
        ensures
            i == self.index(),
    {
        self.inner
    }

    /// A reference is its index: two references of one type with the same
    /// index are the same value.
    pub proof fn lemma_index_determines(a: FromPool<T>, b: FromPool<T>)
        requires
            a.index() == b.index(),
        ensures
            a == b,
    {
    }

    /// The reference with the given index.
    pub closed spec fn spec_new(n: u16) -> Self {
        FromPool { inner: n, _marker: PhantomData }
    }

    /// `spec_new` builds the reference that `index` reads.
    pub broadcast proof fn lemma_spec_new_index(n: u16)
        ensures
            #[trigger] Self::spec_new(n).index() == n,
    {
    }

    /// The reference with the given index.
    pub fn new(n: u16) -> (r: Self)
        ensures
            r == Self::spec_new(n),
            r.index() == n,
    {
        FromPool { inner: n, _marker: PhantomData }
    }
}

impl<T> From<u16> for FromPool<T> {
    fn from(n: u16) -> (r: Self) {
        FromPool { inner: n, _marker: PhantomData }
    }
}

impl<T> vstd::std_specs::convert::FromSpecImpl<u16> for FromPool<T> {
    open spec fn obeys_from_spec() -> bool {
        true
    }

    open spec fn from_spec(n: u16) -> Self {
        FromPool::spec_new(n)
    }
}

impl<'pool, T: FromCpInfo<'pool>> FromPool<T> {
    /// Looks the reference up in `pool`. Fails with `BadPoolIndex` where the
    /// index is zero and `T` is not optional, or names a reserved slot; with
    /// `OutOfBoundsIndex` where it lies behind the pool; with
    /// `PoolTypeMismatch` where the slot holds another variant.
    pub fn get(&self, pool: &'pool [CpInfo]) -> (r: Result<T::Target, ParseErr>)
        ensures
            match r {
                Ok(t) => {
                    &&& spec_slot_check(pool@, self.index(), T::expected(), T::optional()) is Ok
                    &&& T::is_target_at(pool@, self.index(), t)
                },
                Err(e) => spec_slot_check(pool@, self.index(), T::expected(), T::optional())
                    == Err::<(), ErrorKindView>(e@),
            },
    {
        T::from_cp_info_with_index(pool, self.inner)
    }
}

/// A check and a lookup of the same reference in the same pool agree: both
/// succeed, or both fail in the same way.
pub proof fn lemma_lookup_agrees_with_check<'pool, T: FromCpInfo<'pool>>(
    pool: Seq<CpInfo>,
    index: u16,
    checked: Result<(), ParseErr>,
    found: Result<T::Target, ParseErr>,
)
    requires
        match checked {
            Ok(()) => spec_slot_check(pool, index, T::expected(), T::optional()) is Ok,
            Err(e) => spec_slot_check(pool, index, T::expected(), T::optional()) == Err::<
                (),
                ErrorKindView,
            >(e@),
        },
        match found {
            Ok(t) => spec_slot_check(pool, index, T::expected(), T::optional()) is Ok,
            Err(e) => spec_slot_check(pool, index, T::expected(), T::optional()) == Err::<
                (),
                ErrorKindView,
            >(e@),
        },
    ensures
        checked is Ok <==> found is Ok,
        checked is Err ==> checked->Err_0@ == found->Err_0@,
{
}

impl<'pool, T: FromCpInfo<'pool>> FromPool<Option<T>> {
    /// Looks an optional reference up in `pool`: index zero yields `None`,
    /// any other index is looked up as a reference to `T`.
    pub fn maybe_get(&self, pool: &'pool [CpInfo]) -> (r: Result<Option<T::Target>, ParseErr>)
        ensures
            match r {
                Ok(None) => self.index() == 0,
                Ok(Some(t)) => {
                    &&& self.index() != 0
                    &&& spec_slot_check(pool@, self.index(), T::expected(), true) is Ok
                    &&& T::is_target_at(pool@, self.index(), t)
                },
                Err(e) => spec_slot_check(pool@, self.index(), T::expected(), true) == Err::<
                    (),
                    ErrorKindView,
                >(e@),
            },
    {
        if self.inner == 0 {
            Ok(None)
        } else {
            match T::from_cp_info_with_index(pool, self.inner) {
                Ok(t) => Ok(Some(t)),
                Err(e) => Err(e),
            }
        }
    }
}

impl<T: ValidateCpInfo> ValidateCpInfo for Option<T> {
    open spec fn expected() -> Option<u8> {
        T::expected()
    }

    open spec fn optional() -> bool {
        true
    }

    fn validate_cp_info(info: &[CpInfo], index: u16) -> (r: Result<(), ParseErr>) {
        if index == 0 {
            Ok(())
        } else {
            T::validate_cp_info(info, index)
        }
    }
}

impl<'pool, T: FromCpInfo<'pool>> FromCpInfo<'pool> for Option<T> {
    type Target = Option<T::Target>;

    open spec fn is_target(info: CpInfo, target: Option<T::Target>) -> bool {
        target is Some && T::is_target(info, target->0)
    }

    open spec fn is_target_at(pool: Seq<CpInfo>, index: u16, target: Option<T::Target>) -> bool {
        if index == 0 {
            target is None
        } else {
            target is Some && T::is_target_at(pool, index, target->0)
        }
    }

    fn from_cp_info(info: &'pool CpInfo) -> (r: Result<Option<T::Target>, ParseErr>) {
        match T::from_cp_info(info) {
            Ok(t) => Ok(Some(t)),
            Err(e) => Err(e),
        }
    }

    fn from_cp_info_with_index(info: &'pool [CpInfo], index: u16) -> (r: Result<
        Option<T::Target>,
        ParseErr,
    >) {
        if index == 0 {
            Ok(None)
        } else {
            match T::from_cp_info_with_index(info, index) {
                Ok(t) => Ok(Some(t)),
                Err(e) => Err(e),
            }
        }
    }
}

/// The open reference: any entry will do, and the lookup hands out the
/// entry as it is.
impl ValidateCpInfo for CpInfoInner {
    open spec fn expected() -> Option<u8> {
        None
    }

    open spec fn optional() -> bool {
        false
    }

    fn validate_cp_info(info: &[CpInfo], index: u16) -> (r: Result<(), ParseErr>) {
        slot_check(info, index, None, false)
    }
}

impl<'pool> FromCpInfo<'pool> for CpInfoInner {
    type Target = &'pool CpInfoInner;

    open spec fn is_target(info: CpInfo, target: &'pool CpInfoInner) -> bool {
        info.inner == *target
    }

    open spec fn is_target_at(pool: Seq<CpInfo>, index: u16, target: &'pool CpInfoInner) -> bool {
        0 < index <= pool.len() && pool[index - 1].inner == *target
    }

    fn from_cp_info(info: &'pool CpInfo) -> (r: Result<&'pool CpInfoInner, ParseErr>) {
        match entry_check(None, info.inner.tag()) {
            Ok(()) => Ok(&info.inner),
            Err(e) => Err(e),
        }
    }

    fn from_cp_info_with_index(info: &'pool [CpInfo], index: u16) -> (r: Result<
        &'pool CpInfoInner,
        ParseErr,
    >) {
        match slot_check(info, index, None, false) {
            Ok(()) => Self::from_cp_info(&info[(index - 1) as usize]),
            Err(e) => Err(e),
        }
    }
}

/// A string of characters.
#[derive(Debug, Hash, PartialEq, Eq)]
pub struct Utf8 {
    /// The characters that the payload decodes to.
    pub bytes: std::string::String,
}

impl View for Utf8 {
    type V = Seq<char>;

    open spec fn view(&self) -> Seq<char> {
        self.bytes@
    }
}

/// A 32-bit integer constant.
#[derive(Debug, Copy, Clone, Hash, PartialEq, Eq)]
pub struct Integer {
    /// The value, as it stands in the file.
    pub bytes: u32,
}

/// A single-precision floating-point constant.
#[derive(Debug, Copy, Clone, Hash, PartialEq, Eq)]
pub struct Float {
    /// The bits of the value in IEEE 754 single format.
    pub bytes: u32,
}

/// A 64-bit integer constant. It takes two slots of the pool.
#[derive(Debug, Copy, Clone, Hash, PartialEq, Eq)]
pub struct Long {
    /// The upper half of the value.
    pub high_bytes: u32,
    /// The lower half of the value.
    pub low_bytes: u32,
}

/// A double-precision floating-point constant. It takes two slots of the pool.
#[derive(Debug, Copy, Clone, Hash, PartialEq, Eq)]
pub struct Double {
    /// The upper half of the bits in IEEE 754 double format.
    pub high_bytes: u32,
    /// The lower half of the bits.
    pub low_bytes: u32,
}

/// A class or an interface, by name.
#[derive(Debug, Copy, Clone, Hash, PartialEq, Eq)]
pub struct Class {
    /// The name, in internal form.
    pub name_index: FromPool<Utf8>,
}

/// A string constant.
#[derive(Debug, Copy, Clone, Hash, PartialEq, Eq)]
pub struct String {
    /// The characters of the string.
    pub string_index: FromPool<Utf8>,
}

/// A field of a class or an interface.
#[derive(Debug, Copy, Clone, Hash, PartialEq, Eq)]
pub struct Fieldref {
    /// The class or interface that declares the field.
    pub class_index: FromPool<Class>,
    /// The name and the descriptor of the field.
    pub name_and_type_index: FromPool<NameAndType>,
}

/// A method of a class.
#[derive(Debug, Copy, Clone, Hash, PartialEq, Eq)]
pub struct MethodRef {
    /// The class that declares the method.
    pub class_index: FromPool<Class>,
    /// The name and the descriptor of the method.
    pub name_and_type_index: FromPool<NameAndType>,
}

/// A method of an interface.
#[derive(Debug, Copy, Clone, Hash, PartialEq, Eq)]
pub struct InterfaceMethodref {
    /// The interface that declares the method.
    pub class_index: FromPool<Class>,
    /// The name and the descriptor of the method.
    pub name_and_type_index: FromPool<NameAndType>,
}

/// A field or a method, without the class it belongs to.
#[derive(Debug, Copy, Clone, Hash, PartialEq, Eq)]
pub struct NameAndType {
    /// The name.
    pub name_index: FromPool<Utf8>,
    /// The field or method descriptor.
    pub descriptor_index: FromPool<Utf8>,
}

/// A method handle.
#[derive(Debug, Copy, Clone, Hash, PartialEq, Eq)]
pub struct MethodHandle {
    /// The kind of the handle, 1 to 9. It decides what the reference names.
    pub reference_kind: u8,
    /// What the handle refers to.
    pub reference_index: MethodHandleIndex,
}

/// What a method handle refers to. The kind of the handle decides the variant.
#[derive(Debug, Copy, Clone, Hash, PartialEq, Eq)]
pub enum MethodHandleIndex {
    /// A handle that reads or writes a field.
    Field(FromPool<Fieldref>),
    /// A handle that invokes a method of a class.
    Method(FromPool<MethodRef>),
    /// A handle that invokes a method of an interface.
    Interface(FromPool<InterfaceMethodref>),
}

/// A method type.
#[derive(Debug, Copy, Clone, Hash, PartialEq, Eq)]
pub struct MethodType {
    /// The method descriptor.
    pub descriptor_index: FromPool<Utf8>,
}

/// A dynamically computed constant.
#[derive(Debug, Copy, Clone, Hash, PartialEq, Eq)]
pub struct Dynamic {
    /// An index into the bootstrap method table of the class.
    pub bootstrap_method_attr_index: u16,
    /// The name and the descriptor of the constant.
    pub name_and_type_index: FromPool<NameAndType>,
}

/// A dynamically computed call site.
#[derive(Debug, Copy, Clone, Hash, PartialEq, Eq)]
pub struct InvokeDynamic {
    /// An index into the bootstrap method table of the class.
    pub bootstrap_method_attr_index: u16,
    /// The name and the descriptor of the call site.
    pub name_and_type_index: FromPool<NameAndType>,
}

/// A module, by name.
#[derive(Debug, Copy, Clone, Hash, PartialEq, Eq)]
pub struct Module {
    /// The name of the module.
    pub name_index: FromPool<Utf8>,
}

/// A package, by name.
#[derive(Debug, Copy, Clone, Hash, PartialEq, Eq)]
pub struct Package {
    /// The name of the package, in internal form.
    pub name_index: FromPool<Utf8>,
}

impl ValidateCpInfo for Utf8 {
    open spec fn expected() -> Option<u8> {
        Some(1u8)
    }

    open spec fn optional() -> bool {
        false
    }

    fn validate_cp_info(info: &[CpInfo], index: u16) -> (r: Result<(), ParseErr>) {
        slot_check(info, index, Some(1), false)
    }
}

impl<'pool> FromCpInfo<'pool> for Utf8 {
    type Target = &'pool str;

    open spec fn is_target(info: CpInfo, target: &'pool str) -> bool {
        info.inner is Utf8 && info.inner->Utf8_0.bytes@ == target@
    }

    open spec fn is_target_at(pool: Seq<CpInfo>, index: u16, target: &'pool str) -> bool {
        0 < index <= pool.len() && Self::is_target(pool[index - 1], target)
    }

    fn from_cp_info(info: &'pool CpInfo) -> (r: Result<&'pool str, ParseErr>) {
        match &info.inner {
            CpInfoInner::Utf8(target) => Ok(target.bytes.as_str()),
            other => Err(mismatch(1, other.tag())),
        }
    }

    fn from_cp_info_with_index(info: &'pool [CpInfo], index: u16) -> (r: Result<
        &'pool str,
        ParseErr,
    >) {
        match slot_check(info, index, Some(1), false) {
            Ok(()) => Self::from_cp_info(&info[(index - 1) as usize]),
            Err(e) => Err(e),
        }
    }
}

impl ValidateCpInfo for Integer {
    open spec fn expected() -> Option<u8> {
        Some(3u8)
    }

    open spec fn optional() -> bool {
        false
    }

    fn validate_cp_info(info: &[CpInfo], index: u16) -> (r: Result<(), ParseErr>) {
        slot_check(info, index, Some(3), false)
    }
}

impl<'pool> FromCpInfo<'pool> for Integer {
    type Target = &'pool Integer;

    open spec fn is_target(info: CpInfo, target: &'pool Integer) -> bool {
        info.inner == CpInfoInner::Integer(*target)
    }

    open spec fn is_target_at(pool: Seq<CpInfo>, index: u16, target: &'pool Integer) -> bool {
        0 < index <= pool.len() && Self::is_target(pool[index - 1], target)
    }

    fn from_cp_info(info: &'pool CpInfo) -> (r: Result<&'pool Integer, ParseErr>) {
        match &info.inner {
            CpInfoInner::Integer(target) => Ok(target),
            other => Err(mismatch(3, other.tag())),
        }
    }

    fn from_cp_info_with_index(info: &'pool [CpInfo], index: u16) -> (r: Result<
        &'pool Integer,
        ParseErr,
    >) {
        match slot_check(info, index, Some(3), false) {
            Ok(()) => Self::from_cp_info(&info[(index - 1) as usize]),
            Err(e) => Err(e),
        }
    }
}

impl ValidateCpInfo for Float {
    open spec fn expected() -> Option<u8> {
        Some(4u8)
    }

    open spec fn optional() -> bool {
        false
    }

    fn validate_cp_info(info: &[CpInfo], index: u16) -> (r: Result<(), ParseErr>) {
        slot_check(info, index, Some(4), false)
    }
}

impl<'pool> FromCpInfo<'pool> for Float {
    type Target = &'pool Float;

    open spec fn is_target(info: CpInfo, target: &'pool Float) -> bool {
        info.inner == CpInfoInner::Float(*target)
    }

    open spec fn is_target_at(pool: Seq<CpInfo>, index: u16, target: &'pool Float) -> bool {
        0 < index <= pool.len() && Self::is_target(pool[index - 1], target)
    }

    fn from_cp_info(info: &'pool CpInfo) -> (r: Result<&'pool Float, ParseErr>) {
        match &info.inner {
            CpInfoInner::Float(target) => Ok(target),
            other => Err(mismatch(4, other.tag())),
        }
    }

    fn from_cp_info_with_index(info: &'pool [CpInfo], index: u16) -> (r: Result<
        &'pool Float,
        ParseErr,
    >) {
        match slot_check(info, index, Some(4), false) {
            Ok(()) => Self::from_cp_info(&info[(index - 1) as usize]),
            Err(e) => Err(e),
        }
    }
}

impl ValidateCpInfo for Long {
    open spec fn expected() -> Option<u8> {
        Some(5u8)
    }

    open spec fn optional() -> bool {
        false
    }

    fn validate_cp_info(info: &[CpInfo], index: u16) -> (r: Result<(), ParseErr>) {
        slot_check(info, index, Some(5), false)
    }
}

impl<'pool> FromCpInfo<'pool> for Long {
    type Target = &'pool Long;

    open spec fn is_target(info: CpInfo, target: &'pool Long) -> bool {
        info.inner == CpInfoInner::Long(*target)
    }

    open spec fn is_target_at(pool: Seq<CpInfo>, index: u16, target: &'pool Long) -> bool {
        0 < index <= pool.len() && Self::is_target(pool[index - 1], target)
    }

    fn from_cp_info(info: &'pool CpInfo) -> (r: Result<&'pool Long, ParseErr>) {
        match &info.inner {
            CpInfoInner::Long(target) => Ok(target),
            other => Err(mismatch(5, other.tag())),
        }
    }

    fn from_cp_info_with_index(info: &'pool [CpInfo], index: u16) -> (r: Result<
        &'pool Long,
        ParseErr,
    >) {
        match slot_check(info, index, Some(5), false) {
            Ok(()) => Self::from_cp_info(&info[(index - 1) as usize]),
            Err(e) => Err(e),
        }
    }
}

impl ValidateCpInfo for Double {
    open spec fn expected() -> Option<u8> {
        Some(6u8)
    }

    open spec fn optional() -> bool {
        false
    }

    fn validate_cp_info(info: &[CpInfo], index: u16) -> (r: Result<(), ParseErr>) {
        slot_check(info, index, Some(6), false)
    }
}

impl<'pool> FromCpInfo<'pool> for Double {
    type Target = &'pool Double;

    open spec fn is_target(info: CpInfo, target: &'pool Double) -> bool {
        info.inner == CpInfoInner::Double(*target)
    }

    open spec fn is_target_at(pool: Seq<CpInfo>, index: u16, target: &'pool Double) -> bool {
        0 < index <= pool.len() && Self::is_target(pool[index - 1], target)
    }

    fn from_cp_info(info: &'pool CpInfo) -> (r: Result<&'pool Double, ParseErr>) {
        match &info.inner {
            CpInfoInner::Double(target) => Ok(target),
            other => Err(mismatch(6, other.tag())),
        }
    }

    fn from_cp_info_with_index(info: &'pool [CpInfo], index: u16) -> (r: Result<
        &'pool Double,
        ParseErr,
    >) {
        match slot_check(info, index, Some(6), false) {
            Ok(()) => Self::from_cp_info(&info[(index - 1) as usize]),
            Err(e) => Err(e),
        }
    }
}

impl ValidateCpInfo for Class {
    open spec fn expected() -> Option<u8> {
        Some(7u8)
    }

    open spec fn optional() -> bool {
        false
    }

    fn validate_cp_info(info: &[CpInfo], index: u16) -> (r: Result<(), ParseErr>) {
        slot_check(info, index, Some(7), false)
    }
}

impl<'pool> FromCpInfo<'pool> for Class {
    type Target = &'pool Class;

    open spec fn is_target(info: CpInfo, target: &'pool Class) -> bool {
        info.inner == CpInfoInner::Class(*target)
    }

    open spec fn is_target_at(pool: Seq<CpInfo>, index: u16, target: &'pool Class) -> bool {
        0 < index <= pool.len() && Self::is_target(pool[index - 1], target)
    }

    fn from_cp_info(info: &'pool CpInfo) -> (r: Result<&'pool Class, ParseErr>) {
        match &info.inner {
            CpInfoInner::Class(target) => Ok(target),
            other => Err(mismatch(7, other.tag())),
        }
    }

    fn from_cp_info_with_index(info: &'pool [CpInfo], index: u16) -> (r: Result<
        &'pool Class,
        ParseErr,
    >) {
        match slot_check(info, index, Some(7), false) {
            Ok(()) => Self::from_cp_info(&info[(index - 1) as usize]),
            Err(e) => Err(e),
        }
    }
}

impl ValidateCpInfo for String {
    open spec fn expected() -> Option<u8> {
        Some(8u8)
    }

    open spec fn optional() -> bool {
        false
    }

    fn validate_cp_info(info: &[CpInfo], index: u16) -> (r: Result<(), ParseErr>) {
        slot_check(info, index, Some(8), false)
    }
}

impl<'pool> FromCpInfo<'pool> for String {
    type Target = &'pool String;

    open spec fn is_target(info: CpInfo, target: &'pool String) -> bool {
        info.inner == CpInfoInner::String(*target)
    }

    open spec fn is_target_at(pool: Seq<CpInfo>, index: u16, target: &'pool String) -> bool {
        0 < index <= pool.len() && Self::is_target(pool[index - 1], target)
    }

    fn from_cp_info(info: &'pool CpInfo) -> (r: Result<&'pool String, ParseErr>) {
        match &info.inner {
            CpInfoInner::String(target) => Ok(target),
            other => Err(mismatch(8, other.tag())),
        }
    }

    fn from_cp_info_with_index(info: &'pool [CpInfo], index: u16) -> (r: Result<
        &'pool String,
        ParseErr,
    >) {
        match slot_check(info, index, Some(8), false) {
            Ok(()) => Self::from_cp_info(&info[(index - 1) as usize]),
            Err(e) => Err(e),
        }
    }
}

impl ValidateCpInfo for Fieldref {
    open spec fn expected() -> Option<u8> {
        Some(9u8)
    }

    open spec fn optional() -> bool {
        false
    }

    fn validate_cp_info(info: &[CpInfo], index: u16) -> (r: Result<(), ParseErr>) {
        slot_check(info, index, Some(9), false)
    }
}

impl<'pool> FromCpInfo<'pool> for Fieldref {
    type Target = &'pool Fieldref;

    open spec fn is_target(info: CpInfo, target: &'pool Fieldref) -> bool {
        info.inner == CpInfoInner::Fieldref(*target)
    }

    open spec fn is_target_at(pool: Seq<CpInfo>, index: u16, target: &'pool Fieldref) -> bool {
        0 < index <= pool.len() && Self::is_target(pool[index - 1], target)
    }

    fn from_cp_info(info: &'pool CpInfo) -> (r: Result<&'pool Fieldref, ParseErr>) {
        match &info.inner {
            CpInfoInner::Fieldref(target) => Ok(target),
            other => Err(mismatch(9, other.tag())),
        }
    }

    fn from_cp_info_with_index(info: &'pool [CpInfo], index: u16) -> (r: Result<
        &'pool Fieldref,
        ParseErr,
    >) {
        match slot_check(info, index, Some(9), false) {
            Ok(()) => Self::from_cp_info(&info[(index - 1) as usize]),
            Err(e) => Err(e),
        }
    }
}

impl ValidateCpInfo for MethodRef {
    open spec fn expected() -> Option<u8> {
        Some(10u8)
    }

    open spec fn optional() -> bool {
        false
    }

    fn validate_cp_info(info: &[CpInfo], index: u16) -> (r: Result<(), ParseErr>) {
        slot_check(info, index, Some(10), false)
    }
}

impl<'pool> FromCpInfo<'pool> for MethodRef {
    type Target = &'pool MethodRef;

    open spec fn is_target(info: CpInfo, target: &'pool MethodRef) -> bool {
        info.inner == CpInfoInner::MethodRef(*target)
    }

    open spec fn is_target_at(pool: Seq<CpInfo>, index: u16, target: &'pool MethodRef) -> bool {
        0 < index <= pool.len() && Self::is_target(pool[index - 1], target)
    }

    fn from_cp_info(info: &'pool CpInfo) -> (r: Result<&'pool MethodRef, ParseErr>) {
        match &info.inner {
            CpInfoInner::MethodRef(target) => Ok(target),
            other => Err(mismatch(10, other.tag())),
        }
    }

    fn from_cp_info_with_index(info: &'pool [CpInfo], index: u16) -> (r: Result<
        &'pool MethodRef,
        ParseErr,
    >) {
        match slot_check(info, index, Some(10), false) {
            Ok(()) => Self::from_cp_info(&info[(index - 1) as usize]),
            Err(e) => Err(e),
        }
    }
}

impl ValidateCpInfo for InterfaceMethodref {
    open spec fn expected() -> Option<u8> {
        Some(11u8)
    }

    open spec fn optional() -> bool {
        false
    }

    fn validate_cp_info(info: &[CpInfo], index: u16) -> (r: Result<(), ParseErr>) {
        slot_check(info, index, Some(11), false)
    }
}

impl<'pool> FromCpInfo<'pool> for InterfaceMethodref {
    type Target = &'pool InterfaceMethodref;

    open spec fn is_target(info: CpInfo, target: &'pool InterfaceMethodref) -> bool {
        info.inner == CpInfoInner::InterfaceMethodref(*target)
    }

    open spec fn is_target_at(pool: Seq<CpInfo>, index: u16, target: &'pool InterfaceMethodref) -> bool {
        0 < index <= pool.len() && Self::is_target(pool[index - 1], target)
    }

    fn from_cp_info(info: &'pool CpInfo) -> (r: Result<&'pool InterfaceMethodref, ParseErr>) {
        match &info.inner {
            CpInfoInner::InterfaceMethodref(target) => Ok(target),
            other => Err(mismatch(11, other.tag())),
        }
    }

    fn from_cp_info_with_index(info: &'pool [CpInfo], index: u16) -> (r: Result<
        &'pool InterfaceMethodref,
        ParseErr,
    >) {
        match slot_check(info, index, Some(11), false) {
            Ok(()) => Self::from_cp_info(&info[(index - 1) as usize]),
            Err(e) => Err(e),
        }
    }
}

impl ValidateCpInfo for NameAndType {
    open spec fn expected() -> Option<u8> {
        Some(12u8)
    }

    open spec fn optional() -> bool {
        false
    }

    fn validate_cp_info(info: &[CpInfo], index: u16) -> (r: Result<(), ParseErr>) {
        slot_check(info, index, Some(12), false)
    }
}

impl<'pool> FromCpInfo<'pool> for NameAndType {
    type Target = &'pool NameAndType;

    open spec fn is_target(info: CpInfo, target: &'pool NameAndType) -> bool {
        info.inner == CpInfoInner::NameAndType(*target)
    }

    open spec fn is_target_at(pool: Seq<CpInfo>, index: u16, target: &'pool NameAndType) -> bool {
        0 < index <= pool.len() && Self::is_target(pool[index - 1], target)
    }

    fn from_cp_info(info: &'pool CpInfo) -> (r: Result<&'pool NameAndType, ParseErr>) {
        match &info.inner {
            CpInfoInner::NameAndType(target) => Ok(target),
            other => Err(mismatch(12, other.tag())),
        }
    }

    fn from_cp_info_with_index(info: &'pool [CpInfo], index: u16) -> (r: Result<
        &'pool NameAndType,
        ParseErr,
    >) {
        match slot_check(info, index, Some(12), false) {
            Ok(()) => Self::from_cp_info(&info[(index - 1) as usize]),
            Err(e) => Err(e),
        }
    }
}

impl ValidateCpInfo for MethodHandle {
    open spec fn expected() -> Option<u8> {
        Some(15u8)
    }

    open spec fn optional() -> bool {
        false
    }

    fn validate_cp_info(info: &[CpInfo], index: u16) -> (r: Result<(), ParseErr>) {
        slot_check(info, index, Some(15), false)
    }
}

impl<'pool> FromCpInfo<'pool> for MethodHandle {
    type Target = &'pool MethodHandle;

    open spec fn is_target(info: CpInfo, target: &'pool MethodHandle) -> bool {
        info.inner == CpInfoInner::MethodHandle(*target)
    }

    open spec fn is_target_at(pool: Seq<CpInfo>, index: u16, target: &'pool MethodHandle) -> bool {
        0 < index <= pool.len() && Self::is_target(pool[index - 1], target)
    }

    fn from_cp_info(info: &'pool CpInfo) -> (r: Result<&'pool MethodHandle, ParseErr>) {
        match &info.inner {
            CpInfoInner::MethodHandle(target) => Ok(target),
            other => Err(mismatch(15, other.tag())),
        }
    }

    fn from_cp_info_with_index(info: &'pool [CpInfo], index: u16) -> (r: Result<
        &'pool MethodHandle,
        ParseErr,
    >) {
        match slot_check(info, index, Some(15), false) {
            Ok(()) => Self::from_cp_info(&info[(index - 1) as usize]),
            Err(e) => Err(e),
        }
    }
}

impl ValidateCpInfo for MethodType {
    open spec fn expected() -> Option<u8> {
        Some(16u8)
    }

    open spec fn optional() -> bool {
        false
    }

    fn validate_cp_info(info: &[CpInfo], index: u16) -> (r: Result<(), ParseErr>) {
        slot_check(info, index, Some(16), false)
    }
}

impl<'pool> FromCpInfo<'pool> for MethodType {
    type Target = &'pool MethodType;

    open spec fn is_target(info: CpInfo, target: &'pool MethodType) -> bool {
        info.inner == CpInfoInner::MethodType(*target)
    }

    open spec fn is_target_at(pool: Seq<CpInfo>, index: u16, target: &'pool MethodType) -> bool {
        0 < index <= pool.len() && Self::is_target(pool[index - 1], target)
    }

    fn from_cp_info(info: &'pool CpInfo) -> (r: Result<&'pool MethodType, ParseErr>) {
        match &info.inner {
            CpInfoInner::MethodType(target) => Ok(target),
            other => Err(mismatch(16, other.tag())),
        }
    }

    fn from_cp_info_with_index(info: &'pool [CpInfo], index: u16) -> (r: Result<
        &'pool MethodType,
        ParseErr,
    >) {
        match slot_check(info, index, Some(16), false) {
            Ok(()) => Self::from_cp_info(&info[(index - 1) as usize]),
            Err(e) => Err(e),
        }
    }
}

impl ValidateCpInfo for Dynamic {
    open spec fn expected() -> Option<u8> {
        Some(17u8)
    }

    open spec fn optional() -> bool {
        false
    }

    fn validate_cp_info(info: &[CpInfo], index: u16) -> (r: Result<(), ParseErr>) {
        slot_check(info, index, Some(17), false)
    }
}

impl<'pool> FromCpInfo<'pool> for Dynamic {
    type Target = &'pool Dynamic;

    open spec fn is_target(info: CpInfo, target: &'pool Dynamic) -> bool {
        info.inner == CpInfoInner::Dynamic(*target)
    }

    open spec fn is_target_at(pool: Seq<CpInfo>, index: u16, target: &'pool Dynamic) -> bool {
        0 < index <= pool.len() && Self::is_target(pool[index - 1], target)
    }

    fn from_cp_info(info: &'pool CpInfo) -> (r: Result<&'pool Dynamic, ParseErr>) {
        match &info.inner {
            CpInfoInner::Dynamic(target) => Ok(target),
            other => Err(mismatch(17, other.tag())),
        }
    }

    fn from_cp_info_with_index(info: &'pool [CpInfo], index: u16) -> (r: Result<
        &'pool Dynamic,
        ParseErr,
    >) {
        match slot_check(info, index, Some(17), false) {
            Ok(()) => Self::from_cp_info(&info[(index - 1) as usize]),
            Err(e) => Err(e),
        }
    }
}

impl ValidateCpInfo for InvokeDynamic {
    open spec fn expected() -> Option<u8> {
        Some(18u8)
    }

    open spec fn optional() -> bool {
        false
    }

    fn validate_cp_info(info: &[CpInfo], index: u16) -> (r: Result<(), ParseErr>) {
        slot_check(info, index, Some(18), false)
    }
}

impl<'pool> FromCpInfo<'pool> for InvokeDynamic {
    type Target = &'pool InvokeDynamic;

    open spec fn is_target(info: CpInfo, target: &'pool InvokeDynamic) -> bool {
        info.inner == CpInfoInner::InvokeDynamic(*target)
    }

    open spec fn is_target_at(pool: Seq<CpInfo>, index: u16, target: &'pool InvokeDynamic) -> bool {
        0 < index <= pool.len() && Self::is_target(pool[index - 1], target)
    }

    fn from_cp_info(info: &'pool CpInfo) -> (r: Result<&'pool InvokeDynamic, ParseErr>) {
        match &info.inner {
            CpInfoInner::InvokeDynamic(target) => Ok(target),
            other => Err(mismatch(18, other.tag())),
        }
    }

    fn from_cp_info_with_index(info: &'pool [CpInfo], index: u16) -> (r: Result<
        &'pool InvokeDynamic,
        ParseErr,
    >) {
        match slot_check(info, index, Some(18), false) {
            Ok(()) => Self::from_cp_info(&info[(index - 1) as usize]),
            Err(e) => Err(e),
        }
    }
}

impl ValidateCpInfo for Module {
    open spec fn expected() -> Option<u8> {
        Some(19u8)
    }

    open spec fn optional() -> bool {
        false
    }

    fn validate_cp_info(info: &[CpInfo], index: u16) -> (r: Result<(), ParseErr>) {
        slot_check(info, index, Some(19), false)
    }
}

impl<'pool> FromCpInfo<'pool> for Module {
    type Target = &'pool Module;

    open spec fn is_target(info: CpInfo, target: &'pool Module) -> bool {
        info.inner == CpInfoInner::Module(*target)
    }

    open spec fn is_target_at(pool: Seq<CpInfo>, index: u16, target: &'pool Module) -> bool {
        0 < index <= pool.len() && Self::is_target(pool[index - 1], target)
    }

    fn from_cp_info(info: &'pool CpInfo) -> (r: Result<&'pool Module, ParseErr>) {
        match &info.inner {
            CpInfoInner::Module(target) => Ok(target),
            other => Err(mismatch(19, other.tag())),
        }
    }

    fn from_cp_info_with_index(info: &'pool [CpInfo], index: u16) -> (r: Result<
        &'pool Module,
        ParseErr,
    >) {
        match slot_check(info, index, Some(19), false) {
            Ok(()) => Self::from_cp_info(&info[(index - 1) as usize]),
            Err(e) => Err(e),
        }
    }
}

impl ValidateCpInfo for Package {
    open spec fn expected() -> Option<u8> {
        Some(20u8)
    }

    open spec fn optional() -> bool {
        false
    }

    fn validate_cp_info(info: &[CpInfo], index: u16) -> (r: Result<(), ParseErr>) {
        slot_check(info, index, Some(20), false)
    }
}

impl<'pool> FromCpInfo<'pool> for Package {
    type Target = &'pool Package;

    open spec fn is_target(info: CpInfo, target: &'pool Package) -> bool {
        info.inner == CpInfoInner::Package(*target)
    }

    open spec fn is_target_at(pool: Seq<CpInfo>, index: u16, target: &'pool Package) -> bool {
        0 < index <= pool.len() && Self::is_target(pool[index - 1], target)
    }

    fn from_cp_info(info: &'pool CpInfo) -> (r: Result<&'pool Package, ParseErr>) {
        match &info.inner {
            CpInfoInner::Package(target) => Ok(target),
            other => Err(mismatch(20, other.tag())),
        }
    }

    fn from_cp_info_with_index(info: &'pool [CpInfo], index: u16) -> (r: Result<
        &'pool Package,
        ParseErr,
    >) {
        match slot_check(info, index, Some(20), false) {
            Ok(()) => Self::from_cp_info(&info[(index - 1) as usize]),
            Err(e) => Err(e),
        }
    }
}

} // verus!
