//! The visibility and kind modifier bits of a class or member.
//!
//! Access flags are a bitset; each flag has a fixed bit value and a
//! conventional name.

use vstd::prelude::*;

use crate::primitives::U2;

verus! {

/// One modifier bit of a class-level access flag set.
#[derive(Clone, Copy, Debug, PartialEq, Eq, Structural)]
pub enum AccessFlags {
    Public,
    Final,
    Super,
    Interface,
    Abstract,
    Synthetic,
    Annotation,
    Enum,
    Module,
}

/// The bit each flag occupies in the flag word.
pub open spec fn spec_flag_value(f: AccessFlags) -> u16 {
    match f {
        AccessFlags::Public => 0x0001,
        AccessFlags::Final => 0x0010,
        AccessFlags::Super => 0x0020,
        AccessFlags::Interface => 0x0200,
        AccessFlags::Abstract => 0x0400,
        AccessFlags::Synthetic => 0x1000,
        AccessFlags::Annotation => 0x2000,
        AccessFlags::Enum => 0x4000,
        AccessFlags::Module => 0x8000,
    }
}

/// The conventional name of each flag.
pub open spec fn spec_flag_name(f: AccessFlags) -> Seq<char> {
    match f {
        AccessFlags::Public => "ACC_PUBLIC"@,
        AccessFlags::Final => "ACC_FINAL"@,
        AccessFlags::Super => "ACC_SUPER"@,
        AccessFlags::Interface => "ACC_INTERFACE"@,
        AccessFlags::Abstract => "ACC_ABSTRACT"@,
        AccessFlags::Synthetic => "ACC_SYNTHETIC"@,
        AccessFlags::Annotation => "ACC_ANNOTATION"@,
        AccessFlags::Enum => "ACC_ENUM"@,
        AccessFlags::Module => "ACC_MODULE"@,
    }
}

impl AccessFlags {
    /// The conventional name of this flag.
    pub fn flag_name(&self) -> (r: &'static str)
        ensures
            r@ == spec_flag_name(*self),
    {
        match self {
            AccessFlags::Public => "ACC_PUBLIC",
            AccessFlags::Final => "ACC_FINAL",
            AccessFlags::Super => "ACC_SUPER",
            AccessFlags::Interface => "ACC_INTERFACE",
            AccessFlags::Abstract => "ACC_ABSTRACT",
            AccessFlags::Synthetic => "ACC_SYNTHETIC",
            AccessFlags::Annotation => "ACC_ANNOTATION",
            AccessFlags::Enum => "ACC_ENUM",
            AccessFlags::Module => "ACC_MODULE",
        }
    }

    /// The bit this flag occupies in the flag word.
    pub fn value(&self) -> (r: U2)
        ensures
            r == spec_flag_value(*self),
    {
        match self {
            AccessFlags::Public => 0x0001,
            AccessFlags::Final => 0x0010,
            AccessFlags::Super => 0x0020,
            AccessFlags::Interface => 0x0200,
            AccessFlags::Abstract => 0x0400,
            AccessFlags::Synthetic => 0x1000,
            AccessFlags::Annotation => 0x2000,
            AccessFlags::Enum => 0x4000,
            AccessFlags::Module => 0x8000,
        }
    }

    /// Whether this flag is set in `flags`.
    pub fn is_set_in(&self, flags: U2) -> (r: bool)
        ensures
            r == (flags & spec_flag_value(*self) != 0),
    {
        flags & self.value() != 0
    }
}

} // verus!
