//! Mapping from a class file's major version to the release it belongs to.
//!
//! The supported major versions form the closed range 45 to 61; anything
//! outside it is rejected.

use vstd::prelude::*;

verus! {

pub const MIN_MAJOR_VERSION: u16 = 45;

pub const MAX_MAJOR_VERSION: u16 = 61;

/// The release a supported major version stands for.
#[derive(Clone, Copy, Debug, PartialEq, Eq, Structural)]
pub enum JavaVersion {
    V1_0_2Or1_1,
    V1_2,
    V1_3,
    V1_4,
    V5_0,
    V6,
    V7,
    V8,
    V9,
    V10,
    V11,
    V12,
    V13,
    V14,
    V15,
    V16,
    V17,
}

/// An unrecognized or unsupported major version.
#[derive(Clone, Copy, Debug, PartialEq, Eq, Structural)]
pub struct TryJavaVersionFromU2Error(pub u16);

/// Which release a major version maps to, or the rejection of one
/// outside the supported range.
pub open spec fn spec_java_version_from_u2(value: u16) -> Result<
    JavaVersion,
    TryJavaVersionFromU2Error,
> {
    if value == 45 {
        Ok(JavaVersion::V1_0_2Or1_1)
    } else if value == 46 {
        Ok(JavaVersion::V1_2)
    } else if value == 47 {
        Ok(JavaVersion::V1_3)
    } else if value == 48 {
        Ok(JavaVersion::V1_4)
    } else if value == 49 {
        Ok(JavaVersion::V5_0)
    } else if value == 50 {
        Ok(JavaVersion::V6)
    } else if value == 51 {
        Ok(JavaVersion::V7)
    } else if value == 52 {
        Ok(JavaVersion::V8)
    } else if value == 53 {
        Ok(JavaVersion::V9)
    } else if value == 54 {
        Ok(JavaVersion::V10)
    } else if value == 55 {
        Ok(JavaVersion::V11)
    } else if value == 56 {
        Ok(JavaVersion::V12)
    } else if value == 57 {
        Ok(JavaVersion::V13)
    } else if value == 58 {
        Ok(JavaVersion::V14)
    } else if value == 59 {
        Ok(JavaVersion::V15)
    } else if value == 60 {
        Ok(JavaVersion::V16)
    } else if value == 61 {
        Ok(JavaVersion::V17)
    } else {
        Err(TryJavaVersionFromU2Error(value))
    }
}

/// The short form each release is rendered as.
pub open spec fn spec_java_version_name(v: JavaVersion) -> Seq<char> {
    match v {
        JavaVersion::V1_0_2Or1_1 => "1.0.2 or 1.1"@,
        JavaVersion::V1_2 => "1.2"@,
        JavaVersion::V1_3 => "1.3"@,
        JavaVersion::V1_4 => "1.4"@,
        JavaVersion::V5_0 => "5.0"@,
        JavaVersion::V6 => "6"@,
        JavaVersion::V7 => "7"@,
        JavaVersion::V8 => "8"@,
        JavaVersion::V9 => "9"@,
        JavaVersion::V10 => "10"@,
        JavaVersion::V11 => "11"@,
        JavaVersion::V12 => "12"@,
        JavaVersion::V13 => "13"@,
        JavaVersion::V14 => "14"@,
        JavaVersion::V15 => "15"@,
        JavaVersion::V16 => "16"@,
        JavaVersion::V17 => "17"@,
    }
}

impl JavaVersion {
    /// Maps a major version to its release; exactly the versions of the
    /// supported closed range are accepted.
    pub fn try_from_u2(value: u16) -> (r: Result<JavaVersion, TryJavaVersionFromU2Error>)
        ensures
            r == spec_java_version_from_u2(value),
            r is Ok <==> MIN_MAJOR_VERSION <= value <= MAX_MAJOR_VERSION,
    {
        match value {
            45 => Ok(JavaVersion::V1_0_2Or1_1),
            46 => Ok(JavaVersion::V1_2),
            47 => Ok(JavaVersion::V1_3),
            48 => Ok(JavaVersion::V1_4),
            49 => Ok(JavaVersion::V5_0),
            50 => Ok(JavaVersion::V6),
            51 => Ok(JavaVersion::V7),
            52 => Ok(JavaVersion::V8),
            53 => Ok(JavaVersion::V9),
            54 => Ok(JavaVersion::V10),
            55 => Ok(JavaVersion::V11),
            56 => Ok(JavaVersion::V12),
            57 => Ok(JavaVersion::V13),
            58 => Ok(JavaVersion::V14),
            59 => Ok(JavaVersion::V15),
            60 => Ok(JavaVersion::V16),
            61 => Ok(JavaVersion::V17),
            _ => Err(TryJavaVersionFromU2Error(value)),
        }
    }

    /// The release in its usual short form, for rendering.
    pub fn as_str(&self) -> (r: &'static str)
        ensures
            r@ == spec_java_version_name(*self),
    {
        match self {
            JavaVersion::V1_0_2Or1_1 => "1.0.2 or 1.1",
            JavaVersion::V1_2 => "1.2",
            JavaVersion::V1_3 => "1.3",
            JavaVersion::V1_4 => "1.4",
            JavaVersion::V5_0 => "5.0",
            JavaVersion::V6 => "6",
            JavaVersion::V7 => "7",
            JavaVersion::V8 => "8",
            JavaVersion::V9 => "9",
            JavaVersion::V10 => "10",
            JavaVersion::V11 => "11",
            JavaVersion::V12 => "12",
            JavaVersion::V13 => "13",
            JavaVersion::V14 => "14",
            JavaVersion::V15 => "15",
            JavaVersion::V16 => "16",
            JavaVersion::V17 => "17",
        }
    }
}

} // verus!
