//! Decoding the host's parameter flags and values.
//!
//! Every host parameter carries a flag word whose low bits say which shape
//! the value currently has: scalar, integer, one of two float layouts,
//! array, or hash table. An accessor must read the flags first and only
//! then fetch the value through the matching getter, since fetching
//! through the wrong one reads the wrong arm of the host's union. The
//! boundary code fetches the raw value; [`Param::get_value`] checks that
//! the fetch matched the flags and produces the tagged value handlers see.
//! Float payloads travel as their raw bit pattern.

use vstd::prelude::*;

use crate::string_array::CStrArray;

verus! {

/// Flag bit marking a scalar parameter (the all-clear type bits).
pub const PM_SCALAR: i32 = 0;

/// Flag bit marking an array parameter.
pub const PM_ARRAY: i32 = 1;

/// Flag bit marking an integer parameter.
pub const PM_INTEGER: i32 = 2;

/// Flag bit marking a float parameter printed in scientific notation.
pub const PM_EFLOAT: i32 = 4;

/// Flag bit marking a float parameter printed in fixed notation.
pub const PM_FFLOAT: i32 = 8;

/// Flag bit marking a hash-table parameter.
pub const PM_HASHED: i32 = 16;

/// The mask selecting the type bits out of a parameter flag word.
pub const PM_TYPE_MASK: i32 = 31;

/// The shape a host parameter currently has, as decoded from its flags.
#[derive(Clone, Copy, Debug, PartialEq, Eq, Structural)]
pub enum ParamType {
    /// A text value.
    Scalar,
    /// An integer value.
    Integer,
    /// A float printed in scientific notation.
    EFloat,
    /// A float printed in fixed notation.
    FFloat,
    /// An array of text values.
    Array,
    /// A hash table; opaque to this library.
    Hashed,
}

/// A parameter's flag word, as read from the host's parameter table.
#[derive(Clone, Copy, Debug, PartialEq, Eq, Structural)]
pub struct ParamFlags {
    /// The raw flag bits.
    pub bits: i32,
}

/// The type bits of a flag word.
pub open spec fn spec_type_bits(bits: i32) -> i32 {
    bits & PM_TYPE_MASK
}

/// A flag word is well formed when its type bits name exactly one of the
/// six shapes the host distinguishes.
pub open spec fn valid_type_bits(bits: i32) -> bool {
    ||| spec_type_bits(bits) == PM_SCALAR
    ||| spec_type_bits(bits) == PM_ARRAY
    ||| spec_type_bits(bits) == PM_INTEGER
    ||| spec_type_bits(bits) == PM_EFLOAT
    ||| spec_type_bits(bits) == PM_FFLOAT
    ||| spec_type_bits(bits) == PM_HASHED
}

/// The shape named by a well-formed flag word.
pub open spec fn spec_only_type(bits: i32) -> ParamType {
    if spec_type_bits(bits) == PM_ARRAY {
        ParamType::Array
    } else if spec_type_bits(bits) == PM_INTEGER {
        ParamType::Integer
    } else if spec_type_bits(bits) == PM_EFLOAT {
        ParamType::EFloat
    } else if spec_type_bits(bits) == PM_FFLOAT {
        ParamType::FFloat
    } else if spec_type_bits(bits) == PM_HASHED {
        ParamType::Hashed
    } else {
        ParamType::Scalar
    }
}

impl ParamFlags {
    /// Wraps a raw flag word.
    pub fn from_bits(bits: i32) -> (r: ParamFlags)
        ensures
            r.bits == bits,
    {
        ParamFlags { bits }
    }

    /// The single shape named by the flag word's type bits.
    pub fn only_type(&self) -> (r: ParamType)
        requires
            valid_type_bits(self.bits),
        ensures
            r == spec_only_type(self.bits),
    {
        let masked = self.bits & PM_TYPE_MASK;
        if masked == PM_ARRAY {
            ParamType::Array
        } else if masked == PM_INTEGER {
            ParamType::Integer
        } else if masked == PM_EFLOAT {
            ParamType::EFloat
        } else if masked == PM_FFLOAT {
            ParamType::FFloat
        } else if masked == PM_HASHED {
            ParamType::Hashed
        } else {
            assert(masked == PM_SCALAR);
            ParamType::Scalar
        }
    }
}

/// The canonical flag word for a shape: exactly the one type bit set.
pub open spec fn spec_flags_for(t: ParamType) -> i32 {
    match t {
        ParamType::Scalar => PM_SCALAR,
        ParamType::Array => PM_ARRAY,
        ParamType::Integer => PM_INTEGER,
        ParamType::EFloat => PM_EFLOAT,
        ParamType::FFloat => PM_FFLOAT,
        ParamType::Hashed => PM_HASHED,
    }
}

/// The canonical flag word for a shape.
pub fn flags_for(t: ParamType) -> (r: ParamFlags)
    ensures
        r.bits == spec_flags_for(t),
        valid_type_bits(r.bits),
        spec_only_type(r.bits) == t,
{
    proof {
        lemma_type_bits_roundtrip(t);
    }
    match t {
        ParamType::Scalar => ParamFlags { bits: PM_SCALAR },
        ParamType::Array => ParamFlags { bits: PM_ARRAY },
        ParamType::Integer => ParamFlags { bits: PM_INTEGER },
        ParamType::EFloat => ParamFlags { bits: PM_EFLOAT },
        ParamType::FFloat => ParamFlags { bits: PM_FFLOAT },
        ParamType::Hashed => ParamFlags { bits: PM_HASHED },
    }
}

/// Law: a shape written as its canonical flag word and decoded again comes
/// back unchanged — setting a parameter's type and reading it back through
/// the flag decoder round-trips.
pub proof fn lemma_type_bits_roundtrip(t: ParamType)
    ensures
        valid_type_bits(spec_flags_for(t)),
        spec_only_type(spec_flags_for(t)) == t,
{
    assert(0i32 & 31 == 0 && 1i32 & 31 == 1 && 2i32 & 31 == 2 && 4i32 & 31 == 4 && 8i32 & 31 == 8
        && 16i32 & 31 == 16) by (bit_vector);
}

/// A raw parameter value as fetched by the boundary code through one of
/// the host's getter functions. Which getter is the right one is decided
/// by the flags; a float arrives as its raw bit pattern.
pub enum GsuValue {
    /// The scalar getter's result: the text's bytes.
    Scalar(Vec<u8>),
    /// The integer getter's result.
    Integer(i64),
    /// The float getter's result, as raw bits.
    Float(u64),
    /// The array getter's result.
    Array(CStrArray),
    /// No getter was called; hash tables are opaque here.
    Opaque,
}

/// Whether a raw fetch used the getter the flags call for.
pub open spec fn fetch_matches_type(raw: GsuValue, t: ParamType) -> bool {
    match t {
        ParamType::Scalar => raw is Scalar,
        ParamType::Integer => raw is Integer,
        ParamType::EFloat | ParamType::FFloat => raw is Float,
        ParamType::Array => raw is Array,
        ParamType::Hashed => raw is Opaque,
    }
}

/// The tagged value of a host parameter, as handlers consume it.
pub enum ParamValue {
    /// A text value.
    Scalar(Vec<u8>),
    /// An integer value.
    Integer(i64),
    /// A float value, carried as its raw bit pattern.
    Float(u64),
    /// An array of text values.
    Array(CStrArray),
    /// A hash table; opaque to this library.
    HashTable,
}

/// Whether a tagged value has the shape a flag decode named.
pub open spec fn value_matches_type(v: ParamValue, t: ParamType) -> bool {
    match t {
        ParamType::Scalar => v is Scalar,
        ParamType::Integer => v is Integer,
        ParamType::EFloat | ParamType::FFloat => v is Float,
        ParamType::Array => v is Array,
        ParamType::Hashed => v is HashTable,
    }
}

/// A host parameter as this library sees it: its flag word, plus the raw
/// value the boundary code fetched through the getter the flags call for.
pub struct Param {
    /// The parameter's flag word.
    pub flags: ParamFlags,
    /// The raw value fetched through the matching getter.
    pub raw: GsuValue,
}

impl Param {
    /// The flags name one shape and the raw fetch used the matching
    /// getter — the read-flags-then-read-value ordering was respected.
    pub open spec fn wf(&self) -> bool {
        &&& valid_type_bits(self.flags.bits)
        &&& fetch_matches_type(self.raw, spec_only_type(self.flags.bits))
    }

    /// Pairs a flag word with the raw value fetched for it, refusing a
    /// fetch that used the wrong getter.
    pub fn new(flags: ParamFlags, raw: GsuValue) -> (r: Option<Param>)
        requires
            valid_type_bits(flags.bits),
        ensures
            match r {
                Some(p) => p.wf() && p.flags == flags && p.raw == raw,
                None => !fetch_matches_type(raw, spec_only_type(flags.bits)),
            },
    {
        let t = flags.only_type();
        let ok = match (&raw, t) {
            (GsuValue::Scalar(_), ParamType::Scalar) => true,
            (GsuValue::Integer(_), ParamType::Integer) => true,
            (GsuValue::Float(_), ParamType::EFloat) => true,
            (GsuValue::Float(_), ParamType::FFloat) => true,
            (GsuValue::Array(_), ParamType::Array) => true,
            (GsuValue::Opaque, ParamType::Hashed) => true,
            _ => false,
        };
        if ok {
            Some(Param { flags, raw })
        } else {
            None
        }
    }

    /// The parameter's flag word.
    pub fn flags(&self) -> (r: ParamFlags)
        ensures
            r == self.flags,
    {
        self.flags
    }

    /// The shape the parameter currently has.
    pub fn type_of(&self) -> (r: ParamType)
        requires
            self.wf(),
        ensures
            r == spec_only_type(self.flags.bits),
    {
        self.flags.only_type()
    }

    /// The parameter's tagged value: reads the flags, then interprets the
    /// raw fetch accordingly. The value's shape always matches the flags.
    pub fn get_value(self) -> (r: ParamValue)
        requires
            self.wf(),
        ensures
            value_matches_type(r, spec_only_type(self.flags.bits)),
            self.raw matches GsuValue::Scalar(s) ==> r == ParamValue::Scalar(s),
            self.raw matches GsuValue::Integer(n) ==> r == ParamValue::Integer(n),
            self.raw matches GsuValue::Float(b) ==> r == ParamValue::Float(b),
            self.raw matches GsuValue::Array(a) ==> r == ParamValue::Array(a),
            self.raw is Opaque ==> r is HashTable,
    {
        match self.raw {
            GsuValue::Scalar(s) => ParamValue::Scalar(s),
            GsuValue::Integer(n) => ParamValue::Integer(n),
            GsuValue::Float(b) => ParamValue::Float(b),
            GsuValue::Array(a) => ParamValue::Array(a),
            GsuValue::Opaque => ParamValue::HashTable,
        }
    }
}

/// Law: a parameter whose flags were set for shape `t` and whose value was
/// fetched through the matching getter decodes to a tagged value of shape
/// `t` — the flag-to-variant round trip is exact.
pub proof fn lemma_param_roundtrip(p: Param)
    requires
        p.wf(),
    ensures
        value_matches_type(spec_decoded(p), spec_only_type(p.flags.bits)),
{
}

/// The tagged value `get_value` produces for a parameter.
pub open spec fn spec_decoded(p: Param) -> ParamValue {
    match p.raw {
        GsuValue::Scalar(s) => ParamValue::Scalar(s),
        GsuValue::Integer(n) => ParamValue::Integer(n),
        GsuValue::Float(b) => ParamValue::Float(b),
        GsuValue::Array(a) => ParamValue::Array(a),
        GsuValue::Opaque => ParamValue::HashTable,
    }
}

} // verus!
