use vstd::prelude::*;
use crate::error::Error;

verus! {

/// The element type of a buffer, as the plugin numbers them.
#[derive(Debug, Clone, Copy, PartialEq, Eq, Structural)]
pub enum PrimitiveType {
    /// No valid element type.
    Invalid,
    /// Truth values.
    Pred,
    S8,
    S16,
    S32,
    S64,
    U8,
    U16,
    U32,
    U64,
    F16,
    F32,
    F64,
    /// Floating point with 16 bits, truncated from 32.
    BF16,
    /// Complex numbers of two 32-bit floats.
    C64,
    /// Complex numbers of two 64-bit floats.
    C128,
    F8E5M2,
    F8E4M3FN,
    F8E4M3B11FNUZ,
    F8E5M2FNUZ,
    F8E4M3FNUZ,
    S4,
    U4,
    /// A token that orders side effects; it holds no data.
    Token,
    S2,
    U2,
}

/// The number of element types that this library knows; their tags are the
/// numbers below it.
pub const PRIMITIVE_TYPE_COUNT: u32 = 26;

/// The tag that the plugin uses for an element type.
pub open spec fn primitive_tag(ty: PrimitiveType) -> u32 {
    match ty {
        PrimitiveType::Invalid => 0,
        PrimitiveType::Pred => 1,
        PrimitiveType::S8 => 2,
        PrimitiveType::S16 => 3,
        PrimitiveType::S32 => 4,
        PrimitiveType::S64 => 5,
        PrimitiveType::U8 => 6,
        PrimitiveType::U16 => 7,
        PrimitiveType::U32 => 8,
        PrimitiveType::U64 => 9,
        PrimitiveType::F16 => 10,
        PrimitiveType::F32 => 11,
        PrimitiveType::F64 => 12,
        PrimitiveType::BF16 => 13,
        PrimitiveType::C64 => 14,
        PrimitiveType::C128 => 15,
        PrimitiveType::F8E5M2 => 16,
        PrimitiveType::F8E4M3FN => 17,
        PrimitiveType::F8E4M3B11FNUZ => 18,
        PrimitiveType::F8E5M2FNUZ => 19,
        PrimitiveType::F8E4M3FNUZ => 20,
        PrimitiveType::S4 => 21,
        PrimitiveType::U4 => 22,
        PrimitiveType::Token => 23,
        PrimitiveType::S2 => 24,
        PrimitiveType::U2 => 25,
    }
}

/// The element type that a tag stands for, if it stands for one.
pub open spec fn primitive_of_tag(tag: u32) -> Option<PrimitiveType> {
    match tag {
        0u32 => Some(PrimitiveType::Invalid),
        1u32 => Some(PrimitiveType::Pred),
        2u32 => Some(PrimitiveType::S8),
        3u32 => Some(PrimitiveType::S16),
        4u32 => Some(PrimitiveType::S32),
        5u32 => Some(PrimitiveType::S64),
        6u32 => Some(PrimitiveType::U8),
        7u32 => Some(PrimitiveType::U16),
        8u32 => Some(PrimitiveType::U32),
        9u32 => Some(PrimitiveType::U64),
        10u32 => Some(PrimitiveType::F16),
        11u32 => Some(PrimitiveType::F32),
        12u32 => Some(PrimitiveType::F64),
        13u32 => Some(PrimitiveType::BF16),
        14u32 => Some(PrimitiveType::C64),
        15u32 => Some(PrimitiveType::C128),
        16u32 => Some(PrimitiveType::F8E5M2),
        17u32 => Some(PrimitiveType::F8E4M3FN),
        18u32 => Some(PrimitiveType::F8E4M3B11FNUZ),
        19u32 => Some(PrimitiveType::F8E5M2FNUZ),
        20u32 => Some(PrimitiveType::F8E4M3FNUZ),
        21u32 => Some(PrimitiveType::S4),
        22u32 => Some(PrimitiveType::U4),
        23u32 => Some(PrimitiveType::Token),
        24u32 => Some(PrimitiveType::S2),
        25u32 => Some(PrimitiveType::U2),
        _ => None,
    }
}

impl PrimitiveType {
    /// The tag of this element type.
    pub fn tag(self) -> (t: u32)
        ensures
            t == primitive_tag(self),
            t < PRIMITIVE_TYPE_COUNT,
    {
        match self {
            PrimitiveType::Invalid => 0,
            PrimitiveType::Pred => 1,
            PrimitiveType::S8 => 2,
            PrimitiveType::S16 => 3,
            PrimitiveType::S32 => 4,
            PrimitiveType::S64 => 5,
            PrimitiveType::U8 => 6,
            PrimitiveType::U16 => 7,
            PrimitiveType::U32 => 8,
            PrimitiveType::U64 => 9,
            PrimitiveType::F16 => 10,
            PrimitiveType::F32 => 11,
            PrimitiveType::F64 => 12,
            PrimitiveType::BF16 => 13,
            PrimitiveType::C64 => 14,
            PrimitiveType::C128 => 15,
            PrimitiveType::F8E5M2 => 16,
            PrimitiveType::F8E4M3FN => 17,
            PrimitiveType::F8E4M3B11FNUZ => 18,
            PrimitiveType::F8E5M2FNUZ => 19,
            PrimitiveType::F8E4M3FNUZ => 20,
            PrimitiveType::S4 => 21,
            PrimitiveType::U4 => 22,
            PrimitiveType::Token => 23,
            PrimitiveType::S2 => 24,
            PrimitiveType::U2 => 25,
        }
    }

    /// Reads an element type from its tag. Fails on every tag that stands for
    /// no element type, and the error carries the tag.
    pub fn from_tag(tag: u32) -> (r: Result<PrimitiveType, Error>)
        ensures
            match primitive_of_tag(tag) {
                Some(ty) => r == Ok::<PrimitiveType, Error>(ty),
                None => r == Err::<PrimitiveType, Error>(Error::InvalidPrimitiveType(tag)),
            },
    {
        match tag {
            0u32 => Ok(PrimitiveType::Invalid),
            1u32 => Ok(PrimitiveType::Pred),
            2u32 => Ok(PrimitiveType::S8),
            3u32 => Ok(PrimitiveType::S16),
            4u32 => Ok(PrimitiveType::S32),
            5u32 => Ok(PrimitiveType::S64),
            6u32 => Ok(PrimitiveType::U8),
            7u32 => Ok(PrimitiveType::U16),
            8u32 => Ok(PrimitiveType::U32),
            9u32 => Ok(PrimitiveType::U64),
            10u32 => Ok(PrimitiveType::F16),
            11u32 => Ok(PrimitiveType::F32),
            12u32 => Ok(PrimitiveType::F64),
            13u32 => Ok(PrimitiveType::BF16),
            14u32 => Ok(PrimitiveType::C64),
            15u32 => Ok(PrimitiveType::C128),
            16u32 => Ok(PrimitiveType::F8E5M2),
            17u32 => Ok(PrimitiveType::F8E4M3FN),
            18u32 => Ok(PrimitiveType::F8E4M3B11FNUZ),
            19u32 => Ok(PrimitiveType::F8E5M2FNUZ),
            20u32 => Ok(PrimitiveType::F8E4M3FNUZ),
            21u32 => Ok(PrimitiveType::S4),
            22u32 => Ok(PrimitiveType::U4),
            23u32 => Ok(PrimitiveType::Token),
            24u32 => Ok(PrimitiveType::S2),
            25u32 => Ok(PrimitiveType::U2),
            _ => Err(Error::InvalidPrimitiveType(tag)),
        }
    }
}

/// The element types that a list of tags stands for, if every tag stands for one.
pub open spec fn primitives_of_tags(tags: Seq<u32>) -> Option<Seq<PrimitiveType>> {
    if forall|i: int| 0 <= i < tags.len() ==> primitive_of_tag(#[trigger] tags[i]).is_some() {
        Some(Seq::new(tags.len(), |i: int| primitive_of_tag(tags[i]).unwrap()))
    } else {
        None
    }
}

/// `at` is the position of the first tag that stands for no element type.
pub open spec fn is_first_unknown(tags: Seq<u32>, at: int) -> bool {
    &&& 0 <= at < tags.len()
    &&& primitive_of_tag(tags[at]).is_none()
    &&& forall|j: int| 0 <= j < at ==> primitive_of_tag(#[trigger] tags[j]).is_some()
}

/// Reads a list of element types from their tags, in order. Fails when a tag
/// stands for no element type, with the first such tag in the error.
pub fn decode_primitive_types(tags: &Vec<u32>) -> (r: Result<Vec<PrimitiveType>, Error>)
    ensures
        match r {
            Ok(types) => primitives_of_tags(tags@) == Some(types@),
            Err(e) => primitives_of_tags(tags@).is_none() && exists|at: int|
                is_first_unknown(tags@, at) && e == Error::InvalidPrimitiveType(tags@[at]),
        },
{
    let mut types: Vec<PrimitiveType> = Vec::with_capacity(tags.len());
    let mut i: usize = 0;
    while i < tags.len()
        invariant
            i <= tags@.len(),
            types@.len() == i,
            forall|j: int| 0 <= j < i ==> primitive_of_tag(#[trigger] tags@[j]) == Some(types@[j]),
        decreases tags.len() - i,
    {
        match PrimitiveType::from_tag(tags[i]) {
            Ok(ty) => {
                types.push(ty);
            },
            Err(e) => {
                assert(is_first_unknown(tags@, i as int));
                return Err(e);
            },
        }
        i += 1;
    }
    assert(types@ =~= Seq::new(tags@.len(), |i: int| primitive_of_tag(tags@[i]).unwrap()));
    Ok(types)
}

/// Reading the tag of an element type gives that element type back.
pub proof fn lemma_tag_round_trip(ty: PrimitiveType)
    ensures
        primitive_of_tag(primitive_tag(ty)) == Some(ty),
{
}

/// A tag stands for an element type exactly when it is below the number of
/// element types, and the element type then has that tag.
pub proof fn lemma_known_tags(tag: u32)
    ensures
        primitive_of_tag(tag).is_some() <==> tag < PRIMITIVE_TYPE_COUNT,
        primitive_of_tag(tag) matches Some(ty) ==> primitive_tag(ty) == tag,
{
}

} // verus!
