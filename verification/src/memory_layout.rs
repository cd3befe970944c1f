use vstd::prelude::*;
use vstd::slice::slice_to_vec;
use crate::error::Error;

verus! {

/// Tag that a layout record carries for a tiled layout.
pub const TILED_TAG: u32 = 0;

/// Tag that a layout record carries for a strided layout.
pub const STRIDES_TAG: u32 = 1;

/// A tiled layout: the order of the dimensions from minor to major, and the tiling,
/// whose two fields are present together or absent together in a well-formed value.
#[derive(Debug, Clone, PartialEq, Eq)]
pub struct MemoryLayoutTiled {
    pub minor_to_major: Vec<i64>,
    pub tile_dims: Option<Vec<i64>>,
    pub tile_dim_sizes: Option<Vec<usize>>,
}

/// A strided layout: the number of bytes to step per dimension.
#[derive(Debug, Clone, PartialEq, Eq)]
pub struct MemoryLayoutStrides {
    pub byte_strides: Vec<i64>,
}

/// How the elements of a buffer are arranged in memory.
#[derive(Debug, Clone, PartialEq, Eq)]
pub enum MemoryLayout {
    Tiled(MemoryLayoutTiled),
    Strides(MemoryLayoutStrides),
}

/// Which of the two layout variants a record holds.
#[derive(Debug, Copy, Clone, PartialEq, Eq, Structural)]
pub enum MemoryLayoutType {
    Tiled,
    Strides,
}

/// The mathematical content of a [`MemoryLayout`].
pub enum LayoutModel {
    Tiled { minor_to_major: Seq<i64>, tile_dims: Option<Seq<i64>>, tile_dim_sizes: Option<Seq<usize>> },
    Strides { byte_strides: Seq<i64> },
}

/// The layout record as the plugin lays it out, with every borrowed array copied
/// into an owned vector. `type_` selects the variant; the fields of the other
/// variant carry no meaning.
#[derive(Debug, Clone, PartialEq, Eq)]
pub struct RawMemoryLayout {
    pub type_: u32,
    pub minor_to_major: Vec<i64>,
    pub tile_dims: Vec<i64>,
    pub tile_dim_sizes: Vec<usize>,
    pub num_tiles: usize,
    pub byte_strides: Vec<i64>,
}

/// The mathematical content of a [`RawMemoryLayout`].
pub struct RawLayoutModel {
    pub type_: u32,
    pub minor_to_major: Seq<i64>,
    pub tile_dims: Seq<i64>,
    pub tile_dim_sizes: Seq<usize>,
    pub num_tiles: nat,
    pub byte_strides: Seq<i64>,
}

/// The view of an optional vector: the sequence it holds, if any.
pub open spec fn opt_seq<T>(o: Option<Vec<T>>) -> Option<Seq<T>> {
    match o {
        Some(v) => Some(v@),
        None => None,
    }
}

impl View for MemoryLayoutTiled {
    type V = LayoutModel;

    open spec fn view(&self) -> LayoutModel {
        LayoutModel::Tiled {
            minor_to_major: self.minor_to_major@,
            tile_dims: opt_seq(self.tile_dims),
            tile_dim_sizes: opt_seq(self.tile_dim_sizes),
        }
    }
}

impl View for MemoryLayoutStrides {
    type V = LayoutModel;

    open spec fn view(&self) -> LayoutModel {
        LayoutModel::Strides { byte_strides: self.byte_strides@ }
    }
}

impl View for MemoryLayout {
    type V = LayoutModel;

    open spec fn view(&self) -> LayoutModel {
        match self {
            MemoryLayout::Tiled(t) => t@,
            MemoryLayout::Strides(s) => s@,
        }
    }
}

impl View for RawMemoryLayout {
    type V = RawLayoutModel;

    open spec fn view(&self) -> RawLayoutModel {
        RawLayoutModel {
            type_: self.type_,
            minor_to_major: self.minor_to_major@,
            tile_dims: self.tile_dims@,
            tile_dim_sizes: self.tile_dim_sizes@,
            num_tiles: self.num_tiles as nat,
            byte_strides: self.byte_strides@,
        }
    }
}

impl LayoutModel {
    /// A layout is well formed when the two tiling fields are both present or both absent.
    pub open spec fn wf(self) -> bool {
        match self {
            LayoutModel::Tiled { tile_dims, tile_dim_sizes, .. } => tile_dims.is_some()
                == tile_dim_sizes.is_some(),
            LayoutModel::Strides { .. } => true,
        }
    }

    /// The variant of the layout.
    pub open spec fn layout_type(self) -> MemoryLayoutType {
        match self {
            LayoutModel::Tiled { .. } => MemoryLayoutType::Tiled,
            LayoutModel::Strides { .. } => MemoryLayoutType::Strides,
        }
    }
}

/// The variant that a tag stands for, if it stands for one.
pub open spec fn type_of_tag(tag: u32) -> Option<MemoryLayoutType> {
    if tag == TILED_TAG {
        Some(MemoryLayoutType::Tiled)
    } else if tag == STRIDES_TAG {
        Some(MemoryLayoutType::Strides)
    } else {
        None
    }
}

/// The tag that stands for a variant.
pub open spec fn tag_of_type(ty: MemoryLayoutType) -> u32 {
    match ty {
        MemoryLayoutType::Tiled => TILED_TAG,
        MemoryLayoutType::Strides => STRIDES_TAG,
    }
}

/// What a layout record decodes to. A record without tiles decodes to a tiled
/// layout with both tiling fields absent; an unknown tag is an error that names the tag.
pub open spec fn decode_layout(raw: RawLayoutModel) -> Result<LayoutModel, Error> {
    match type_of_tag(raw.type_) {
        None => Err(Error::InvalidMemoryLayoutType(raw.type_)),
        Some(MemoryLayoutType::Tiled) => if raw.num_tiles == 0 {
            Ok(
                LayoutModel::Tiled {
                    minor_to_major: raw.minor_to_major,
                    tile_dims: None,
                    tile_dim_sizes: None,
                },
            )
        } else {
            Ok(
                LayoutModel::Tiled {
                    minor_to_major: raw.minor_to_major,
                    tile_dims: Some(raw.tile_dims),
                    tile_dim_sizes: Some(raw.tile_dim_sizes),
                },
            )
        },
        Some(MemoryLayoutType::Strides) => Ok(
            LayoutModel::Strides { byte_strides: raw.byte_strides },
        ),
    }
}

/// The record that a well-formed layout encodes to. Fields that the variant does
/// not use are empty; the number of tiles is the length of the tile dimensions.
pub open spec fn encode_layout(layout: LayoutModel) -> RawLayoutModel {
    match layout {
        LayoutModel::Tiled { minor_to_major, tile_dims, tile_dim_sizes } => RawLayoutModel {
            type_: TILED_TAG,
            minor_to_major,
            tile_dims: match tile_dims {
                Some(d) => d,
                None => Seq::empty(),
            },
            tile_dim_sizes: match tile_dim_sizes {
                Some(s) => s,
                None => Seq::empty(),
            },
            num_tiles: match tile_dims {
                Some(d) => d.len(),
                None => 0,
            },
            byte_strides: Seq::empty(),
        },
        LayoutModel::Strides { byte_strides } => RawLayoutModel {
            type_: STRIDES_TAG,
            minor_to_major: Seq::empty(),
            tile_dims: Seq::empty(),
            tile_dim_sizes: Seq::empty(),
            num_tiles: 0,
            byte_strides,
        },
    }
}

impl MemoryLayoutType {
    /// Reads a variant from its tag. Fails on every tag but the two known ones,
    /// and the error carries the tag.
    pub fn from_tag(value: u32) -> (r: Result<MemoryLayoutType, Error>)
        ensures
            match type_of_tag(value) {
                Some(ty) => r == Ok::<MemoryLayoutType, Error>(ty),
                None => r == Err::<MemoryLayoutType, Error>(Error::InvalidMemoryLayoutType(value)),
            },
    {
        if value == TILED_TAG {
            Ok(MemoryLayoutType::Tiled)
        } else if value == STRIDES_TAG {
            Ok(MemoryLayoutType::Strides)
        } else {
            Err(Error::InvalidMemoryLayoutType(value))
        }
    }

    /// The tag of a variant.
    pub fn tag(self) -> (t: u32)
        ensures
            t == tag_of_type(self),
            type_of_tag(t) == Some(self),
    {
        match self {
            MemoryLayoutType::Tiled => TILED_TAG,
            MemoryLayoutType::Strides => STRIDES_TAG,
        }
    }
}

impl MemoryLayout {
    /// A tiled layout of the three parts given, kept as they are.
    pub fn from_tiled(
        minor_to_major: Vec<i64>,
        tile_dims: Option<Vec<i64>>,
        tile_dim_sizes: Option<Vec<usize>>,
    ) -> (layout: MemoryLayout)
        ensures
            layout@ == (LayoutModel::Tiled {
                minor_to_major: minor_to_major@,
                tile_dims: opt_seq(tile_dims),
                tile_dim_sizes: opt_seq(tile_dim_sizes),
            }),
    {
        MemoryLayout::Tiled(MemoryLayoutTiled { minor_to_major, tile_dims, tile_dim_sizes })
    }

    /// A strided layout with the byte strides given.
    pub fn from_strides(byte_strides: Vec<i64>) -> (layout: MemoryLayout)
        ensures
            layout@ == (LayoutModel::Strides { byte_strides: byte_strides@ }),
            layout@.wf(),
    {
        MemoryLayout::Strides(MemoryLayoutStrides { byte_strides })
    }

    /// The variant of this layout.
    pub fn layout_type(&self) -> (ty: MemoryLayoutType)
        ensures
            ty == self@.layout_type(),
    {
        match self {
            MemoryLayout::Tiled(_) => MemoryLayoutType::Tiled,
            MemoryLayout::Strides(_) => MemoryLayoutType::Strides,
        }
    }

    /// Whether the two tiling fields are present together or absent together.
    pub fn is_well_formed(&self) -> (b: bool)
        ensures
            b == self@.wf(),
    {
        match self {
            MemoryLayout::Tiled(t) => t.tile_dims.is_some() == t.tile_dim_sizes.is_some(),
            MemoryLayout::Strides(_) => true,
        }
    }

    /// Decodes a layout record into an owned layout. Succeeds exactly when the
    /// record's tag is known, and the layout that comes out is well formed.
    pub fn from_raw(raw: &RawMemoryLayout) -> (r: Result<MemoryLayout, Error>)
        ensures
            match r {
                Ok(layout) => decode_layout(raw@) == Ok::<LayoutModel, Error>(layout@)
                    && layout@.wf(),
                Err(e) => decode_layout(raw@) == Err::<LayoutModel, Error>(e),
            },
    {
        let layout_ty = match MemoryLayoutType::from_tag(raw.type_) {
            Ok(ty) => ty,
            Err(e) => {
                return Err(e);
            },
        };
        match layout_ty {
            MemoryLayoutType::Tiled => {
                let minor_to_major = slice_to_vec(raw.minor_to_major.as_slice());
                if raw.num_tiles == 0 {
                    Ok(
                        MemoryLayout::Tiled(
                            MemoryLayoutTiled {
                                minor_to_major,
                                tile_dims: None,
                                tile_dim_sizes: None,
                            },
                        ),
                    )
                } else {
                    let tile_dims = slice_to_vec(raw.tile_dims.as_slice());
                    let tile_dim_sizes = slice_to_vec(raw.tile_dim_sizes.as_slice());
                    Ok(
                        MemoryLayout::Tiled(
                            MemoryLayoutTiled {
                                minor_to_major,
                                tile_dims: Some(tile_dims),
                                tile_dim_sizes: Some(tile_dim_sizes),
                            },
                        ),
                    )
                }
            },
            MemoryLayoutType::Strides => {
                let byte_strides = slice_to_vec(raw.byte_strides.as_slice());
                Ok(MemoryLayout::Strides(MemoryLayoutStrides { byte_strides }))
            },
        }
    }

    /// Encodes the layout as a record for the plugin. A tiled layout with exactly
    /// one of its two tiling fields present is refused; every other layout is encoded.
    pub fn to_raw(&self) -> (r: Result<RawMemoryLayout, Error>)
        ensures
            self@.wf() ==> r.is_ok() && r.unwrap()@ == encode_layout(self@),
            !self@.wf() ==> r == Err::<RawMemoryLayout, Error>(Error::PartialTiling),
    {
        match self {
            MemoryLayout::Tiled(t) => t.to_raw(),
            MemoryLayout::Strides(s) => Ok(s.to_raw()),
        }
    }
}

impl MemoryLayoutTiled {
    /// Encodes a tiled layout; refused when exactly one tiling field is present.
    pub fn to_raw(&self) -> (r: Result<RawMemoryLayout, Error>)
        ensures
            self@.wf() ==> r.is_ok() && r.unwrap()@ == encode_layout(self@),
            !self@.wf() ==> r == Err::<RawMemoryLayout, Error>(Error::PartialTiling),
    {
        let minor_to_major = slice_to_vec(self.minor_to_major.as_slice());
        match (&self.tile_dims, &self.tile_dim_sizes) {
            (Some(dims), Some(sizes)) => {
                let tile_dims = slice_to_vec(dims.as_slice());
                let tile_dim_sizes = slice_to_vec(sizes.as_slice());
                let num_tiles: usize = dims.len();
                Ok(
                    RawMemoryLayout {
                        type_: TILED_TAG,
                        minor_to_major,
                        tile_dims,
                        tile_dim_sizes,
                        num_tiles,
                        byte_strides: Vec::new(),
                    },
                )
            },
            (None, None) => Ok(
                RawMemoryLayout {
                    type_: TILED_TAG,
                    minor_to_major,
                    tile_dims: Vec::new(),
                    tile_dim_sizes: Vec::new(),
                    num_tiles: 0,
                    byte_strides: Vec::new(),
                },
            ),
            _ => Err(Error::PartialTiling),
        }
    }
}

impl MemoryLayoutStrides {
    /// Encodes a strided layout.
    pub fn to_raw(&self) -> (raw: RawMemoryLayout)
        ensures
            raw@ == encode_layout(self@),
    {
        RawMemoryLayout {
            type_: STRIDES_TAG,
            minor_to_major: Vec::new(),
            tile_dims: Vec::new(),
            tile_dim_sizes: Vec::new(),
            num_tiles: 0,
            byte_strides: slice_to_vec(self.byte_strides.as_slice()),
        }
    }
}

/// Decoding what was encoded gives the layout back, for every well-formed layout
/// whose tile dimensions, if present, are not empty.
pub proof fn lemma_decode_encode(layout: LayoutModel)
    requires
        layout.wf(),
        layout matches LayoutModel::Tiled { tile_dims: Some(d), .. } ==> d.len() > 0,
    ensures
        decode_layout(encode_layout(layout)) == Ok::<LayoutModel, Error>(layout),
{
}

/// Encoding never produces an unknown tag: the record of a layout decodes to a
/// layout of the same variant with the same dimension order or strides.
pub proof fn lemma_encode_keeps_variant(layout: LayoutModel)
    requires
        layout.wf(),
    ensures
        type_of_tag(encode_layout(layout).type_) == Some(layout.layout_type()),
        decode_layout(encode_layout(layout)).is_ok(),
        decode_layout(encode_layout(layout)).unwrap().layout_type() == layout.layout_type(),
        decode_layout(encode_layout(layout)).unwrap().wf(),
{
}

/// Whatever a record holds, what it decodes to is well formed and of the
/// variant that its tag names.
pub proof fn lemma_decode_well_formed(raw: RawLayoutModel)
    ensures
        decode_layout(raw).is_ok() <==> type_of_tag(raw.type_).is_some(),
        decode_layout(raw) matches Ok(layout) ==> layout.wf() && Some(layout.layout_type())
            == type_of_tag(raw.type_),
{
}

/// The record handed to the plugin holds the layout: its tag is that of the
/// layout's variant, and its lists have the lengths and the elements of the
/// layout's own, for a tiled layout with tiling, a tiled layout without, and
/// a strided layout alike.
pub proof fn lemma_record_holds_layout(layout: LayoutModel)
    requires
        layout.wf(),
    ensures
        encode_layout(layout).type_ == tag_of_type(layout.layout_type()),
        layout matches LayoutModel::Tiled { minor_to_major, tile_dims: Some(dims), tile_dim_sizes: Some(sizes) }
            ==> {
            &&& encode_layout(layout).minor_to_major == minor_to_major
            &&& encode_layout(layout).tile_dims == dims
            &&& encode_layout(layout).tile_dim_sizes == sizes
            &&& encode_layout(layout).num_tiles == dims.len()
        },
        layout matches LayoutModel::Tiled { minor_to_major, tile_dims: None, tile_dim_sizes: None }
            ==> {
            &&& encode_layout(layout).minor_to_major == minor_to_major
            &&& encode_layout(layout).tile_dims.len() == 0
            &&& encode_layout(layout).tile_dim_sizes.len() == 0
            &&& encode_layout(layout).num_tiles == 0
        },
        layout matches LayoutModel::Strides { byte_strides } ==> encode_layout(layout).byte_strides
            == byte_strides,
{
}

/// The layout with an empty tiling taken for an absent one; every other
/// layout as it is.
pub open spec fn without_empty_tiling(layout: LayoutModel) -> LayoutModel {
    match layout {
        LayoutModel::Tiled { minor_to_major, tile_dims: Some(dims), .. } if dims.len() == 0 => {
            LayoutModel::Tiled { minor_to_major, tile_dims: None, tile_dim_sizes: None }
        },
        _ => layout,
    }
}

/// Decoding what was encoded succeeds for every well-formed layout and gives
/// the layout back, but for a tiling without tile dimensions, which comes
/// back absent.
pub proof fn lemma_decode_encode_all(layout: LayoutModel)
    requires
        layout.wf(),
    ensures
        decode_layout(encode_layout(layout)) == Ok::<LayoutModel, Error>(
            without_empty_tiling(layout),
        ),
{
}

} // verus!
