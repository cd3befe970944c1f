use vstd::prelude::*;
use crate::error::Error;
use crate::primitive_type::{decode_primitive_types, is_first_unknown, primitives_of_tags, PrimitiveType};

verus! {

/// How much memory a compiled program takes, in bytes, on the device and on the host.
#[derive(Debug, Clone, Copy, PartialEq, Eq, Structural)]
pub struct CompiledMemoryStats {
    pub generated_code_size_in_bytes: i64,
    pub argument_size_in_bytes: i64,
    pub output_size_in_bytes: i64,
    pub alias_size_in_bytes: i64,
    pub temp_size_in_bytes: i64,
    pub host_generated_code_size_in_bytes: i64,
    pub host_argument_size_in_bytes: i64,
    pub host_output_size_in_bytes: i64,
    pub host_alias_size_in_bytes: i64,
    pub host_temp_size_in_bytes: i64,
}

impl CompiledMemoryStats {
    /// The statistics that the plugin reported: first the five sizes on the
    /// device, then the five on the host, each in the order generated code,
    /// arguments, outputs, aliases, temporaries.
    pub fn from(device: [i64; 5], host: [i64; 5]) -> (stats: CompiledMemoryStats)
        ensures
            stats == (CompiledMemoryStats {
                generated_code_size_in_bytes: device@[0],
                argument_size_in_bytes: device@[1],
                output_size_in_bytes: device@[2],
                alias_size_in_bytes: device@[3],
                temp_size_in_bytes: device@[4],
                host_generated_code_size_in_bytes: host@[0],
                host_argument_size_in_bytes: host@[1],
                host_output_size_in_bytes: host@[2],
                host_alias_size_in_bytes: host@[3],
                host_temp_size_in_bytes: host@[4],
            }),
    {
        CompiledMemoryStats {
            generated_code_size_in_bytes: device[0],
            argument_size_in_bytes: device[1],
            output_size_in_bytes: device[2],
            alias_size_in_bytes: device[3],
            temp_size_in_bytes: device[4],
            host_generated_code_size_in_bytes: host[0],
            host_argument_size_in_bytes: host[1],
            host_output_size_in_bytes: host[2],
            host_alias_size_in_bytes: host[3],
            host_temp_size_in_bytes: host[4],
        }
    }
}

/// The sum of a list of sizes.
pub open spec fn sum_sizes(sizes: Seq<usize>) -> nat
    decreases sizes.len(),
{
    if sizes.len() == 0 {
        0
    } else {
        sum_sizes(sizes.drop_last()) + sizes.last() as nat
    }
}

/// Where the dimensions of output `i` start in the flat list of all
/// dimensions: after the dimensions of the outputs before it.
pub open spec fn shape_offset(dim_sizes: Seq<usize>, i: int) -> nat {
    sum_sizes(dim_sizes.subrange(0, i))
}

/// The dimensions of output `i`, cut out of the flat list of all dimensions.
pub open spec fn shape_at(dims: Seq<i64>, dim_sizes: Seq<usize>, i: int) -> Seq<i64> {
    dims.subrange(
        shape_offset(dim_sizes, i) as int,
        shape_offset(dim_sizes, i) + dim_sizes[i] as int,
    )
}

/// The sizes up to and including position `i` sum to no more than all sizes do.
pub proof fn lemma_prefix_sum(sizes: Seq<usize>, i: int)
    requires
        0 <= i < sizes.len(),
    ensures
        sum_sizes(sizes.subrange(0, i)) + sizes[i] == sum_sizes(sizes.subrange(0, i + 1)),
        sum_sizes(sizes.subrange(0, i + 1)) <= sum_sizes(sizes),
    decreases sizes.len(),
{
    assert(sizes.subrange(0, i + 1).drop_last() == sizes.subrange(0, i));
    if i + 1 == sizes.len() {
        assert(sizes.subrange(0, i + 1) == sizes);
    } else {
        lemma_prefix_sum(sizes.drop_last(), i);
        assert(sizes.drop_last().subrange(0, i + 1) == sizes.subrange(0, i + 1));
    }
}

/// A compiled program, known by its handle. The handle is never null.
#[derive(Debug)]
pub struct Executable {
    ptr: usize,
}

impl Executable {
    #[verifier::type_invariant]
    spec fn non_null(self) -> bool {
        self.ptr != 0
    }

    /// The handle that this executable owns.
    pub closed spec fn handle(self) -> usize {
        self.ptr
    }

    /// Takes ownership of a handle that the plugin returned.
    pub fn new(ptr: usize) -> (executable: Executable)
        requires
            ptr != 0,
        ensures
            executable.handle() == ptr,
    {
        Executable { ptr }
    }

    /// The handle, to pass back to the plugin.
    pub fn ptr(&self) -> (p: usize)
        ensures
            p == self.handle(),
            p != 0,
    {
        proof {
            use_type_invariant(self);
        }
        self.ptr
    }

    /// How many dimensions the plugin reported in all, given how many each
    /// output has; nothing if that number does not fit the machine word.
    pub fn num_output_dimensions(dim_sizes: &Vec<usize>) -> (r: Option<usize>)
        ensures
            match r {
                Some(n) => n == sum_sizes(dim_sizes@),
                None => sum_sizes(dim_sizes@) > usize::MAX,
            },
    {
        let mut total: usize = 0;
        let mut i: usize = 0;
        while i < dim_sizes.len()
            invariant
                i <= dim_sizes@.len(),
                total == sum_sizes(dim_sizes@.subrange(0, i as int)),
            decreases dim_sizes.len() - i,
        {
            proof {
                lemma_prefix_sum(dim_sizes@, i as int);
            }
            match total.checked_add(dim_sizes[i]) {
                Some(t) => {
                    total = t;
                },
                None => {
                    return None;
                },
            }
            i += 1;
        }
        assert(dim_sizes@.subrange(0, dim_sizes@.len() as int) == dim_sizes@);
        Some(total)
    }

    /// The shape of every output. The plugin reports the dimensions of all
    /// outputs in one flat list, and for each output how many of them are its
    /// own; output `i` gets the next `dim_sizes[i]` dimensions after those of
    /// the outputs before it.
    pub fn output_dimenssions(dims: &Vec<i64>, dim_sizes: &Vec<usize>) -> (out: Vec<Vec<i64>>)
        requires
            sum_sizes(dim_sizes@) == dims@.len(),
        ensures
            out@.len() == dim_sizes@.len(),
            forall|i: int|
                0 <= i < dim_sizes@.len() ==> (#[trigger] out@[i])@ == shape_at(
                    dims@,
                    dim_sizes@,
                    i,
                ),
    {
        let mut out: Vec<Vec<i64>> = Vec::with_capacity(dim_sizes.len());
        let total: usize = dims.len();
        let mut offset: usize = 0;
        let mut i: usize = 0;
        while i < dim_sizes.len()
            invariant
                i <= dim_sizes@.len(),
                sum_sizes(dim_sizes@) == dims@.len(),
                offset == shape_offset(dim_sizes@, i as int),
                total == dims@.len(),
                offset <= total,
                out@.len() == i,
                forall|j: int|
                    0 <= j < i ==> (#[trigger] out@[j])@ == shape_at(dims@, dim_sizes@, j),
            decreases dim_sizes.len() - i,
        {
            proof {
                lemma_prefix_sum(dim_sizes@, i as int);
            }
            let size: usize = dim_sizes[i];
            let mut shape: Vec<i64> = Vec::with_capacity(size);
            let mut k: usize = 0;
            while k < size
                invariant
                    k <= size,
                    total == dims@.len(),
                    offset + size <= total,
                    shape@ == dims@.subrange(offset as int, offset + k),
                decreases size - k,
            {
                shape.push(dims[offset + k]);
                k += 1;
            }
            out.push(shape);
            offset = offset + size;
            i += 1;
        }
        out
    }

    /// The element type of every output, read from the tags that the plugin
    /// reported. Fails when a tag stands for no element type, with the first
    /// such tag in the error.
    pub fn output_primitive_types(tags: &Vec<u32>) -> (r: Result<Vec<PrimitiveType>, Error>)
        ensures
            match r {
                Ok(types) => primitives_of_tags(tags@) == Some(types@),
                Err(e) => primitives_of_tags(tags@).is_none() && exists|at: int|
                    is_first_unknown(tags@, at) && e == Error::InvalidPrimitiveType(tags@[at]),
            },
    {
        decode_primitive_types(tags)
    }
}

/// The shapes of the outputs, one after the other, are the flat list that the
/// plugin reported: nothing is lost and nothing is read twice.
pub proof fn lemma_shapes_cover(dims: Seq<i64>, dim_sizes: Seq<usize>, n: int)
    requires
        sum_sizes(dim_sizes) == dims.len(),
        0 <= n <= dim_sizes.len(),
    ensures
        shape_offset(dim_sizes, n) <= dims.len(),
        concat_shapes(dims, dim_sizes, n) == dims.subrange(0, shape_offset(dim_sizes, n) as int),
    decreases n,
{
    if n == 0 {
        assert(dim_sizes.subrange(0, 0).len() == 0);
        assert(concat_shapes(dims, dim_sizes, 0) =~= dims.subrange(0, 0));
    } else {
        lemma_shapes_cover(dims, dim_sizes, n - 1);
        lemma_prefix_sum(dim_sizes, n - 1);
        assert(concat_shapes(dims, dim_sizes, n) =~= dims.subrange(
            0,
            shape_offset(dim_sizes, n) as int,
        ));
    }
}

/// The shapes of the first `n` outputs, one after the other.
pub open spec fn concat_shapes(dims: Seq<i64>, dim_sizes: Seq<usize>, n: int) -> Seq<i64>
    decreases n,
{
    if n <= 0 {
        Seq::empty()
    } else {
        concat_shapes(dims, dim_sizes, n - 1) + shape_at(dims, dim_sizes, n - 1)
    }
}

} // verus!
