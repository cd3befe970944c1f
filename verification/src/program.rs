use vstd::prelude::*;
use vstd::slice::slice_to_vec;
use crate::error::Error;

verus! {

/// The serialization format of a program.
#[derive(Debug, Clone, Copy, PartialEq, Eq, Structural)]
pub enum ProgramFormat {
    /// An MLIR module, as bytecode or as text.
    MLIR,
    /// A serialized HLO module.
    HLO,
}

/// The name by which the plugin knows a format, as bytes: `mlir` or `hlo`.
pub open spec fn format_name(format: ProgramFormat) -> Seq<u8> {
    match format {
        ProgramFormat::MLIR => seq![109u8, 108u8, 105u8, 114u8],
        ProgramFormat::HLO => seq![104u8, 108u8, 111u8],
    }
}

/// The format that a name stands for, if it stands for one.
pub open spec fn format_of_name(name: Seq<u8>) -> Option<ProgramFormat> {
    if name == format_name(ProgramFormat::MLIR) {
        Some(ProgramFormat::MLIR)
    } else if name == format_name(ProgramFormat::HLO) {
        Some(ProgramFormat::HLO)
    } else {
        None
    }
}

impl ProgramFormat {
    /// The name of this format, to hand to the plugin.
    pub fn name(self) -> (bytes: Vec<u8>)
        ensures
            bytes@ == format_name(self),
    {
        let mut bytes: Vec<u8> = Vec::new();
        match self {
            ProgramFormat::MLIR => {
                bytes.push(109);
                bytes.push(108);
                bytes.push(105);
                bytes.push(114);
            },
            ProgramFormat::HLO => {
                bytes.push(104);
                bytes.push(108);
                bytes.push(111);
            },
        }
        assert(bytes@ =~= format_name(self));
        bytes
    }

    /// Reads a format from the name that the plugin reported. Fails on every
    /// name but those of the known formats, and the error carries the name.
    pub fn from_name(name: &[u8]) -> (r: Result<ProgramFormat, Error>)
        ensures
            match format_of_name(name@) {
                Some(format) => r == Ok::<ProgramFormat, Error>(format),
                None => r matches Err(Error::InvalidProgramFormat(bytes)) && bytes@ == name@,
            },
    {
        if name.len() == 4 && name[0] == 109 && name[1] == 108 && name[2] == 105 && name[3]
            == 114 {
            assert(name@ =~= format_name(ProgramFormat::MLIR));
            Ok(ProgramFormat::MLIR)
        } else if name.len() == 3 && name[0] == 104 && name[1] == 108 && name[2] == 111 {
            assert(name@ =~= format_name(ProgramFormat::HLO));
            Ok(ProgramFormat::HLO)
        } else {
            let bytes = slice_to_vec(name);
            Err(Error::InvalidProgramFormat(bytes))
        }
    }
}

/// A program to compile: its format, and its code as opaque bytes.
#[derive(Debug, Clone, PartialEq, Eq)]
pub struct Program {
    format: ProgramFormat,
    code: Vec<u8>,
}

impl Program {
    /// The format of the program.
    pub closed spec fn spec_format(self) -> ProgramFormat {
        self.format
    }

    /// The bytes of the program.
    pub closed spec fn spec_code(self) -> Seq<u8> {
        self.code@
    }

    /// A program of the format and the code given.
    pub fn new(format: ProgramFormat, code: Vec<u8>) -> (program: Program)
        ensures
            program.spec_format() == format,
            program.spec_code() == code@,
    {
        Program { format, code }
    }

    /// The format of the program.
    pub fn format(&self) -> (format: ProgramFormat)
        ensures
            format == self.spec_format(),
    {
        self.format
    }

    /// The bytes of the program.
    pub fn code(&self) -> (code: &Vec<u8>)
        ensures
            code@ == self.spec_code(),
    {
        &self.code
    }
}

/// Storage for the code of an optimized program: as many zero bytes as the
/// plugin said the code takes, for the plugin to fill in a second call.
pub fn code_buffer(code_size: usize) -> (code: Vec<u8>)
    ensures
        code@ == Seq::new(code_size as nat, |i: int| 0u8),
{
    let mut code: Vec<u8> = Vec::with_capacity(code_size);
    let mut i: usize = 0;
    while i < code_size
        invariant
            i <= code_size,
            code@.len() == i,
            forall|j: int| 0 <= j < i ==> code@[j] == 0,
        decreases code_size - i,
    {
        code.push(0);
        i += 1;
    }
    assert(code@ =~= Seq::new(code_size as nat, |i: int| 0u8));
    code
}

/// The program that the plugin handed back: the format that its name stands
/// for, with the code as filled in. Fails exactly when the name stands for no
/// known format.
pub fn optimized_program(format_name: &[u8], code: Vec<u8>) -> (r: Result<Program, Error>)
    ensures
        match format_of_name(format_name@) {
            Some(format) => r.is_ok() && r.unwrap().spec_format() == format
                && r.unwrap().spec_code() == code@,
            None => r matches Err(Error::InvalidProgramFormat(bytes)) && bytes@ == format_name@,
        },
{
    match ProgramFormat::from_name(format_name) {
        Ok(format) => Ok(Program::new(format, code)),
        Err(e) => Err(e),
    }
}

/// The format tag survives the trip to the plugin and back: reading the name
/// of a format gives that format.
pub proof fn lemma_format_round_trip(format: ProgramFormat)
    ensures
        format_of_name(format_name(format)) == Some(format),
{
    assert(format_name(ProgramFormat::HLO).len() == 3);
    assert(format_name(ProgramFormat::MLIR).len() == 4);
}

/// A name stands for at most one format, and that format has the name.
pub proof fn lemma_format_name_unique(name: Seq<u8>)
    ensures
        format_of_name(name) matches Some(format) ==> format_name(format) == name,
{
}

} // verus!
