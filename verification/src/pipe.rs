//! The fixed catalog of logical USB endpoints and their per-pipe metadata.
//!
//! A device exposes exactly eight bulk pipes: four input pipes with IDs
//! 0x82..=0x85 and four output pipes with IDs 0x02..=0x05. Direction is a
//! pure function of the numeric ID's 0x80 bit and is fixed at compile time;
//! it is never queried from the device.

use vstd::prelude::*;

verus! {

/// One of the eight fixed logical endpoints of a device.
#[derive(Debug, Clone, Copy, PartialEq, Eq, Structural)]
pub enum Pipe {
    /// Input pipe 0 (ID 0x82).
    In0,
    /// Input pipe 1 (ID 0x83).
    In1,
    /// Input pipe 2 (ID 0x84).
    In2,
    /// Input pipe 3 (ID 0x85).
    In3,
    /// Output pipe 0 (ID 0x02).
    Out0,
    /// Output pipe 1 (ID 0x03).
    Out1,
    /// Output pipe 2 (ID 0x04).
    Out2,
    /// Output pipe 3 (ID 0x05).
    Out3,
}

/// True of the eight numeric IDs that denote a pipe.
pub open spec fn valid_pipe_id(id: u8) -> bool {
    0x82 <= id <= 0x85 || 0x02 <= id <= 0x05
}

impl Pipe {
    /// The numeric endpoint ID of this pipe on the native ABI.
    pub open spec fn spec_id(self) -> u8 {
        match self {
            Pipe::In0 => 0x82,
            Pipe::In1 => 0x83,
            Pipe::In2 => 0x84,
            Pipe::In3 => 0x85,
            Pipe::Out0 => 0x02,
            Pipe::Out1 => 0x03,
            Pipe::Out2 => 0x04,
            Pipe::Out3 => 0x05,
        }
    }

    /// True of the four input pipes, on which the host reads.
    pub open spec fn spec_is_read(self) -> bool {
        match self {
            Pipe::In0 | Pipe::In1 | Pipe::In2 | Pipe::In3 => true,
            Pipe::Out0 | Pipe::Out1 | Pipe::Out2 | Pipe::Out3 => false,
        }
    }

    /// True of the four output pipes, on which the host writes.
    pub open spec fn spec_is_write(self) -> bool {
        match self {
            Pipe::In0 | Pipe::In1 | Pipe::In2 | Pipe::In3 => false,
            Pipe::Out0 | Pipe::Out1 | Pipe::Out2 | Pipe::Out3 => true,
        }
    }

    /// The numeric endpoint ID of this pipe.
    pub fn id(&self) -> (r: u8)
        ensures
            r == self.spec_id(),
            valid_pipe_id(r),
    {
        match self {
            Pipe::In0 => 0x82,
            Pipe::In1 => 0x83,
            Pipe::In2 => 0x84,
            Pipe::In3 => 0x85,
            Pipe::Out0 => 0x02,
            Pipe::Out1 => 0x03,
            Pipe::Out2 => 0x04,
            Pipe::Out3 => 0x05,
        }
    }

    /// Check if the pipe is a read (input) pipe.
    pub fn is_read_pipe(&self) -> (r: bool)
        ensures
            r == self.spec_is_read(),
    {
        match self {
            Pipe::In0 | Pipe::In1 | Pipe::In2 | Pipe::In3 => true,
            Pipe::Out0 | Pipe::Out1 | Pipe::Out2 | Pipe::Out3 => false,
        }
    }

    /// Check if the pipe is a write (output) pipe.
    pub fn is_write_pipe(&self) -> (r: bool)
        ensures
            r == self.spec_is_write(),
    {
        match self {
            Pipe::In0 | Pipe::In1 | Pipe::In2 | Pipe::In3 => false,
            Pipe::Out0 | Pipe::Out1 | Pipe::Out2 | Pipe::Out3 => true,
        }
    }

    /// The pipe denoted by a numeric endpoint ID.
    ///
    /// An ID outside the fixed catalog is a native-ABI contract violation;
    /// it is excluded here so that a caller holding an unchecked byte must
    /// test [`valid_pipe_id`] first and fail loudly on a violation.
    pub fn from_id(id: u8) -> (p: Pipe)
        requires
            valid_pipe_id(id),
        ensures
            p.spec_id() == id,
    {
        match id {
            0x82 => Pipe::In0,
            0x83 => Pipe::In1,
            0x84 => Pipe::In2,
            0x85 => Pipe::In3,
            0x02 => Pipe::Out0,
            0x03 => Pipe::Out1,
            0x04 => Pipe::Out2,
            _ => Pipe::Out3,
        }
    }

    /// A short description of this pipe: its name and numeric ID.
    pub fn describe(&self) -> (r: String)
        ensures
            r@ == self.spec_describe(),
    {
        let s: &str = match self {
            Pipe::In0 => "In0 (130)",
            Pipe::In1 => "In1 (131)",
            Pipe::In2 => "In2 (132)",
            Pipe::In3 => "In3 (133)",
            Pipe::Out0 => "Out0 (2)",
            Pipe::Out1 => "Out1 (3)",
            Pipe::Out2 => "Out2 (4)",
            Pipe::Out3 => "Out3 (5)",
        };
        s.to_owned()
    }

    /// The description returned by [`Pipe::describe`].
    pub open spec fn spec_describe(self) -> Seq<char> {
        match self {
            Pipe::In0 => "In0 (130)"@,
            Pipe::In1 => "In1 (131)"@,
            Pipe::In2 => "In2 (132)"@,
            Pipe::In3 => "In3 (133)"@,
            Pipe::Out0 => "Out0 (2)"@,
            Pipe::Out1 => "Out1 (3)"@,
            Pipe::Out2 => "Out2 (4)"@,
            Pipe::Out3 => "Out3 (5)"@,
        }
    }
}

/// Exactly one of `is_read_pipe` and `is_write_pipe` holds of each pipe,
/// and which one is determined solely by the 0x80 bit of the numeric ID:
/// set for input pipes, clear for output pipes.
pub proof fn lemma_pipe_direction_partition(p: Pipe)
    ensures
        p.spec_is_read() != p.spec_is_write(),
        p.spec_is_read() <==> p.spec_id() & 0x80 == 0x80,
        p.spec_is_write() <==> p.spec_id() & 0x80 == 0,
{
    let id = p.spec_id();
    assert(0x82u8 & 0x80 == 0x80 && 0x83u8 & 0x80 == 0x80 && 0x84u8 & 0x80 == 0x80
        && 0x85u8 & 0x80 == 0x80 && 0x02u8 & 0x80 == 0 && 0x03u8 & 0x80 == 0
        && 0x04u8 & 0x80 == 0 && 0x05u8 & 0x80 == 0) by (bit_vector);
}

/// The USB transfer type of a pipe, as the native layer encodes it in the
/// codes 0..=3.
#[derive(Debug, Clone, Copy, PartialEq, Eq, Structural)]
pub enum PipeType {
    /// USB control pipe (code 0).
    Control,
    /// USB isochronous pipe (code 1).
    Isochronous,
    /// USB bulk pipe (code 2).
    Bulk,
    /// USB interrupt pipe (code 3).
    Interrupt,
}

impl PipeType {
    /// The numeric code of this pipe type on the native ABI.
    pub open spec fn spec_code(self) -> u8 {
        match self {
            PipeType::Control => 0,
            PipeType::Isochronous => 1,
            PipeType::Bulk => 2,
            PipeType::Interrupt => 3,
        }
    }

    /// The pipe type denoted by a numeric code.
    ///
    /// A code above 3 is a native-ABI contract violation and is excluded
    /// here; a caller holding an unchecked byte tests the range first and
    /// fails loudly on a violation.
    pub fn from_code(code: u8) -> (t: PipeType)
        requires
            code <= 3,
        ensures
            t.spec_code() == code,
    {
        match code {
            0 => PipeType::Control,
            1 => PipeType::Isochronous,
            2 => PipeType::Bulk,
            _ => PipeType::Interrupt,
        }
    }
}

/// Per-pipe metadata decoded from the native pipe-information record.
///
/// Well-formedness pins the raw type and ID codes to the spaces the native
/// ABI documents; the constructor demands it, so a holder of a `PipeInfo`
/// may decode without re-checking.
#[derive(Debug, Clone, Copy, PartialEq, Eq, Structural)]
pub struct PipeInfo {
    pipe_type_code: u8,
    pipe_id: u8,
    maximum_packet_size: u16,
    interval: u8,
}

impl PipeInfo {
    /// The raw transfer-type code of this record.
    pub closed spec fn spec_type_code(self) -> u8 {
        self.pipe_type_code
    }

    /// The raw endpoint ID of this record.
    pub closed spec fn spec_pipe_id(self) -> u8 {
        self.pipe_id
    }

    /// The maximum packet size of this record.
    pub closed spec fn spec_maximum_packet_size(self) -> u16 {
        self.maximum_packet_size
    }

    /// The polling interval of this record.
    pub closed spec fn spec_interval(self) -> u8 {
        self.interval
    }

    /// Both raw codes lie in the spaces the native ABI documents.
    pub open spec fn wf(self) -> bool {
        self.spec_type_code() <= 3 && valid_pipe_id(self.spec_pipe_id())
    }

    /// Build a record from the raw fields of the native pipe-information
    /// struct. Codes outside the documented spaces are native-ABI contract
    /// violations and are excluded.
    pub fn new(pipe_type_code: u8, pipe_id: u8, maximum_packet_size: u16, interval: u8) -> (r:
        PipeInfo)
        requires
            pipe_type_code <= 3,
            valid_pipe_id(pipe_id),
        ensures
            r.wf(),
            r.spec_type_code() == pipe_type_code,
            r.spec_pipe_id() == pipe_id,
            r.spec_maximum_packet_size() == maximum_packet_size,
            r.spec_interval() == interval,
    {
        PipeInfo { pipe_type_code, pipe_id, maximum_packet_size, interval }
    }

    /// The type of the pipe.
    pub fn type_(&self) -> (t: PipeType)
        requires
            self.wf(),
        ensures
            t.spec_code() == self.spec_type_code(),
    {
        PipeType::from_code(self.pipe_type_code)
    }

    /// The pipe itself.
    pub fn pipe(&self) -> (p: Pipe)
        requires
            self.wf(),
        ensures
            p.spec_id() == self.spec_pipe_id(),
    {
        Pipe::from_id(self.pipe_id)
    }

    /// The maximum transfer size for this pipe.
    pub fn maximum_packet_size(&self) -> (r: usize)
        ensures
            r == self.spec_maximum_packet_size(),
    {
        self.maximum_packet_size as usize
    }

    /// The polling interval; meaningful for interrupt pipes only.
    pub fn interval(&self) -> (r: u8)
        ensures
            r == self.spec_interval(),
    {
        self.interval
    }
}

} // verus!
