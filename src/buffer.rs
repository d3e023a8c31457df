use vstd::prelude::*;
use crate::error::GpuError;
use crate::tokens::{map_mode_of, parse_map_mode, MapAccess};

verus! {

/// Where a buffer stands in mapping.
#[derive(Clone, Copy, Debug, PartialEq, Eq, Structural)]
pub enum MapState {
    Unmapped,
    Pending,
    Mapped,
}

impl MapState {
    /// The state's name: `unmapped`, `pending` or `mapped`.
    pub fn as_str(&self) -> (s: &'static str)
        ensures
            s@ == match *self {
                MapState::Unmapped => "unmapped"@,
                MapState::Pending => "pending"@,
                MapState::Mapped => "mapped"@,
            },
    {
        match self {
            MapState::Unmapped => "unmapped",
            MapState::Pending => "pending",
            MapState::Mapped => "mapped",
        }
    }
}

/// Whether two byte ranges, each an offset and a size, share a byte
/// position in the sense that one starts before the other ends.
pub open spec fn ranges_overlap(a: (u64, u64), b: (u64, u64)) -> bool {
    a.0 < b.0 + b.1 && a.0 + a.1 > b.0
}

/// A buffer's mapping state as a mathematical value.
pub struct BufferView {
    pub size: u64,
    pub usage: u32,
    pub map_state: MapState,
    pub active_ranges: Seq<(u64, u64)>,
}

impl BufferView {
    /// Every range handed out lies inside the buffer, and no two overlap.
    pub open spec fn wf(self) -> bool {
        &&& forall|i: int| 0 <= i < self.active_ranges.len() ==> #[trigger] self.active_ranges[i].0 + self.active_ranges[i].1 <= self.size
        &&& forall|i: int, j: int|
            0 <= i < self.active_ranges.len() && 0 <= j < self.active_ranges.len() && i != j
                ==> !ranges_overlap(#[trigger] self.active_ranges[i], #[trigger] self.active_ranges[j])
    }
}

/// The mapping state of a GPU buffer, and the ranges of it handed out.
#[derive(Debug)]
pub struct GpuBuffer {
    pub(crate) size: u64,
    pub(crate) usage: u32,
    pub(crate) map_state: MapState,
    pub(crate) active_ranges: Vec<(u64, u64)>,
}

impl View for GpuBuffer {
    type V = BufferView;

    closed spec fn view(&self) -> BufferView {
        BufferView { size: self.size, usage: self.usage, map_state: self.map_state, active_ranges: self.active_ranges@ }
    }
}

/// The range `get_mapped_range` hands out, or why it refuses. The offset
/// defaults to 0 and the size to the rest of the buffer.
pub open spec fn mapped_range_outcome(b: BufferView, offset: Option<u32>, size: Option<u32>) -> Result<(u64, u64), GpuError> {
    let off = match offset {
        Some(o) => o as u64,
        None => 0u64,
    };
    if b.map_state != MapState::Mapped {
        Err(GpuError::NotMapped)
    } else if size.is_none() && off > b.size {
        Err(GpuError::OutOfBounds)
    } else {
        let sz = match size {
            Some(s) => s as u64,
            None => (b.size - off) as u64,
        };
        if off % 8 != 0 {
            Err(GpuError::MisalignedOffset)
        } else if sz % 4 != 0 {
            Err(GpuError::MisalignedSize)
        } else if off + sz > b.size {
            Err(GpuError::OutOfBounds)
        } else if exists|j: int| 0 <= j < b.active_ranges.len() && ranges_overlap((off, sz), #[trigger] b.active_ranges[j]) {
            Err(GpuError::OverlappingRange)
        } else {
            Ok((off, sz))
        }
    }
}

/// What unmapping has to do with data written into the mapped copy.
#[derive(Debug)]
pub enum UnmapPlan {
    /// Unmap; nothing to write.
    Plain,
    /// Unmap, then write the data at offset 0 through the queue and wait.
    QueueWrite { data: Vec<u8> },
    /// Write the data at offset 0 into the mapped memory, then unmap.
    MappedWrite { data: Vec<u8> },
}

/// Bit of the copy-destination usage.
pub const COPY_DST: u32 = 0x8;

impl GpuBuffer {
    /// A buffer of `size` bytes that starts unmapped, or mapped when
    /// `mapped_at_creation` holds.
    pub fn new(size: u64, usage: u32, mapped_at_creation: bool) -> (b: GpuBuffer)
        ensures
            b@ == (BufferView {
                size,
                usage,
                map_state: if mapped_at_creation {
                    MapState::Mapped
                } else {
                    MapState::Unmapped
                },
                active_ranges: Seq::empty(),
            }),
            b@.wf(),
    {
        let state = if mapped_at_creation {
            MapState::Mapped
        } else {
            MapState::Unmapped
        };
        let b = GpuBuffer { size, usage, map_state: state, active_ranges: Vec::new() };
        assert(b@.active_ranges =~= Seq::empty());
        b
    }

    /// The size in bytes, cut to 32 bits.
    pub fn size(&self) -> (r: u32)
        ensures
            r == self@.size as u32,
    {
        self.size as u32
    }

    pub fn usage(&self) -> (r: u32)
        ensures
            r == self@.usage,
    {
        self.usage
    }

    pub fn map_state(&self) -> (r: MapState)
        ensures
            r == self@.map_state,
    {
        self.map_state
    }

    /// Starts mapping: the buffer becomes pending, then the mode is read
    /// (`READ` or `WRITE`); any other mode is refused and leaves it pending.
    pub fn begin_map(&mut self, mode: &str) -> (r: Result<MapAccess, GpuError>)
        requires
            old(self)@.wf(),
        ensures
            final(self)@ == (BufferView { map_state: MapState::Pending, ..old(self)@ }),
            final(self)@.wf(),
            r == match map_mode_of(mode@) {
                Some(m) => Ok(m),
                None => Err(GpuError::InvalidMapMode),
            },
    {
        self.map_state = MapState::Pending;
        match parse_map_mode(mode) {
            Some(m) => Ok(m),
            None => Err(GpuError::InvalidMapMode),
        }
    }

    /// Takes the device's answer to a map request: the buffer is mapped when
    /// it succeeded, unmapped and `MapFailed` reported when it did not.
    pub fn complete_map(&mut self, succeeded: bool) -> (r: Result<(), GpuError>)
        requires
            old(self)@.wf(),
        ensures
            final(self)@ == (BufferView {
                map_state: if succeeded {
                    MapState::Mapped
                } else {
                    MapState::Unmapped
                },
                ..old(self)@
            }),
            final(self)@.wf(),
            r == if succeeded {
                Ok::<(), GpuError>(())
            } else {
                Err(GpuError::MapFailed)
            },
    {
        if succeeded {
            self.map_state = MapState::Mapped;
            Ok(())
        } else {
            self.map_state = MapState::Unmapped;
            Err(GpuError::MapFailed)
        }
    }

    /// Hands out a range of the mapped buffer, as an offset and a size. The
    /// buffer must be mapped, the offset a multiple of 8, the size a
    /// multiple of 4, the range inside the buffer and apart from every range
    /// handed out since the buffer was last unmapped.
    pub fn get_mapped_range(&mut self, offset: Option<u32>, size: Option<u32>) -> (r: Result<(u64, u64), GpuError>)
        requires
            old(self)@.wf(),
        ensures
            r == mapped_range_outcome(old(self)@, offset, size),
            final(self)@.wf(),
            match r {
                Ok(range) => final(self)@ == (BufferView {
                    active_ranges: old(self)@.active_ranges.push(range),
                    ..old(self)@
                }),
                Err(_) => final(self)@ == old(self)@,
            },
    {
        let off: u64 = match offset {
            Some(o) => o as u64,
            None => 0,
        };
        if self.map_state != MapState::Mapped {
            return Err(GpuError::NotMapped);
        }
        if size.is_none() && off > self.size {
            return Err(GpuError::OutOfBounds);
        }
        let sz: u64 = match size {
            Some(s) => s as u64,
            None => self.size - off,
        };
        if off % 8 != 0 {
            return Err(GpuError::MisalignedOffset);
        }
        if sz % 4 != 0 {
            return Err(GpuError::MisalignedSize);
        }
        if off > self.size || sz > self.size - off {
            return Err(GpuError::OutOfBounds);
        }
        let mut i: usize = 0;
        while i < self.active_ranges.len()
            invariant
                self@.wf(),
                self@ == old(self)@,
                i <= self.active_ranges@.len(),
                off + sz <= self.size,
                self.map_state == MapState::Mapped,
                !(size.is_none() && off > self.size),
                off % 8 == 0,
                sz % 4 == 0,
                off == match offset {
                    Some(o) => o as u64,
                    None => 0u64,
                },
                sz == match size {
                    Some(s) => s as u64,
                    None => (self.size - off) as u64,
                },
                forall|j: int| 0 <= j < i ==> !ranges_overlap((off, sz), #[trigger] self.active_ranges@[j]),
            decreases self.active_ranges@.len() - i,
        {
            let (a_off, a_size) = self.active_ranges[i];
            assert(self@.active_ranges[i as int].0 + self@.active_ranges[i as int].1 <= self@.size);
            if off < a_off + a_size && off + sz > a_off {
                assert(ranges_overlap((off, sz), old(self)@.active_ranges[i as int]));
                assert(exists|j: int|
                    0 <= j < old(self)@.active_ranges.len() && ranges_overlap((off, sz), #[trigger] old(self)@.active_ranges[j]));
                return Err(GpuError::OverlappingRange);
            }
            i = i + 1;
        }
        self.active_ranges.push((off, sz));
        Ok((off, sz))
    }

    /// Unmaps the buffer: every range handed out is given back. Data written
    /// into the mapped copy goes back through the queue when the buffer may
    /// be a copy destination, and into the mapped memory otherwise, there
    /// only when it fits.
    pub fn unmap(&mut self, modified: Option<Vec<u8>>) -> (plan: UnmapPlan)
        requires
            old(self)@.wf(),
        ensures
            final(self)@ == (BufferView { map_state: MapState::Unmapped, active_ranges: Seq::empty(), ..old(self)@ }),
            final(self)@.wf(),
            match modified {
                None => plan is Plain,
                Some(data) => if old(self)@.usage & COPY_DST != 0 {
                    plan == (UnmapPlan::QueueWrite { data })
                } else if data@.len() <= old(self)@.size {
                    plan == (UnmapPlan::MappedWrite { data })
                } else {
                    plan is Plain
                },
            },
    {
        let plan = match modified {
            None => UnmapPlan::Plain,
            Some(data) => if self.usage & COPY_DST != 0 {
                UnmapPlan::QueueWrite { data }
            } else if data.len() as u64 <= self.size {
                UnmapPlan::MappedWrite { data }
            } else {
                UnmapPlan::Plain
            },
        };
        self.active_ranges = Vec::new();
        self.map_state = MapState::Unmapped;
        assert(self@.active_ranges =~= Seq::empty());
        plan
    }
}

} // verus!
