//! Device buffers as the renderer sees them: a usage tag and the 32-bit
//! words the buffer was created with.

use vstd::prelude::*;

verus! {

/// What a buffer may be bound as.
#[derive(Clone, Copy, Debug, PartialEq, Eq)]
pub struct BufferUsage {
    /// Source of per-vertex or per-instance attributes.
    pub vertex: bool,
    /// Source of indices.
    pub index: bool,
    /// Destination of buffer-to-buffer copies.
    pub copy_dst: bool,
}

impl BufferUsage {
    /// Vertex-input usage only.
    pub open spec fn vertex_input() -> BufferUsage {
        BufferUsage { vertex: true, index: false, copy_dst: false }
    }

    /// Index-input usage only.
    pub open spec fn index_input() -> BufferUsage {
        BufferUsage { vertex: false, index: true, copy_dst: false }
    }

    /// Vertex-input usage that can also receive copies.
    pub open spec fn vertex_input_copy_dst() -> BufferUsage {
        BufferUsage { vertex: true, index: false, copy_dst: true }
    }
}

/// Mathematical content of a [`DeviceBuffer`].
#[verifier::ext_equal]
pub struct DeviceBufferView {
    pub usage: BufferUsage,
    pub words: Seq<u32>,
}

impl DeviceBufferView {
    /// Size of the buffer in bytes.
    pub open spec fn size_bytes(self) -> nat {
        4 * self.words.len()
    }
}

/// A device-resident memory region. Its contents are fixed when it is
/// created; new data means a new buffer.
#[derive(Debug)]
pub struct DeviceBuffer {
    usage: BufferUsage,
    words: Vec<u32>,
}

impl View for DeviceBuffer {
    type V = DeviceBufferView;

    closed spec fn view(&self) -> DeviceBufferView {
        DeviceBufferView { usage: self.usage, words: self.words@ }
    }
}

impl DeviceBuffer {
    /// Creates a buffer that holds a copy of `data`.
    pub fn with_data(usage: BufferUsage, data: &[u32]) -> (buffer: DeviceBuffer)
        ensures
            buffer@ == (DeviceBufferView { usage, words: data@ }),
    {
        let mut words: Vec<u32> = Vec::new();
        let mut i: usize = 0;
        while i < data.len()
            invariant
                i <= data.len(),
                words@ == data@.take(i as int),
            decreases data.len() - i,
        {
            words.push(data[i]);
            proof {
                assert(words@ =~= data@.take(i as int + 1));
            }
            i += 1;
        }
        proof {
            assert(data@.take(data.len() as int) =~= data@);
        }
        DeviceBuffer { usage, words }
    }

    /// Creates a buffer that takes over `words`.
    pub fn from_words(usage: BufferUsage, words: Vec<u32>) -> (buffer: DeviceBuffer)
        ensures
            buffer@ == (DeviceBufferView { usage, words: words@ }),
    {
        DeviceBuffer { usage, words }
    }

    /// The usage the buffer was created with.
    pub fn usage(&self) -> (usage: BufferUsage)
        ensures
            usage == self@.usage,
    {
        self.usage
    }

    /// The words the buffer holds.
    pub fn words(&self) -> (words: &Vec<u32>)
        ensures
            words@ == self@.words,
    {
        &self.words
    }
}

} // verus!
