//! The result of selecting a range of a memory-mapped commit-log file: a
//! window given by a start offset and a size over the file's bytes, with
//! the residency bookkeeping the store needs.

use vstd::prelude::*;

verus! {

/// The slice of a memory-mapped file this core reads: the mapped bytes,
/// the file's global start offset, and whether the mapping is resident in
/// memory.
pub struct DefaultMappedFile {
    /// Offset of the file's first byte within the whole commit log.
    pub file_from_offset: u64,
    /// The mapped bytes of the file.
    pub data: Vec<u8>,
    /// Whether the mapped region is resident in memory.
    pub loaded: bool,
}

impl DefaultMappedFile {
    /// Whether `size` bytes starting at file-relative `pos` are resident.
    pub open spec fn is_loaded_spec(self, pos: u64, size: usize) -> bool {
        self.loaded && pos + size <= self.data@.len()
    }

    /// Offset of the file's first byte within the whole commit log.
    pub fn get_file_from_offset(&self) -> (offset: u64)
        ensures
            offset == self.file_from_offset,
    {
        self.file_from_offset
    }

    /// Whether `size` bytes starting at file-relative `pos` are resident:
    /// the range lies within the mapping and the mapping is in memory.
    pub fn is_loaded(&self, pos: u64, size: usize) -> (resident: bool)
        ensures
            resident == self.is_loaded_spec(pos, size),
    {
        if !self.loaded {
            false
        } else {
            let len = self.data.len() as u64;
            pos <= len && size as u64 <= len - pos
        }
    }
}

/// The result of selecting a mapped buffer: a window of `size` bytes at
/// `start_offset` within the mapped file.
pub struct SelectMappedBufferResult {
    /// The start offset of the window, within the whole commit log.
    pub start_offset: u64,
    /// The size of the window in bytes.
    pub size: i32,
    /// The mapped file the window lies in, when one is attached.
    pub mapped_file: Option<DefaultMappedFile>,
    /// Whether the buffer was served from cache.
    pub is_in_cache: bool,
}

impl SelectMappedBufferResult {
    /// Whether the selected window is resident in memory; a result with no
    /// mapped file attached counts as in-memory.
    pub open spec fn is_in_mem_spec(self) -> bool {
        match self.mapped_file {
            None => true,
            Some(file) => file.is_loaded_spec(
                (self.start_offset - file.file_from_offset) as u64,
                self.size as usize,
            ),
        }
    }

    /// The selected window of the mapped file's bytes.
    pub fn get_buffer(&self) -> (buffer: Vec<u8>)
        requires
            self.mapped_file is Some,
            self.size >= 0,
            self.start_offset + self.size <= self.mapped_file->Some_0.data@.len(),
        ensures
            buffer@ == self.mapped_file->Some_0.data@.subrange(
                self.start_offset as int,
                self.start_offset + self.size,
            ),
    {
        let mut buffer: Vec<u8> = Vec::new();
        match &self.mapped_file {
            Some(file) => {
                let data_len = file.data.len();
                proof {
                    assert(self.mapped_file->Some_0 == *file);
                    assert(self.start_offset + self.size <= data_len);
                }
                let start = self.start_offset as usize;
                let end = start + (self.size as usize);
                let mut j = start;
                while j < end
                    invariant
                        start <= j <= end,
                        end <= file.data@.len(),
                        *file == self.mapped_file->Some_0,
                        start == self.start_offset,
                        end == self.start_offset + self.size,
                        buffer@ == file.data@.subrange(start as int, j as int),
                    decreases end - j,
                {
                    proof {
                        assert(file.data@.subrange(start as int, j + 1) =~= file.data@.subrange(
                            start as int,
                            j as int,
                        ).push(file.data@[j as int]));
                    }
                    buffer.push(file.data[j]);
                    j = j + 1;
                }
            },
            None => (),
        }
        buffer
    }

    /// Whether the selected window is resident in memory.
    pub fn is_in_mem(&self) -> (resident: bool)
        requires
            self.size >= 0,
            (self.mapped_file matches Some(file) ==> file.file_from_offset <= self.start_offset),
        ensures
            resident == self.is_in_mem_spec(),
    {
        match &self.mapped_file {
            None => true,
            Some(file) => {
                let pos = self.start_offset - file.get_file_from_offset();
                file.is_loaded(pos, self.size as usize)
            },
        }
    }
}

} // verus!
