//! Provides types used to manage input and output streams used by commands.
//!
//! The simplest approach to creating a command is to use the standard console
//! streams directly, but doing so becomes an issue when testing needs to
//! verify how the streams are used. This module provides a [`Stream`] that can
//! stand in for those streams while also supporting in-memory buffers, and a
//! [`Streams`] collection that guards one stream per role behind its own lock.

use vstd::prelude::*;

verus! {

/// Declares `std::io::Error`, the error type of the standard console streams,
/// so that stream operations can return it. The type is opaque to the library.
#[verifier::external_type_specification]
#[verifier::external_body]
pub struct ExIoError(std::io::Error);

/// Declares `std::io::Stderr`, the handle to the process error console, so
/// that a stream can hold it. The handle is opaque to the library.
#[verifier::external_type_specification]
#[verifier::external_body]
pub struct ExStderr(std::io::Stderr);

/// Declares `std::io::Stdin`, the handle to the process input console, so
/// that a stream can hold it. The handle is opaque to the library.
#[verifier::external_type_specification]
#[verifier::external_body]
pub struct ExStdin(std::io::Stdin);

/// Declares `std::io::Stdout`, the handle to the process output console, so
/// that a stream can hold it. The handle is opaque to the library.
#[verifier::external_type_specification]
#[verifier::external_body]
pub struct ExStdout(std::io::Stdout);

/// Relies on `std::io::Write::write` for `Stderr`: on success, the returned
/// count of bytes written is at most the length of the given buffer.
#[verifier::external_body]
fn stderr_write(handle: &mut std::io::Stderr, buffer: &[u8]) -> (r: Result<usize, std::io::Error>)
    ensures
        r matches Ok(count) ==> count <= buffer@.len(),
{
    std::io::Write::write(handle, buffer)
}

/// Relies on `std::io::Write::write` for `Stdout`: on success, the returned
/// count of bytes written is at most the length of the given buffer.
#[verifier::external_body]
fn stdout_write(handle: &mut std::io::Stdout, buffer: &[u8]) -> (r: Result<usize, std::io::Error>)
    ensures
        r matches Ok(count) ==> count <= buffer@.len(),
{
    std::io::Write::write(handle, buffer)
}

/// Relies on `std::io::Write::flush` for `Stderr`.
#[verifier::external_body]
fn stderr_flush(handle: &mut std::io::Stderr) -> Result<(), std::io::Error> {
    std::io::Write::flush(handle)
}

/// Relies on `std::io::Write::flush` for `Stdout`.
#[verifier::external_body]
fn stdout_flush(handle: &mut std::io::Stdout) -> Result<(), std::io::Error> {
    std::io::Write::flush(handle)
}

/// Relies on `std::io::Read::read_to_end` for `Stdin`: on success, the bytes
/// read are appended to the buffer and the returned count is how many were
/// appended; on failure, bytes already read may have been appended too.
#[verifier::external_body]
fn stdin_read_to_end(handle: &mut std::io::Stdin, buffer: &mut Vec<u8>) -> (r: Result<
    usize,
    std::io::Error,
>)
    ensures
        r matches Ok(count) ==> final(buffer)@.len() == old(buffer)@.len() + count,
        final(buffer)@.len() >= old(buffer)@.len(),
        final(buffer)@.subrange(0, old(buffer)@.len() as int) == old(buffer)@,
{
    std::io::Read::read_to_end(handle, buffer)
}

/// Relies on `std::io::Read::read` for `Stdin`: reads at most `count` bytes,
/// appends the bytes read to the buffer, and on success returns how many
/// were appended.
#[verifier::external_body]
fn stdin_read_some(handle: &mut std::io::Stdin, buffer: &mut Vec<u8>, count: usize) -> (r: Result<
    usize,
    std::io::Error,
>)
    ensures
        r matches Ok(got) ==> got <= count,
        r matches Ok(got) ==> final(buffer)@.len() == old(buffer)@.len() + got,
        final(buffer)@.len() >= old(buffer)@.len(),
        final(buffer)@.subrange(0, old(buffer)@.len() as int) == old(buffer)@,
{
    let mut chunk = vec![0u8; count];
    let got = std::io::Read::read(handle, &mut chunk)?;
    buffer.extend_from_slice(&chunk[..got]);
    Ok(got)
}

/// An in-memory, seekable, growable byte buffer backing a stream.
#[derive(Debug)]
struct Buffer {
    /// The bytes held by the buffer.
    data: Vec<u8>,

    /// The current read/write position.
    position: usize,
}

/// The bytes of a memory-backed stream after writing `data` at `position`:
/// the buffer is zero-padded up to the position where the position lies past
/// the end, the written region is overwritten, and the buffer grows where the
/// write runs past the end.
pub open spec fn mem_written(buffer: Seq<u8>, position: int, data: Seq<u8>) -> Seq<u8> {
    Seq::new(
        (if buffer.len() >= position + data.len() {
            buffer.len() as int
        } else {
            position + data.len()
        }) as nat,
        |i: int|
            if position <= i < position + data.len() {
                data[i - position]
            } else if i < buffer.len() {
                buffer[i]
            } else {
                0u8
            },
    )
}

/// The bytes remaining from `position` to the end of a memory-backed stream.
pub open spec fn mem_remaining(buffer: Seq<u8>, position: int) -> Seq<u8> {
    if position < buffer.len() {
        buffer.skip(position)
    } else {
        Seq::empty()
    }
}

/// The read/write position of a memory-backed stream after draining it to the
/// end: the position never moves backwards.
pub open spec fn mem_drained_position(buffer: Seq<u8>, position: int) -> int {
    if position < buffer.len() {
        buffer.len() as int
    } else {
        position
    }
}

/// Where a seek is measured from: the start of the stream, the end of the
/// stream, or the current position.
#[derive(Clone, Copy, Debug)]
pub enum SeekFrom {
    /// An offset forward from the start of the stream.
    Start(u64),
    /// A signed offset from the end of the stream.
    End(i64),
    /// A signed offset from the current position.
    Current(i64),
}

/// The position a seek resolves to, measured from the start of the stream:
/// negative where the seek would move before the start, which is an error.
pub open spec fn seek_target(whence: SeekFrom, length: int, current: int) -> int {
    match whence {
        SeekFrom::Start(offset) => offset as int,
        SeekFrom::End(delta) => length + delta as int,
        SeekFrom::Current(delta) => current + delta as int,
    }
}

/// The number of bytes a partial read takes: the requested count, capped by
/// how many are available.
pub open spec fn capped(count: int, available: int) -> int {
    if count <= available {
        count
    } else {
        available
    }
}

/// The read/write position of a stream is never negative.
pub proof fn lemma_position_nonnegative(stream: Stream)
    ensures
        0 <= stream.spec_position(),
{
}

/// Law: writing bytes to an empty memory-backed stream, seeking back to the
/// start, then draining the stream to the end reproduces exactly the bytes
/// written. Draining into a string decodes those same bytes as UTF-8, per
/// the drain contracts.
pub proof fn lemma_memory_round_trip(data: Seq<u8>)
    ensures
        mem_remaining(mem_written(Seq::<u8>::empty(), 0, data), 0) == data,
{
    assert(mem_remaining(mem_written(Seq::<u8>::empty(), 0, data), 0) =~= data);
}

/// The position `delta` away from `base`, or nothing where the result would
/// lie before the start of the stream.
fn offset_position(base: usize, delta: i64) -> (r: Option<usize>)
    requires
        base + delta <= usize::MAX,
    ensures
        r matches Some(position) ==> position == base + delta,
        r is None <==> base + delta < 0,
{
    if delta >= 0 {
        let step = delta as u64;
        Some(base + step as usize)
    } else {
        let magnitude = (-(delta as i128)) as u64;
        if magnitude > base as u64 {
            None
        } else {
            Some(base - magnitude as usize)
        }
    }
}

/// The backing kinds a stream can have.
pub enum Backing {
    /// An in-memory buffer, for reading, writing and seeking.
    Memory,
    /// The process error console, for writing.
    ErrorConsole,
    /// The process input console, for reading.
    InputConsole,
    /// The process output console, for writing.
    OutputConsole,
}

/// The backing streams that are supported.
#[derive(Debug)]
enum StreamKind {
    /// Uses an in-memory buffer for reading, writing and seeking.
    Memory(Buffer),
    /// Uses the process error console, for writing.
    Stderr(std::io::Stderr),
    /// Uses the process input console, for reading.
    Stdin(std::io::Stdin),
    /// Uses the process output console, for writing.
    Stdout(std::io::Stdout),
}

/// A stream replacement that supports reading and writing.
///
/// The type is designed to be used in place of the standard console streams.
/// The benefit becomes apparent when testing the contents of the stream: an
/// in-memory buffer can be both written to and read back as needed. Which
/// operations a stream supports depends on its backing kind; invoking an
/// unsupported operation is a usage error that halts the process.
#[derive(Debug)]
pub struct Stream {
    /// The backing stream.
    inner: StreamKind,
}

impl Stream {
    /// The kind of backing behind the stream.
    pub closed spec fn backing(self) -> Backing {
        match self.inner {
            StreamKind::Memory(_) => Backing::Memory,
            StreamKind::Stderr(_) => Backing::ErrorConsole,
            StreamKind::Stdin(_) => Backing::InputConsole,
            StreamKind::Stdout(_) => Backing::OutputConsole,
        }
    }

    /// Whether the stream is backed by an in-memory buffer.
    pub open spec fn is_memory(self) -> bool {
        self.backing() is Memory
    }

    /// The bytes held by a memory-backed stream.
    pub closed spec fn spec_buffer(self) -> Seq<u8> {
        match self.inner {
            StreamKind::Memory(buffer) => buffer.data@,
            _ => Seq::empty(),
        }
    }

    /// The read/write position of a memory-backed stream.
    pub closed spec fn spec_position(self) -> int {
        match self.inner {
            StreamKind::Memory(buffer) => buffer.position as int,
            _ => 0,
        }
    }

    /// Whether the stream's backing kind supports reading.
    pub open spec fn readable(self) -> bool {
        self.backing() is Memory || self.backing() is InputConsole
    }

    /// Whether the stream's backing kind supports writing.
    pub open spec fn writable(self) -> bool {
        self.backing() is Memory || self.backing() is ErrorConsole || self.backing()
            is OutputConsole
    }

    /// Writes the given bytes to the stream at its current position.
    ///
    /// For a memory-backed stream the whole buffer is always written: the
    /// bytes overwrite the region at the current position, growing the stream
    /// where the write runs past the end, and the position advances by the
    /// number of bytes written.
    pub fn write(&mut self, buffer: &[u8]) -> (r: Result<usize, std::io::Error>)
        requires
            old(self).writable(),
            old(self).is_memory() ==> old(self).spec_position() + buffer@.len() <= usize::MAX,
        ensures
            final(self).backing() == old(self).backing(),
            old(self).is_memory() ==> (r matches Ok(count) && count == buffer@.len()),
            old(self).is_memory() ==> final(self).spec_buffer() == mem_written(
                old(self).spec_buffer(),
                old(self).spec_position(),
                buffer@,
            ),
            old(self).is_memory() ==> final(self).spec_position() == old(self).spec_position()
                + buffer@.len(),
            0 <= final(self).spec_position(),
            r matches Ok(count) ==> count <= buffer@.len(),
    {
        match &mut self.inner {
            StreamKind::Memory(memory) => {
                let ghost target = mem_written(memory.data@, memory.position as int, buffer@);
                let position = memory.position;
                let end = position + buffer.len();
                let length = memory.data.len();
                let total = if length >= end {
                    length
                } else {
                    end
                };
                let mut data: Vec<u8> = Vec::new();
                let mut i: usize = 0;
                while i < total
                    invariant
                        0 <= i <= total,
                        data@.len() == i,
                        end == position + buffer@.len() <= total <= usize::MAX,
                        length == memory.data@.len(),
                        total == (if length >= end {
                            length as int
                        } else {
                            end as int
                        }),
                        target == mem_written(memory.data@, position as int, buffer@),
                        forall|j: int| 0 <= j < i ==> data@[j] == target[j],
                    decreases total - i,
                {
                    if position <= i && i < end {
                        data.push(buffer[i - position]);
                    } else if i < length {
                        data.push(memory.data[i]);
                    } else {
                        data.push(0u8);
                    }
                    i += 1;
                }
                proof {
                    assert(data@ =~= target);
                }
                memory.data = data;
                memory.position = end;
                Ok(buffer.len())
            },
            StreamKind::Stderr(handle) => stderr_write(handle, buffer),
            StreamKind::Stdout(handle) => stdout_write(handle, buffer),
            StreamKind::Stdin(_) => vstd::pervasive::unreached(),
        }
    }

    /// Moves the read/write position of a memory-backed stream to the given
    /// position. Seeking past the end is allowed, and a later write zero-pads
    /// the gap; a seek that resolves to a position before the start of the
    /// stream fails and leaves the stream unchanged.
    pub fn seek(&mut self, position: SeekFrom) -> (r: Result<u64, std::io::Error>)
        requires
            old(self).is_memory(),
            seek_target(position, old(self).spec_buffer().len() as int, old(self).spec_position())
                <= usize::MAX,
        ensures
            final(self).backing() == old(self).backing(),
            final(self).spec_buffer() == old(self).spec_buffer(),
            0 <= final(self).spec_position(),
            ({
                let target = seek_target(
                    position,
                    old(self).spec_buffer().len() as int,
                    old(self).spec_position(),
                );
                &&& 0 <= target ==> (r matches Ok(reached) && reached == target
                    && final(self).spec_position() == target)
                &&& target < 0 ==> (r is Err
                    && final(self).spec_position() == old(self).spec_position())
            }),
    {
        match &mut self.inner {
            StreamKind::Memory(memory) => {
                let resolved: Option<usize> = match position {
                    SeekFrom::Start(offset) => Some(offset as usize),
                    SeekFrom::End(delta) => offset_position(memory.data.len(), delta),
                    SeekFrom::Current(delta) => offset_position(memory.position, delta),
                };
                match resolved {
                    Some(target) => {
                        memory.position = target;
                        Ok(target as u64)
                    },
                    None => Err(negative_seek_error()),
                }
            },
            _ => vstd::pervasive::unreached(),
        }
    }

    /// Flushes the stream. A memory-backed stream has nothing to flush.
    pub fn flush(&mut self) -> (r: Result<(), std::io::Error>)
        requires
            old(self).writable(),
        ensures
            final(self).backing() == old(self).backing(),
            0 <= final(self).spec_position(),
            old(self).is_memory() ==> r is Ok && *final(self) == *old(self),
    {
        match &mut self.inner {
            StreamKind::Memory(_) => Ok(()),
            StreamKind::Stderr(handle) => stderr_flush(handle),
            StreamKind::Stdout(handle) => stdout_flush(handle),
            StreamKind::Stdin(_) => vstd::pervasive::unreached(),
        }
    }

    /// Reads up to `count` bytes from the stream at its current position,
    /// appending the bytes read to `buffer` and returning how many were
    /// appended.
    ///
    /// A memory-backed stream hands out the bytes from its position to the
    /// end, at most `count` of them, and advances its position past them.
    pub fn read(&mut self, buffer: &mut Vec<u8>, count: usize) -> (r: Result<
        usize,
        std::io::Error,
    >)
        requires
            old(self).readable(),
        ensures
            final(self).backing() == old(self).backing(),
            0 <= final(self).spec_position(),
            old(self).is_memory() ==> (r matches Ok(got) && got == capped(
                count as int,
                mem_remaining(old(self).spec_buffer(), old(self).spec_position()).len() as int,
            )),
            old(self).is_memory() ==> final(buffer)@ == old(buffer)@ + mem_remaining(
                old(self).spec_buffer(),
                old(self).spec_position(),
            ).take(
                capped(
                    count as int,
                    mem_remaining(old(self).spec_buffer(), old(self).spec_position()).len() as int,
                ),
            ),
            old(self).is_memory() ==> final(self).spec_buffer() == old(self).spec_buffer(),
            old(self).is_memory() ==> final(self).spec_position() == old(self).spec_position()
                + capped(
                count as int,
                mem_remaining(old(self).spec_buffer(), old(self).spec_position()).len() as int,
            ),
            r matches Ok(got) ==> got <= count,
            r matches Ok(got) ==> final(buffer)@.len() == old(buffer)@.len() + got,
            final(buffer)@.len() >= old(buffer)@.len() && final(buffer)@.subrange(
                0,
                old(buffer)@.len() as int,
            ) == old(buffer)@,
    {
        match &mut self.inner {
            StreamKind::Memory(memory) => {
                let length = memory.data.len();
                let start = memory.position;
                if start >= length {
                    proof {
                        assert(buffer@ =~= old(buffer)@ + mem_remaining(
                            old(self).spec_buffer(),
                            old(self).spec_position(),
                        ).take(0));
                    }
                    return Ok(0);
                }
                let available = length - start;
                let taking = if count <= available {
                    count
                } else {
                    available
                };
                let mut i: usize = 0;
                while i < taking
                    invariant
                        0 <= i <= taking,
                        start + taking <= length == memory.data@.len(),
                        buffer@ == old(buffer)@ + memory.data@.subrange(
                            start as int,
                            start + i as int,
                        ),
                    decreases taking - i,
                {
                    let byte = memory.data[start + i];
                    buffer.push(byte);
                    proof {
                        assert(buffer@ =~= old(buffer)@ + memory.data@.subrange(
                            start as int,
                            start + i + 1 as int,
                        ));
                    }
                    i += 1;
                }
                memory.position = start + taking;
                proof {
                    assert(memory.data@.subrange(start as int, start + taking as int)
                        =~= mem_remaining(
                        old(self).spec_buffer(),
                        old(self).spec_position(),
                    ).take(
                        capped(
                            count as int,
                            mem_remaining(
                                old(self).spec_buffer(),
                                old(self).spec_position(),
                            ).len() as int,
                        ),
                    ));
                }
                Ok(taking)
            },
            StreamKind::Stdin(handle) => stdin_read_some(handle, buffer, count),
            _ => vstd::pervasive::unreached(),
        }
    }

    /// Reads from the current position to the end of the stream, appending
    /// the bytes read to `buffer` and returning how many were appended.
    pub fn read_to_end(&mut self, buffer: &mut Vec<u8>) -> (r: Result<usize, std::io::Error>)
        requires
            old(self).readable(),
        ensures
            final(self).is_memory() == old(self).is_memory(),
            final(self).readable(),
            final(self).writable() == old(self).writable(),
            old(self).is_memory() ==> (r matches Ok(count) && count == mem_remaining(
                old(self).spec_buffer(),
                old(self).spec_position(),
            ).len()),
            old(self).is_memory() ==> final(buffer)@ == old(buffer)@ + mem_remaining(
                old(self).spec_buffer(),
                old(self).spec_position(),
            ),
            old(self).is_memory() ==> final(self).spec_buffer() == old(self).spec_buffer(),
            old(self).is_memory() ==> final(self).spec_position() == mem_drained_position(
                old(self).spec_buffer(),
                old(self).spec_position(),
            ),
            0 <= final(self).spec_position(),
            r matches Ok(count) ==> final(buffer)@.len() == old(buffer)@.len() + count,
            final(buffer)@.len() >= old(buffer)@.len() && final(buffer)@.subrange(
                0,
                old(buffer)@.len() as int,
            ) == old(buffer)@,
    {
        match &mut self.inner {
            StreamKind::Memory(memory) => {
                let length = memory.data.len();
                let start = memory.position;
                if start >= length {
                    proof {
                        assert(buffer@ =~= old(buffer)@ + mem_remaining(
                            old(self).spec_buffer(),
                            old(self).spec_position(),
                        ));
                    }
                    return Ok(0);
                }
                let mut i: usize = start;
                while i < length
                    invariant
                        start <= i <= length,
                        length == memory.data@.len(),
                        buffer@ == old(buffer)@ + memory.data@.subrange(start as int, i as int),
                    decreases length - i,
                {
                    let byte = memory.data[i];
                    buffer.push(byte);
                    proof {
                        assert(buffer@ =~= old(buffer)@ + memory.data@.subrange(
                            start as int,
                            i + 1 as int,
                        ));
                    }
                    i += 1;
                }
                memory.position = length;
                proof {
                    assert(memory.data@.subrange(start as int, length as int) =~= mem_remaining(
                        old(self).spec_buffer(),
                        old(self).spec_position(),
                    ));
                }
                Ok(length - start)
            },
            StreamKind::Stdin(handle) => stdin_read_to_end(handle, buffer),
            _ => vstd::pervasive::unreached(),
        }
    }
}

impl From<Vec<u8>> for Stream {
    /// Creates a memory-backed stream holding the given bytes, positioned at
    /// the start.
    fn from(buffer: Vec<u8>) -> (r: Stream)
        ensures
            r.backing() == Backing::Memory,
            r.spec_buffer() == buffer@,
            r.spec_position() == 0,
    {
        Stream { inner: StreamKind::Memory(Buffer { data: buffer, position: 0 }) }
    }
}

impl vstd::std_specs::convert::FromSpecImpl<Vec<u8>> for Stream {
    open spec fn obeys_from_spec() -> bool {
        true
    }

    closed spec fn from_spec(buffer: Vec<u8>) -> Stream {
        Stream { inner: StreamKind::Memory(Buffer { data: buffer, position: 0 }) }
    }
}

impl From<std::io::Stderr> for Stream {
    /// Creates a write-only stream backed by the process error console.
    fn from(stderr: std::io::Stderr) -> (r: Stream)
        ensures
            r.backing() == Backing::ErrorConsole,
    {
        Stream { inner: StreamKind::Stderr(stderr) }
    }
}

impl vstd::std_specs::convert::FromSpecImpl<std::io::Stderr> for Stream {
    open spec fn obeys_from_spec() -> bool {
        true
    }

    closed spec fn from_spec(stderr: std::io::Stderr) -> Stream {
        Stream { inner: StreamKind::Stderr(stderr) }
    }
}

impl From<std::io::Stdin> for Stream {
    /// Creates a read-only stream backed by the process input console.
    fn from(stdin: std::io::Stdin) -> (r: Stream)
        ensures
            r.backing() == Backing::InputConsole,
    {
        Stream { inner: StreamKind::Stdin(stdin) }
    }
}

impl vstd::std_specs::convert::FromSpecImpl<std::io::Stdin> for Stream {
    open spec fn obeys_from_spec() -> bool {
        true
    }

    closed spec fn from_spec(stdin: std::io::Stdin) -> Stream {
        Stream { inner: StreamKind::Stdin(stdin) }
    }
}

impl From<std::io::Stdout> for Stream {
    /// Creates a write-only stream backed by the process output console.
    fn from(stdout: std::io::Stdout) -> (r: Stream)
        ensures
            r.backing() == Backing::OutputConsole,
    {
        Stream { inner: StreamKind::Stdout(stdout) }
    }
}

impl vstd::std_specs::convert::FromSpecImpl<std::io::Stdout> for Stream {
    open spec fn obeys_from_spec() -> bool {
        true
    }

    closed spec fn from_spec(stdout: std::io::Stdout) -> Stream {
        Stream { inner: StreamKind::Stdout(stdout) }
    }
}

/// What `String::from_utf8_lossy` returns for the given bytes: the decoded
/// characters, with invalid sequences replaced. The result depends on the
/// bytes alone.
pub uninterp spec fn utf8_lossy(bytes: Seq<u8>) -> Seq<char>;

/// Relies on `String::from_utf8`: it succeeds exactly on input that is valid
/// UTF-8, and returns the string of the decoded characters.
#[verifier::external_body]
fn decode_utf8_vec(bytes: Vec<u8>) -> (r: Option<String>)
    ensures
        r is Some <==> vstd::utf8::valid_utf8(bytes@),
        r matches Some(text) ==> text@ == vstd::utf8::decode_utf8(bytes@),
{
    String::from_utf8(bytes).ok()
}

/// Relies on `String::from_utf8_lossy`: the result depends on the bytes
/// alone, and on bytes that are valid UTF-8 it equals the strict decoding.
#[verifier::external_body]
fn decode_utf8_lossy_vec(bytes: &Vec<u8>) -> (r: String)
    ensures
        r@ == utf8_lossy(bytes@),
        vstd::utf8::valid_utf8(bytes@) ==> r@ == vstd::utf8::decode_utf8(bytes@),
{
    String::from_utf8_lossy(bytes.as_slice()).into_owned()
}

/// Relies on `std::io::Error::new`: builds the error returned when the bytes
/// drained from a stream are not valid UTF-8.
#[verifier::external_body]
fn invalid_utf8_error() -> std::io::Error {
    std::io::Error::new(std::io::ErrorKind::InvalidData, "stream did not contain valid UTF-8")
}

/// Relies on `std::io::Error::new`: builds the error returned when a seek
/// resolves to a position before the start of the stream.
#[verifier::external_body]
fn negative_seek_error() -> std::io::Error {
    std::io::Error::new(std::io::ErrorKind::InvalidInput, "invalid seek to a negative position")
}

impl Stream {
    /// Reads the stream into a string.
    ///
    /// The stream is drained from its current position all the way to the
    /// end, and the bytes read are decoded as strict UTF-8; bytes that are
    /// not valid UTF-8 are an error.
    pub fn to_string(&mut self) -> (r: Result<String, std::io::Error>)
        requires
            old(self).readable(),
        ensures
            final(self).is_memory() == old(self).is_memory(),
            final(self).readable(),
            final(self).writable() == old(self).writable(),
            old(self).is_memory() ==> final(self).spec_buffer() == old(self).spec_buffer()
                && final(self).spec_position() == mem_drained_position(
                old(self).spec_buffer(),
                old(self).spec_position(),
            ),
            0 <= final(self).spec_position(),
            old(self).is_memory() ==> (r matches Ok(text) <==> vstd::utf8::valid_utf8(
                mem_remaining(old(self).spec_buffer(), old(self).spec_position()),
            )),
            old(self).is_memory() ==> (r matches Ok(text) ==> text@ == vstd::utf8::decode_utf8(
                mem_remaining(old(self).spec_buffer(), old(self).spec_position()),
            )),
    {
        let mut bytes: Vec<u8> = Vec::new();
        match self.read_to_end(&mut bytes) {
            Ok(_) => match decode_utf8_vec(bytes) {
                Some(text) => Ok(text),
                None => Err(invalid_utf8_error()),
            },
            Err(failure) => Err(failure),
        }
    }

    /// Reads the stream into a lossy string.
    ///
    /// The stream is drained from its current position all the way to the
    /// end, and the bytes read are decoded as UTF-8 with invalid sequences
    /// replaced. Where reading an input console fails mid-way, the bytes read
    /// up to the failure are decoded.
    pub fn to_string_lossy(&mut self) -> (r: String)
        requires
            old(self).readable(),
        ensures
            final(self).is_memory() == old(self).is_memory(),
            final(self).readable(),
            final(self).writable() == old(self).writable(),
            old(self).is_memory() ==> final(self).spec_buffer() == old(self).spec_buffer()
                && final(self).spec_position() == mem_drained_position(
                old(self).spec_buffer(),
                old(self).spec_position(),
            ),
            0 <= final(self).spec_position(),
            old(self).is_memory() ==> r@ == utf8_lossy(
                mem_remaining(old(self).spec_buffer(), old(self).spec_position()),
            ),
            old(self).is_memory() && vstd::utf8::valid_utf8(
                mem_remaining(old(self).spec_buffer(), old(self).spec_position()),
            ) ==> r@ == vstd::utf8::decode_utf8(
                mem_remaining(old(self).spec_buffer(), old(self).spec_position()),
            ),
    {
        let mut bytes: Vec<u8> = Vec::new();
        let _ = self.read_to_end(&mut bytes);
        decode_utf8_lossy_vec(&bytes)
    }

    /// Returns a copy of the bytes held by a memory-backed stream, regardless
    /// of its current position, or nothing for a console-backed stream.
    pub fn snapshot(&self) -> (r: Option<Vec<u8>>)
        ensures
            r is Some <==> self.is_memory(),
            r matches Some(bytes) ==> bytes@ == self.spec_buffer(),
    {
        match &self.inner {
            StreamKind::Memory(memory) => Some(memory.data.clone()),
            _ => None,
        }
    }

    /// Empties a memory-backed stream and moves its position back to the
    /// start, returning whether the stream was memory-backed.
    pub fn reset(&mut self) -> (r: bool)
        ensures
            r == old(self).is_memory(),
            final(self).backing() == old(self).backing(),
            old(self).is_memory() ==> final(self).spec_buffer() == Seq::<u8>::empty()
                && final(self).spec_position() == 0,
            0 <= final(self).spec_position(),
    {
        match &mut self.inner {
            StreamKind::Memory(memory) => {
                memory.data = Vec::new();
                memory.position = 0;
                true
            },
            _ => false,
        }
    }

    /// Replaces the contents of a memory-backed stream with the given bytes
    /// and moves its position back to the start, returning whether the stream
    /// was memory-backed.
    pub fn seed(&mut self, bytes: Vec<u8>) -> (r: bool)
        ensures
            r == old(self).is_memory(),
            final(self).backing() == old(self).backing(),
            old(self).is_memory() ==> final(self).spec_buffer() == bytes@
                && final(self).spec_position() == 0,
            0 <= final(self).spec_position(),
    {
        match &mut self.inner {
            StreamKind::Memory(memory) => {
                memory.data = bytes;
                memory.position = 0;
                true
            },
            _ => false,
        }
    }
}

/// Declares `std::sync::Mutex`, the lock guarding each stream of a shared
/// execution context. The lock and its contents are opaque to the library.
#[verifier::external_type_specification]
#[verifier::external_body]
#[verifier::reject_recursive_types(T)]
pub struct ExMutex<T: ?Sized>(std::sync::Mutex<T>);

/// Whether the stream a lock was created around was memory-backed.
pub uninterp spec fn guarded_is_memory(lock: std::sync::Mutex<Stream>) -> bool;

/// Whether the stream a lock was created around was the process error
/// console.
pub uninterp spec fn guarded_is_error_console(lock: std::sync::Mutex<Stream>) -> bool;

/// Whether the stream a lock was created around was the process input
/// console.
pub uninterp spec fn guarded_is_input_console(lock: std::sync::Mutex<Stream>) -> bool;

/// Whether the stream a lock was created around was the process output
/// console.
pub uninterp spec fn guarded_is_output_console(lock: std::sync::Mutex<Stream>) -> bool;

/// The bytes held by the stream a lock was created around.
pub uninterp spec fn guarded_buffer(lock: std::sync::Mutex<Stream>) -> Seq<u8>;

/// The read/write position of the stream a lock was created around.
pub uninterp spec fn guarded_position(lock: std::sync::Mutex<Stream>) -> int;

/// The creation facts of a role's lock: it was created around a stream of
/// this backing kind, with these contents at this position.
pub open spec fn created_around(lock: std::sync::Mutex<Stream>, stream: Stream) -> bool {
    &&& guarded_is_memory(lock) == (stream.backing() is Memory)
    &&& guarded_is_error_console(lock) == (stream.backing() is ErrorConsole)
    &&& guarded_is_input_console(lock) == (stream.backing() is InputConsole)
    &&& guarded_is_output_console(lock) == (stream.backing() is OutputConsole)
    &&& guarded_buffer(lock) == stream.spec_buffer()
    &&& guarded_position(lock) == stream.spec_position()
}

/// The backing kind a lock was created with, read off the creation facts.
pub open spec fn lock_backing(lock: std::sync::Mutex<Stream>) -> Backing {
    if guarded_is_memory(lock) {
        Backing::Memory
    } else if guarded_is_error_console(lock) {
        Backing::ErrorConsole
    } else if guarded_is_input_console(lock) {
        Backing::InputConsole
    } else {
        Backing::OutputConsole
    }
}

/// Relies on `Mutex::new`: wraps a stream for lock-guarded shared access.
/// The creation facts name the backing kind, contents and position of the
/// stream the lock was created around.
#[verifier::external_body]
fn stream_lock_new(stream: Stream) -> (r: std::sync::Mutex<Stream>)
    ensures
        guarded_is_memory(r) == (stream.backing() is Memory),
        guarded_is_error_console(r) == (stream.backing() is ErrorConsole),
        guarded_is_input_console(r) == (stream.backing() is InputConsole),
        guarded_is_output_console(r) == (stream.backing() is OutputConsole),
        guarded_buffer(r) == stream.spec_buffer(),
        guarded_position(r) == stream.spec_position(),
{
    std::sync::Mutex::new(stream)
}

/// Relies on `Mutex::lock`: runs the operation with exclusive access to the
/// guarded stream and releases the lock when the operation returns, on every
/// exit path; a poisoned lock is treated as an unrecoverable condition. The
/// contract also relies on the guarded stream keeping the backing kind the
/// lock was created with: the requires below demands that of every operation
/// run here, and the raw-handle accessors of [`Streams`] document the same
/// discipline for direct users of the lock.
#[verifier::external_body]
fn with_locked_stream<R, F: FnOnce(&mut Stream) -> R>(
    lock: &std::sync::Mutex<Stream>,
    operation: F,
) -> (r: R)
    requires
        forall|stream: &mut Stream| (*stream).backing() == lock_backing(*lock)
            ==> call_requires(operation, (stream,)),
        forall|stream: &mut Stream, result: R|
            #[trigger] call_ensures(operation, (stream,), result) ==> (*final(stream)).backing()
                == (*stream).backing(),
    ensures
        exists|stream: &mut Stream| #[trigger] call_ensures(operation, (stream,), r),
{
    let mut guard = lock.lock().unwrap();
    operation(&mut *guard)
}

/// A trait for types which share the three locked streams of an execution
/// context: one per role, for error output, input, and output.
///
/// The backing kind of each role's stream is fixed for the context's whole
/// lifetime, so an operation needs only be callable on streams of the role's
/// kind, and must leave the kind as it found it.
pub trait Shared {
    /// The backing kind of the error output stream.
    spec fn error_backing(&self) -> Backing;

    /// The backing kind of the input stream.
    spec fn input_backing(&self) -> Backing;

    /// The backing kind of the output stream.
    spec fn output_backing(&self) -> Backing;

    /// Runs the operation with exclusive access to the error output stream.
    fn error<R, F: FnOnce(&mut Stream) -> R>(&self, operation: F) -> (r: R)
        requires
            forall|stream: &mut Stream| (*stream).backing() == self.error_backing()
                ==> call_requires(operation, (stream,)),
            forall|stream: &mut Stream, result: R|
                #[trigger] call_ensures(operation, (stream,), result)
                    ==> (*final(stream)).backing() == (*stream).backing(),
        ensures
            exists|stream: &mut Stream| #[trigger] call_ensures(operation, (stream,), r),
    ;

    /// Runs the operation with exclusive access to the input stream.
    fn input<R, F: FnOnce(&mut Stream) -> R>(&self, operation: F) -> (r: R)
        requires
            forall|stream: &mut Stream| (*stream).backing() == self.input_backing()
                ==> call_requires(operation, (stream,)),
            forall|stream: &mut Stream, result: R|
                #[trigger] call_ensures(operation, (stream,), result)
                    ==> (*final(stream)).backing() == (*stream).backing(),
        ensures
            exists|stream: &mut Stream| #[trigger] call_ensures(operation, (stream,), r),
    ;

    /// Runs the operation with exclusive access to the output stream.
    fn output<R, F: FnOnce(&mut Stream) -> R>(&self, operation: F) -> (r: R)
        requires
            forall|stream: &mut Stream| (*stream).backing() == self.output_backing()
                ==> call_requires(operation, (stream,)),
            forall|stream: &mut Stream, result: R|
                #[trigger] call_ensures(operation, (stream,), result)
                    ==> (*final(stream)).backing() == (*stream).backing(),
        ensures
            exists|stream: &mut Stream| #[trigger] call_ensures(operation, (stream,), r),
    ;
}

/// Manages a collection of input and output streams for a command, one per
/// role, each behind its own lock so that the roles never contend with each
/// other.
pub struct Streams {
    /// The error output stream.
    error: std::sync::Mutex<Stream>,

    /// The input stream.
    input: std::sync::Mutex<Stream>,

    /// The global output stream.
    output: std::sync::Mutex<Stream>,
}

impl Streams {
    /// The lock guarding the error output stream.
    pub closed spec fn error_lock(self) -> std::sync::Mutex<Stream> {
        self.error
    }

    /// The lock guarding the input stream.
    pub closed spec fn input_lock(self) -> std::sync::Mutex<Stream> {
        self.input
    }

    /// The lock guarding the output stream.
    pub closed spec fn output_lock(self) -> std::sync::Mutex<Stream> {
        self.output
    }

    /// Creates a new instance using the given streams for the three roles:
    /// each role's lock is created around its own given stream, so each
    /// role carries the backing kind, contents and position it was given.
    pub fn new(error: Stream, input: Stream, output: Stream) -> (r: Streams)
        ensures
            created_around(r.error_lock(), error),
            created_around(r.input_lock(), input),
            created_around(r.output_lock(), output),
            r.error_backing() == error.backing(),
            r.input_backing() == input.backing(),
            r.output_backing() == output.backing(),
    {
        Streams {
            error: stream_lock_new(error),
            input: stream_lock_new(input),
            output: stream_lock_new(output),
        }
    }

    /// Exposes the raw lockable handle to the error output stream. A user of
    /// the raw handle may change the guarded stream's contents and position,
    /// never its backing kind, which the context fixes at creation.
    pub fn to_error(&self) -> (r: &std::sync::Mutex<Stream>)
        ensures
            *r == self.error_lock(),
    {
        &self.error
    }

    /// Exposes the raw lockable handle to the input stream. The same
    /// backing-kind discipline holds as for the error handle.
    pub fn to_input(&self) -> (r: &std::sync::Mutex<Stream>)
        ensures
            *r == self.input_lock(),
    {
        &self.input
    }

    /// Exposes the raw lockable handle to the output stream. The same
    /// backing-kind discipline holds as for the error handle.
    pub fn to_output(&self) -> (r: &std::sync::Mutex<Stream>)
        ensures
            *r == self.output_lock(),
    {
        &self.output
    }

    /// Returns a copy of the bytes held by the error stream, or nothing where
    /// that stream is console-backed. Intended for inspecting a test context.
    pub fn error_snapshot(&self) -> (r: Option<Vec<u8>>)
        ensures
            r is Some <==> self.error_backing() is Memory,
    {
        let operation = |stream: &mut Stream| -> (snap: Option<Vec<u8>>)
            requires
                old(stream).backing() == self.error_backing(),
            ensures
                snap is Some <==> (self.error_backing() is Memory),
                final(stream).backing() == old(stream).backing(),
            {
                stream.snapshot()
            };
        Shared::error(self, operation)
    }

    /// Returns a copy of the bytes held by the input stream, or nothing where
    /// that stream is console-backed. Intended for inspecting a test context.
    pub fn input_snapshot(&self) -> (r: Option<Vec<u8>>)
        ensures
            r is Some <==> self.input_backing() is Memory,
    {
        let operation = |stream: &mut Stream| -> (snap: Option<Vec<u8>>)
            requires
                old(stream).backing() == self.input_backing(),
            ensures
                snap is Some <==> (self.input_backing() is Memory),
                final(stream).backing() == old(stream).backing(),
            {
                stream.snapshot()
            };
        Shared::input(self, operation)
    }

    /// Returns a copy of the bytes held by the output stream, or nothing
    /// where that stream is console-backed. Intended for inspecting a test
    /// context.
    pub fn output_snapshot(&self) -> (r: Option<Vec<u8>>)
        ensures
            r is Some <==> self.output_backing() is Memory,
    {
        let operation = |stream: &mut Stream| -> (snap: Option<Vec<u8>>)
            requires
                old(stream).backing() == self.output_backing(),
            ensures
                snap is Some <==> (self.output_backing() is Memory),
                final(stream).backing() == old(stream).backing(),
            {
                stream.snapshot()
            };
        Shared::output(self, operation)
    }

    /// Empties a memory-backed error stream, returning whether the stream was
    /// memory-backed. Intended for resetting a test context.
    pub fn reset_error(&self) -> (r: bool)
        ensures
            r == (self.error_backing() is Memory),
    {
        let operation = |stream: &mut Stream| -> (was: bool)
            requires
                old(stream).backing() == self.error_backing(),
            ensures
                was == (self.error_backing() is Memory),
                final(stream).backing() == old(stream).backing(),
            {
                stream.reset()
            };
        Shared::error(self, operation)
    }

    /// Empties a memory-backed input stream, returning whether the stream was
    /// memory-backed. Intended for resetting a test context.
    pub fn reset_input(&self) -> (r: bool)
        ensures
            r == (self.input_backing() is Memory),
    {
        let operation = |stream: &mut Stream| -> (was: bool)
            requires
                old(stream).backing() == self.input_backing(),
            ensures
                was == (self.input_backing() is Memory),
                final(stream).backing() == old(stream).backing(),
            {
                stream.reset()
            };
        Shared::input(self, operation)
    }

    /// Empties a memory-backed output stream, returning whether the stream
    /// was memory-backed. Intended for resetting a test context.
    pub fn reset_output(&self) -> (r: bool)
        ensures
            r == (self.output_backing() is Memory),
    {
        let operation = |stream: &mut Stream| -> (was: bool)
            requires
                old(stream).backing() == self.output_backing(),
            ensures
                was == (self.output_backing() is Memory),
                final(stream).backing() == old(stream).backing(),
            {
                stream.reset()
            };
        Shared::output(self, operation)
    }

    /// Replaces the contents of a memory-backed input stream with the given
    /// bytes, positioned at the start, returning whether the stream was
    /// memory-backed. Intended for seeding the input of a test context.
    pub fn seed_input(&self, bytes: Vec<u8>) -> (r: bool)
        ensures
            r == (self.input_backing() is Memory),
    {
        let operation = move |stream: &mut Stream| -> (was: bool)
            requires
                old(stream).backing() == self.input_backing(),
            ensures
                was == (self.input_backing() is Memory),
                final(stream).backing() == old(stream).backing(),
            {
                stream.seed(bytes)
            };
        Shared::input(self, operation)
    }
}

impl Shared for Streams {
    closed spec fn error_backing(&self) -> Backing {
        lock_backing(self.error)
    }

    closed spec fn input_backing(&self) -> Backing {
        lock_backing(self.input)
    }

    closed spec fn output_backing(&self) -> Backing {
        lock_backing(self.output)
    }

    fn error<R, F: FnOnce(&mut Stream) -> R>(&self, operation: F) -> R {
        with_locked_stream(&self.error, operation)
    }

    fn input<R, F: FnOnce(&mut Stream) -> R>(&self, operation: F) -> R {
        with_locked_stream(&self.input, operation)
    }

    fn output<R, F: FnOnce(&mut Stream) -> R>(&self, operation: F) -> R {
        with_locked_stream(&self.output, operation)
    }
}

/// Creates a new instance of [`Streams`] using in-memory buffers, for tests:
/// each of the three roles is guarded by its own lock, created around a
/// memory-backed stream with an empty buffer positioned at the start.
pub fn memory() -> (r: Streams)
    ensures
        r.error_backing() is Memory,
        r.input_backing() is Memory,
        r.output_backing() is Memory,
        guarded_buffer(r.error_lock()) == Seq::<u8>::empty(),
        guarded_buffer(r.input_lock()) == Seq::<u8>::empty(),
        guarded_buffer(r.output_lock()) == Seq::<u8>::empty(),
        guarded_position(r.error_lock()) == 0,
        guarded_position(r.input_lock()) == 0,
        guarded_position(r.output_lock()) == 0,
{
    let empty_error: Vec<u8> = Vec::new();
    let empty_input: Vec<u8> = Vec::new();
    let empty_output: Vec<u8> = Vec::new();
    proof {
        assert(empty_error@ =~= Seq::<u8>::empty());
        assert(empty_input@ =~= Seq::<u8>::empty());
        assert(empty_output@ =~= Seq::<u8>::empty());
    }
    Streams::new(Stream::from(empty_error), Stream::from(empty_input), Stream::from(empty_output))
}

/// Relies on `std::io::stderr`: a handle to the process error console.
#[verifier::external_body]
fn acquire_stderr() -> std::io::Stderr {
    std::io::stderr()
}

/// Relies on `std::io::stdin`: a handle to the process input console.
#[verifier::external_body]
fn acquire_stdin() -> std::io::Stdin {
    std::io::stdin()
}

/// Relies on `std::io::stdout`: a handle to the process output console.
#[verifier::external_body]
fn acquire_stdout() -> std::io::Stdout {
    std::io::stdout()
}

/// Creates a new instance of [`Streams`] using the standard console streams:
/// the error role is bound to the process error console, the input role to
/// the process input console, and the output role to the process output
/// console.
pub fn standard() -> (r: Streams)
    ensures
        r.error_backing() is ErrorConsole,
        r.input_backing() is InputConsole,
        r.output_backing() is OutputConsole,
{
    Streams::new(
        Stream::from(acquire_stderr()),
        Stream::from(acquire_stdin()),
        Stream::from(acquire_stdout()),
    )
}

} // verus!
