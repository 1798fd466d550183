//! Rendering of mono 64-bit audio samples into raw PCM or RIFF/WAVE byte
//! streams, and sinks that carry those bytes to a destination.
//!
//! Samples enter as their IEEE-754 bit patterns (`u64`), are encoded into a
//! little-endian byte payload, and a renderer wraps that payload with an
//! optional header and footer. A writer then emits header, payload and footer
//! in that order.

pub mod audio;
pub mod bytes;

use vstd::prelude::*;

verus! {

/// The byte view of an optional byte vector.
pub open spec fn opt_bytes(o: Option<Vec<u8>>) -> Option<Seq<u8>> {
    match o {
        Some(v) => Some(v@),
        None => None,
    }
}

/// Access to the byte payload a renderer carries.
pub trait Buffer {
    /// The payload bytes.
    spec fn buf(&self) -> Seq<u8>;

    fn get_buffer(&self) -> (r: &[u8])
        ensures
            r@ == self.buf(),
    ;
}

/// A renderer: a payload plus an optional header emitted before it and an
/// optional footer emitted after it.
pub trait OutputRenderer: Buffer {
    /// Bounds under which the header can be assembled without overflow.
    spec fn wf(&self) -> bool;

    /// The header bytes, if this renderer has a header.
    spec fn header(&self) -> Option<Seq<u8>>;

    /// The footer bytes, if this renderer has a footer.
    spec fn footer(&self) -> Option<Seq<u8>>;

    fn get_header(&self) -> (r: Option<Vec<u8>>)
        requires
            self.wf(),
        ensures
            opt_bytes(r) == self.header(),
    ;

    fn get_footer(&self) -> (r: Option<Vec<u8>>)
        requires
            self.wf(),
        ensures
            opt_bytes(r) == self.footer(),
    ;
}

/// Why a write to a sink failed: the destination could not be acquired at
/// all, or a byte segment could not be written to an acquired destination.
#[derive(Clone, Copy, Debug, PartialEq, Eq, Structural)]
pub enum SinkError {
    DestinationUnavailable,
    WriteFailure,
}

/// A sink: consumes a renderer and emits header (if present), payload and
/// footer (if present), in that order, to its destination.
pub trait Writer {
    fn write<T: OutputRenderer + 'static>(&self, renderer: T) -> (r: Result<(), SinkError>)
        requires
            renderer.wf(),
    ;
}

/// The full byte stream a sink emits for a renderer: header if present, then
/// the payload, then the footer if present.
pub open spec fn spec_output<T: OutputRenderer>(renderer: T) -> Seq<u8> {
    (match renderer.header() {
        Some(h) => h,
        None => Seq::empty(),
    }) + renderer.buf() + (match renderer.footer() {
        Some(f) => f,
        None => Seq::empty(),
    })
}

/// Append a byte slice to a vector.
fn push_all(out: &mut Vec<u8>, bytes: &[u8])
    ensures
        final(out)@ == old(out)@ + bytes@,
{
    let mut i: usize = 0;
    while i < bytes.len()
        invariant
            i <= bytes@.len(),
            out@ == old(out)@ + bytes@.subrange(0, i as int),
        decreases bytes@.len() - i,
    {
        proof {
            assert((old(out)@ + bytes@.subrange(0, i as int)).push(bytes@[i as int]) =~= old(out)@
                + bytes@.subrange(0, i as int + 1));
        }
        out.push(bytes[i]);
        i = i + 1;
    }
    proof {
        assert(old(out)@ + bytes@.subrange(0, bytes@.len() as int) =~= old(out)@ + bytes@);
    }
}

/// Assemble the exact byte stream a sink emits for `renderer`: header,
/// payload, footer, concatenated in that order.
pub fn output_bytes<T: OutputRenderer>(renderer: &T) -> (out: Vec<u8>)
    requires
        renderer.wf(),
    ensures
        out@ == spec_output(*renderer),
{
    let mut out: Vec<u8> = Vec::new();
    if let Some(header) = renderer.get_header() {
        push_all(&mut out, header.as_slice());
    }
    push_all(&mut out, renderer.get_buffer());
    if let Some(footer) = renderer.get_footer() {
        push_all(&mut out, footer.as_slice());
    }
    proof {
        assert(out@ =~= spec_output(*renderer));
    }
    out
}

/// Relies on std::io::Stdout::write: one bulk write of the slice to standard
/// output; it returns an error exactly when the transport failed, and how
/// many bytes went out is the transport's business.
#[verifier::external_body]
fn write_stdout(bytes: &[u8]) -> (r: Result<(), SinkError>)
    ensures
        r matches Err(e) ==> e == SinkError::WriteFailure,
{
    match std::io::Write::write(&mut std::io::stdout(), bytes) {
        Ok(_) => Ok(()),
        Err(_) => Err(SinkError::WriteFailure),
    }
}

/// Writes to the process's standard output stream, which is always
/// acquirable: only a write itself can fail.
pub struct StdoutWriter;

impl StdoutWriter {
    pub fn new() -> (r: Self) {
        StdoutWriter
    }
}

impl Writer for StdoutWriter {
    /// The stream is always acquirable, so the only failure is a write
    /// failure.
    fn write<T: OutputRenderer + 'static>(&self, renderer: T) -> (r: Result<(), SinkError>)
        ensures
            r matches Err(e) ==> e == SinkError::WriteFailure,
    {
        let header = renderer.get_header();
        let footer = renderer.get_footer();
        if let Some(h) = &header {
            match write_stdout(h.as_slice()) {
                Ok(()) => {},
                Err(e) => {
                    return Err(e);
                },
            }
        }
        match write_stdout(renderer.get_buffer()) {
            Ok(()) => {},
            Err(e) => {
                return Err(e);
            },
        }
        if let Some(f) = &footer {
            match write_stdout(f.as_slice()) {
                Ok(()) => {},
                Err(e) => {
                    return Err(e);
                },
            }
        }
        Ok(())
    }
}

/// Writes to a named file, created (truncated if it exists) at write time.
/// Holds only the destination path; opening and writing the file is the
/// caller's I/O.
pub struct FileWriter {
    fname: String,
}

impl FileWriter {
    /// The destination path this writer was built with.
    pub closed spec fn dest(&self) -> Seq<char> {
        self.fname@
    }

    pub fn new(fname: &str) -> (r: Self)
        ensures
            r.dest() == fname@,
    {
        FileWriter { fname: fname.to_owned() }
    }

    /// The destination path, for whoever opens the file.
    pub fn file_name(&self) -> (r: &str)
        ensures
            r@ == self.dest(),
    {
        self.fname.as_str()
    }
}

} // verus!
