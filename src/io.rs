use vstd::prelude::*;

verus! {

#[verifier::external_type_specification]
#[verifier::external_body]
pub struct ExIoError(std::io::Error);

#[verifier::external_type_specification]
#[verifier::external_body]
pub struct ExPipeReader(os_pipe::PipeReader);

#[verifier::external_type_specification]
#[verifier::external_body]
pub struct ExPipeWriter(os_pipe::PipeWriter);

/// Whether an I/O error was made with the kind `BrokenPipe`.
pub uninterp spec fn is_broken_pipe_error(e: std::io::Error) -> bool;

/// What the bytes read as UTF-8 text, or `None` when they are not valid UTF-8.
pub uninterp spec fn utf8_text(b: Seq<u8>) -> Option<Seq<char>>;

/// Relies on std::io::Error::kind: the kind an error carries is fixed when it is made.
#[verifier::external_body]
pub(crate) fn is_broken_pipe(e: &std::io::Error) -> (r: bool)
    ensures
        r == is_broken_pipe_error(*e),
{
    match e.kind() {
        std::io::ErrorKind::BrokenPipe => true,
        _ => false,
    }
}

/// Relies on String::from_utf8: it succeeds exactly on valid UTF-8, which an
/// empty vector is.
#[verifier::external_body]
pub(crate) fn decode_utf8(b: Vec<u8>) -> (r: Option<String>)
    ensures
        r is None ==> utf8_text(b@) is None,
        r matches Some(s) ==> utf8_text(b@) == Some(s@),
        b@.len() == 0 ==> r is Some,
{
    String::from_utf8(b).ok()
}

/// Relies on os_pipe::PipeReader::try_clone: a new descriptor for the same
/// pipe, or the error that duplicating it gave.
#[verifier::external_body]
pub(crate) fn clone_reader(p: &os_pipe::PipeReader) -> (r: Result<os_pipe::PipeReader, std::io::Error>) {
    p.try_clone()
}

/// Relies on os_pipe::PipeWriter::try_clone: a new descriptor for the same
/// pipe, or the error that duplicating it gave.
#[verifier::external_body]
pub(crate) fn clone_writer(p: &os_pipe::PipeWriter) -> (r: Result<os_pipe::PipeWriter, std::io::Error>) {
    p.try_clone()
}

/// A place a child's standard stream is connected to once it is opened: the
/// parent's own stream, the null device, a path (opened when the child is
/// spawned), or one end of an OS pipe.
pub enum IoValue {
    ParentStream,
    Null,
    Path(String),
    Reader(os_pipe::PipeReader),
    Writer(os_pipe::PipeWriter),
}

/// The result of a broken-pipe write counts as success: the reader left early
/// and did not want the rest.
pub fn suppress_broken_pipe_errors(r: Result<(), std::io::Error>) -> (o: Result<(), std::io::Error>)
    ensures
        o is Ok <==> (r is Ok || is_broken_pipe_error(r->Err_0)),
        o is Err ==> o == r,
{
    match r {
        Ok(()) => Ok(()),
        Err(e) => {
            if is_broken_pipe(&e) {
                Ok(())
            } else {
                Err(e)
            }
        },
    }
}

impl IoValue {
    /// An independent capability for the same target: plain targets are
    /// copied, pipe ends get a duplicated descriptor.
    pub fn try_clone(&self) -> (r: Result<IoValue, std::io::Error>)
        ensures
            match *self {
                IoValue::ParentStream => r matches Ok(IoValue::ParentStream),
                IoValue::Null => r matches Ok(IoValue::Null),
                IoValue::Path(p) => r matches Ok(IoValue::Path(q)) && q == p,
                IoValue::Reader(_) => r is Ok ==> r matches Ok(IoValue::Reader(_)),
                IoValue::Writer(_) => r is Ok ==> r matches Ok(IoValue::Writer(_)),
            },
    {
        match self {
            IoValue::ParentStream => Ok(IoValue::ParentStream),
            IoValue::Null => Ok(IoValue::Null),
            IoValue::Path(p) => Ok(IoValue::Path(p.clone())),
            IoValue::Reader(p) => match clone_reader(p) {
                Ok(q) => Ok(IoValue::Reader(q)),
                Err(e) => Err(e),
            },
            IoValue::Writer(p) => match clone_writer(p) {
                Ok(q) => Ok(IoValue::Writer(q)),
                Err(e) => Err(e),
            },
        }
    }
}

} // verus!
