//! The upload handler's logic.
//!
//! One POST request carries a multipart body. The handler opens (and thereby
//! truncates) a single fixed destination file, then walks the fields: each
//! field's bytes are appended to that file. On the first failure — the file
//! cannot be opened, a field cannot be read, or a write fails — the request is
//! abandoned and the client is redirected to the error location; when every
//! field went through, to the success location.
//!
//! `UploadSession` is that logic with the I/O taken out: the caller opens the
//! file, reads the fields and performs the writes, and reports each outcome to
//! the session, which decides what happens next and keeps the model of the
//! destination file's contents.

use vstd::prelude::*;

verus! {

/// Where the client is redirected once the upload request is finished.
#[derive(Clone, Copy, PartialEq, Eq, Structural, Debug)]
pub enum UploadRedirect {
    /// Every field was appended to the destination file.
    UploadDone,
    /// Opening, reading or writing failed; the request was abandoned.
    UploadFailed,
}

impl UploadRedirect {
    /// The location the redirect points at.
    pub fn location(&self) -> (r: &'static str)
        ensures
            *self is UploadDone ==> r@ == "/upload_success"@,
            *self is UploadFailed ==> r@ == "/upload_error"@,
    {
        match self {
            UploadRedirect::UploadDone => "/upload_success",
            UploadRedirect::UploadFailed => "/upload_error",
        }
    }

    /// The status code of the redirect: 303 See Other.
    pub fn status_code(&self) -> (s: u16)
        ensures
            s == 303,
    {
        303
    }
}

/// The destination file's contents after one upload request, given its
/// contents before it. Opening the file truncates it, so a request that
/// opened the file leaves exactly the bytes it appended; one that could not
/// open it leaves the file as it was.
pub open spec fn file_after(
    prev: Option<Seq<u8>>,
    opened: bool,
    written: Seq<u8>,
) -> Option<Seq<u8>> {
    if opened {
        Option::Some(written)
    } else {
        prev
    }
}

/// One upload request in progress. The caller reports events — the open
/// attempt, each field with its write outcome, a read failure, the end of the
/// fields — and the session decides the redirect and tracks the bytes
/// appended to the destination file.
pub struct UploadSession {
    opened: bool,
    outcome: Option<UploadRedirect>,
    written: Vec<u8>,
}

impl UploadSession {
    /// Whether the destination file was opened (and so truncated).
    pub closed spec fn spec_opened(&self) -> bool {
        self.opened
    }

    /// The redirect decided so far: `None` while fields are still processed.
    pub closed spec fn spec_outcome(&self) -> Option<UploadRedirect> {
        self.outcome
    }

    /// The bytes this request has appended to the destination file.
    pub closed spec fn spec_written(&self) -> Seq<u8> {
        self.written@
    }

    /// A session still processing fields: no redirect decided yet.
    pub open spec fn running(&self) -> bool {
        self.spec_outcome() is None
    }

    /// Start a request: the caller tried to open the destination file and
    /// reports whether that succeeded. A failed open decides the error
    /// redirect at once, and no bytes are ever written.
    pub fn begin(open_ok: bool) -> (s: Self)
        ensures
            s.spec_opened() == open_ok,
            s.spec_written() == Seq::<u8>::empty(),
            open_ok ==> s.running(),
            !open_ok ==> s.spec_outcome() == Option::Some(UploadRedirect::UploadFailed),
    {
        UploadSession {
            opened: open_ok,
            outcome: if open_ok {
                Option::None
            } else {
                Option::Some(UploadRedirect::UploadFailed)
            },
            written: Vec::new(),
        }
    }

    /// A field arrived and the caller attempted to append its bytes to the
    /// destination file; `write_ok` reports whether the write succeeded. On
    /// success the bytes extend the session's record; on failure the request
    /// is abandoned with the error redirect.
    pub fn record_field(&mut self, data: &[u8], write_ok: bool)
        requires
            old(self).running(),
        ensures
            final(self).spec_opened() == old(self).spec_opened(),
            write_ok ==> final(self).running() && final(self).spec_written() == old(
                self,
            ).spec_written() + data@,
            !write_ok ==> final(self).spec_outcome() == Option::Some(
                UploadRedirect::UploadFailed,
            ) && final(self).spec_written() == old(self).spec_written(),
    {
        if write_ok {
            self.written.extend_from_slice(data);
            proof {
                assert(self.written@ =~= old(self).written@ + data@);
            }
        } else {
            self.outcome = Option::Some(UploadRedirect::UploadFailed);
        }
    }

    /// The next field could not be read from the multipart body: the request
    /// is abandoned with the error redirect.
    pub fn record_read_failure(&mut self)
        requires
            old(self).running(),
        ensures
            final(self).spec_opened() == old(self).spec_opened(),
            final(self).spec_written() == old(self).spec_written(),
            final(self).spec_outcome() == Option::Some(UploadRedirect::UploadFailed),
    {
        self.outcome = Option::Some(UploadRedirect::UploadFailed);
    }

    /// The multipart body is exhausted without a failure: the request
    /// succeeds with the success redirect.
    pub fn finish(&mut self)
        requires
            old(self).running(),
        ensures
            final(self).spec_opened() == old(self).spec_opened(),
            final(self).spec_written() == old(self).spec_written(),
            final(self).spec_outcome() == Option::Some(UploadRedirect::UploadDone),
    {
        self.outcome = Option::Some(UploadRedirect::UploadDone);
    }

    /// The redirect decided so far.
    pub fn outcome(&self) -> (r: Option<UploadRedirect>)
        ensures
            r == self.spec_outcome(),
    {
        self.outcome
    }

    /// The bytes this request has appended to the destination file.
    pub fn written(&self) -> (r: &Vec<u8>)
        ensures
            r@ == self.spec_written(),
    {
        &self.written
    }

    /// The destination file's contents after this request, given its contents
    /// before it: exactly `file_after`. Meaningful once the caller has
    /// reported every event and each reported write succeeded; the file then
    /// holds exactly the session's appended bytes, or its old contents where
    /// the open failed.
    pub fn resulting_file(self, prev: Option<Vec<u8>>) -> (r: Option<Vec<u8>>)
        ensures
            r.deep_view() == file_after(prev.deep_view(), self.spec_opened(), self.spec_written()),
    {
        if self.opened {
            Option::Some(self.written)
        } else {
            prev
        }
    }
}

/// Law: of two sequential uploads that both opened the destination file, the
/// second fully overwrites the first — the file ends up holding exactly the
/// second request's bytes, whatever stood there before and whatever the first
/// wrote.
pub proof fn lemma_second_upload_overwrites(
    prev: Option<Seq<u8>>,
    first: Seq<u8>,
    second: Seq<u8>,
)
    ensures
        file_after(file_after(prev, true, first), true, second) == Option::Some(second),
{
}

/// Law: an upload that could not open the destination file writes no bytes —
/// the file's contents are exactly what they were before the request.
pub proof fn lemma_failed_open_preserves_file(prev: Option<Seq<u8>>, written: Seq<u8>)
    ensures
        file_after(prev, false, written) == prev,
{
}

} // verus!
