//! Size-bounded reading of an upload: the image part, its filename and the
//! options part, fed in as they arrive.
use crate::errors::{ApiError, ValidationKind};
use crate::options::{is_default_options, ConvertParams};
use crate::params::{document_readable, params_from_document, parse_params};
use vstd::prelude::*;

verus! {

/// An uploaded image: its bytes and the filename it was sent under.
#[derive(Clone, Debug)]
pub struct UploadedImage {
    pub bytes: Vec<u8>,
    pub filename: String,
}

/// The state of one upload being read.
///
/// The part being received is buffered in `receiving`; a finished image part
/// moves to `image`. The buffer never holds more than `max_bytes` bytes.
#[derive(Debug)]
pub struct Ingest {
    pub max_bytes: u64,
    pub receiving: Vec<u8>,
    pub image: Option<Vec<u8>>,
    pub filename: Option<String>,
    pub params: Option<ConvertParams>,
}

/// What feeding `chunks`, in order, into a part that has buffered
/// `buffered` leaves, one step being `Ingest::push_image_chunk`: the bytes
/// buffered at the end, or `None` once a chunk was refused.
pub open spec fn feed(buffered: Seq<u8>, chunks: Seq<Seq<u8>>, max: nat) -> Option<Seq<u8>>
    decreases chunks.len(),
{
    if chunks.len() == 0 {
        Some(buffered)
    } else if buffered.len() + chunks[0].len() > max {
        None
    } else {
        feed(buffered + chunks[0], chunks.drop_first(), max)
    }
}

/// The number of bytes in all of `chunks`.
pub open spec fn total_len(chunks: Seq<Seq<u8>>) -> nat
    decreases chunks.len(),
{
    if chunks.len() == 0 {
        0
    } else {
        chunks[0].len() + total_len(chunks.drop_first())
    }
}

/// An image part is refused exactly when its bytes pass the ceiling, and
/// then before any byte past the ceiling is buffered: every buffer along the
/// way holds at most `max` bytes, and an accepted part holds all its bytes.
pub proof fn lemma_oversize_refused(buffered: Seq<u8>, chunks: Seq<Seq<u8>>, max: nat)
    requires
        buffered.len() <= max,
    ensures
        feed(buffered, chunks, max).is_none() == (buffered.len() + total_len(chunks) > max),
        feed(buffered, chunks, max) matches Some(b) ==> b.len() == buffered.len() + total_len(
            chunks,
        ) && b.len() <= max,
    decreases chunks.len(),
{
    if chunks.len() > 0 {
        if buffered.len() + chunks[0].len() <= max {
            lemma_oversize_refused(buffered + chunks[0], chunks.drop_first(), max);
        }
    }
}

impl Ingest {
    /// Nothing buffered beyond the ceiling.
    pub open spec fn wf(&self) -> bool {
        &&& self.receiving@.len() <= self.max_bytes
        &&& self.image matches Some(v) ==> v@.len() <= self.max_bytes
    }

    /// A fresh upload with a ceiling of `max_bytes` bytes for the image.
    pub fn new(max_bytes: u64) -> (r: Ingest)
        ensures
            r.wf(),
            r.max_bytes == max_bytes,
            r.receiving@.len() == 0,
            r.image.is_none(),
            r.filename.is_none(),
            r.params.is_none(),
    {
        Ingest { max_bytes, receiving: Vec::new(), image: None, filename: None, params: None }
    }

    /// A part named `image` starts.
    pub fn begin_image(&mut self)
        requires
            old(self).wf(),
        ensures
            final(self).wf(),
            final(self).receiving@.len() == 0,
            final(self).max_bytes == old(self).max_bytes,
            final(self).image == old(self).image,
            final(self).filename == old(self).filename,
            final(self).params == old(self).params,
    {
        self.receiving = Vec::new();
    }

    /// A chunk of the image part arrives. Where it would take the image past
    /// the ceiling, reading stops with `SizeExceeded` and the chunk is not
    /// kept; otherwise it is appended.
    pub fn push_image_chunk(&mut self, chunk: &[u8]) -> (r: Result<(), ApiError>)
        requires
            old(self).wf(),
        ensures
            final(self).wf(),
            final(self).max_bytes == old(self).max_bytes,
            final(self).image == old(self).image,
            final(self).filename == old(self).filename,
            final(self).params == old(self).params,
            feed(old(self).receiving@, seq![chunk@], old(self).max_bytes as nat) == if r is Ok {
                Some(final(self).receiving@)
            } else {
                None::<Seq<u8>>
            },
            old(self).receiving@.len() + chunk@.len() > old(self).max_bytes ==> {
                &&& r matches Err(ApiError::Validation(ValidationKind::SizeExceeded { limit }))
                &&& limit == old(self).max_bytes
                &&& final(self).receiving@ == old(self).receiving@
            },
            old(self).receiving@.len() + chunk@.len() <= old(self).max_bytes ==> {
                &&& r is Ok
                &&& final(self).receiving@ == old(self).receiving@ + chunk@
            },
    {
        if chunk.len() as u64 > self.max_bytes - self.receiving.len() as u64 {
            return Err(ApiError::Validation(ValidationKind::SizeExceeded { limit: self.max_bytes }));
        }
        self.receiving.extend_from_slice(chunk);
        assert(self.receiving@ =~= old(self).receiving@ + chunk@);
        assert(seq![chunk@].drop_first() =~= Seq::<Seq<u8>>::empty());
        assert(feed(self.receiving@, Seq::<Seq<u8>>::empty(), self.max_bytes as nat) == Some(
            self.receiving@,
        ));
        Ok(())
    }

    /// The image part ends; it carried `filename` (if any). A later image
    /// part replaces an earlier one.
    pub fn end_image(&mut self, filename: Option<String>)
        requires
            old(self).wf(),
        ensures
            final(self).wf(),
            final(self).max_bytes == old(self).max_bytes,
            final(self).receiving@.len() == 0,
            final(self).image == Some(old(self).receiving),
            final(self).filename == filename,
            final(self).params == old(self).params,
    {
        let mut done: Vec<u8> = Vec::new();
        std::mem::swap(&mut done, &mut self.receiving);
        self.image = Some(done);
        self.filename = filename;
    }

    /// The whole part named `params` has arrived.
    pub fn accept_params(&mut self, doc: &[u8]) -> (r: Result<(), ApiError>)
        requires
            old(self).wf(),
        ensures
            final(self).wf(),
            final(self).max_bytes == old(self).max_bytes,
            final(self).receiving == old(self).receiving,
            final(self).image == old(self).image,
            final(self).filename == old(self).filename,
            r.is_ok() == document_readable(doc@),
            r.is_ok() ==> (final(self).params matches Some(p) && params_from_document(p, doc@)),
            r.is_err() ==> r == Err::<(), ApiError>(
                ApiError::Validation(ValidationKind::MalformedOptions),
            ) && final(self).params == old(self).params,
    {
        match parse_params(doc) {
            Ok(p) => {
                self.params = Some(p);
                Ok(())
            },
            Err(e) => Err(e),
        }
    }

    /// The body has ended: the image and its filename, with the options
    /// (all defaults where no options part came).
    pub fn finish(self) -> (r: Result<(UploadedImage, ConvertParams), ApiError>)
        requires
            self.wf(),
        ensures
            self.image.is_none() ==> r matches Err(
                ApiError::Validation(ValidationKind::MissingImage),
            ),
            self.image.is_some() && self.filename.is_none() ==> r matches Err(
                ApiError::Validation(ValidationKind::MissingFilename),
            ),
            self.image.is_some() && self.filename.is_some() ==> (r matches Ok((u, p)) && {
                &&& u.bytes == self.image.unwrap()
                &&& u.filename == self.filename.unwrap()
                &&& u.bytes@.len() <= self.max_bytes
                &&& match self.params {
                    Some(q) => p == q,
                    None => is_default_options(p.conversion_spec()) && p.response_type@
                        == "webp"@,
                }
            }),
    {
        let bytes = match self.image {
            Some(b) => b,
            None => return Err(ApiError::Validation(ValidationKind::MissingImage)),
        };
        let filename = match self.filename {
            Some(f) => f,
            None => return Err(ApiError::Validation(ValidationKind::MissingFilename)),
        };
        let params = match self.params {
            Some(p) => p,
            None => ConvertParams::default(),
        };
        Ok((UploadedImage { bytes, filename }, params))
    }
}

} // verus!
