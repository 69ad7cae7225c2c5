//! The flow of one render request, as the steps between which the caller
//! does the work that needs the device.
//!
//! 1. `begin` validates the request, answers it from the response cache
//!    where its fingerprint has an image there, and hands back a render job
//!    where it has none.
//! 2. The caller makes sure the kind has a pipeline
//!    (`PipelineStore::get_or_create`); where that fails,
//!    `Reply::compilation_failed` is the answer.
//! 3. `RenderJob::prepare` gives the payloads and the plan of the render;
//!    the caller carries the plan out and reads the buffer back.
//! 4. `finish` turns the buffer into the image, stores it and answers.
//!
//! Every failure becomes a reply; no step panics.

use crate::cache::{cached, ResponseCache};
use crate::color::{flatten, to_raw_colors};
use crate::export::{arr_to_image, image_file, ExportError};
use crate::fractal::{Fractals, SimplifiedFractals};
use crate::pipeline::CompilationError;
use crate::render::{padded_bytes_per_row, row_pitch, RenderError, RenderPlan};
use crate::request::{
    fingerprint, with_defaults, Fingerprint, RenderParameters, RequestBody, RequestIdentifier,
    RequestQuery, ValidationError,
};
use crate::uniforms::{bytes_be, bytes_le, ShaderDataUniforms};
use vstd::prelude::*;

verus! {

/// The status of a reply that carries an image.
pub const OK: u16 = 200;

/// The status of a reply to a request that is not valid.
pub const BAD_REQUEST: u16 = 400;

/// The status of a reply to a failure of the service.
pub const INTERNAL_SERVER_ERROR: u16 = 500;

/// The status of a reply to a request for what is not implemented.
pub const NOT_IMPLEMENTED: u16 = 501;

/// What went wrong inside the service.
#[derive(Debug, Clone, Copy, PartialEq, Eq, Structural)]
pub enum Failure {
    Render(RenderError),
    Export(ExportError),
}

/// The answer to a request.
#[derive(Debug)]
pub enum Reply {
    /// The PNG file of the image.
    Image(Vec<u8>),
    /// The request is not valid.
    Invalid(ValidationError),
    /// The kind cannot be rendered: no shader is made from a formula yet.
    Unsupported,
    /// The service failed. The client learns no more than that.
    Failed(Failure),
}

/// A reply as a mathematical value.
pub enum Answer {
    Image(Seq<u8>),
    Invalid(ValidationError),
    Unsupported,
    Failed(Failure),
}

impl View for Reply {
    type V = Answer;

    open spec fn view(&self) -> Answer {
        match self {
            Reply::Image(bytes) => Answer::Image(bytes@),
            Reply::Invalid(e) => Answer::Invalid(*e),
            Reply::Unsupported => Answer::Unsupported,
            Reply::Failed(f) => Answer::Failed(*f),
        }
    }
}

impl Answer {
    /// The HTTP status of the answer.
    pub open spec fn status(self) -> u16 {
        match self {
            Answer::Image(_) => OK,
            Answer::Invalid(_) => BAD_REQUEST,
            Answer::Unsupported => NOT_IMPLEMENTED,
            Answer::Failed(_) => INTERNAL_SERVER_ERROR,
        }
    }

    /// The text that the client reads where the answer is no image.
    /// Failures of the service say nothing of their cause, but for a
    /// failed export.
    pub open spec fn message(self) -> &'static str {
        match self {
            Answer::Image(_) => "",
            Answer::Invalid(ValidationError::MissingFormula) => {
                "Formula should be specified to use custom fractal"
            },
            Answer::Invalid(ValidationError::InvalidColorFormat) => "Invalid color format",
            Answer::Invalid(ValidationError::TooManyColors) => "Too many colors",
            Answer::Invalid(ValidationError::EmptyImage) => "Width and height must not be zero",
            Answer::Invalid(ValidationError::NotFinite) => "Zoom and position must be finite",
            Answer::Unsupported => "",
            Answer::Failed(Failure::Export(_)) => "Unable to export image",
            Answer::Failed(Failure::Render(_)) => "",
        }
    }

    /// The content type of the body: that of a PNG file for an image, none
    /// for the text of any other answer.
    pub open spec fn content_type(self) -> Option<&'static str> {
        match self {
            Answer::Image(_) => Some("image/png"),
            _ => None,
        }
    }

    /// The answer to a kind without a pipeline: a kind that has no shader
    /// is not implemented, a pipeline that could not be made is a failure.
    pub open spec fn of_compilation(error: CompilationError) -> Answer {
        match error {
            CompilationError::Shader(_) => Answer::Unsupported,
            CompilationError::Failed => Answer::Failed(
                Failure::Render(RenderError::PipelineUnavailable),
            ),
        }
    }

    /// The answer to the outcome of the export.
    pub open spec fn of_export(file: Result<Seq<u8>, ExportError>) -> Answer {
        match file {
            Ok(bytes) => Answer::Image(bytes),
            Err(e) => Answer::Failed(Failure::Export(e)),
        }
    }
}

impl Reply {
    /// The HTTP status of the reply: 200 with an image, 400 for a request
    /// that is not valid, 501 for a kind that is not implemented, 500 for
    /// a failure of the service.
    pub fn status(&self) -> (code: u16)
        ensures
            code == self@.status(),
    {
        match self {
            Reply::Image(_) => OK,
            Reply::Invalid(_) => BAD_REQUEST,
            Reply::Unsupported => NOT_IMPLEMENTED,
            Reply::Failed(_) => INTERNAL_SERVER_ERROR,
        }
    }

    /// The text of the body where the reply is no image.
    pub fn message(&self) -> (text: &'static str)
        ensures
            text@ == self@.message()@,
    {
        match self {
            Reply::Image(_) => "",
            Reply::Invalid(ValidationError::MissingFormula) => {
                "Formula should be specified to use custom fractal"
            },
            Reply::Invalid(ValidationError::InvalidColorFormat) => "Invalid color format",
            Reply::Invalid(ValidationError::TooManyColors) => "Too many colors",
            Reply::Invalid(ValidationError::EmptyImage) => "Width and height must not be zero",
            Reply::Invalid(ValidationError::NotFinite) => "Zoom and position must be finite",
            Reply::Unsupported => "",
            Reply::Failed(Failure::Export(_)) => "Unable to export image",
            Reply::Failed(Failure::Render(_)) => "",
        }
    }

    /// The content type of the body where the reply is an image.
    pub fn content_type(&self) -> (kind: Option<&'static str>)
        ensures
            kind is Some <==> self@ is Image,
            kind matches Some(text) ==> self@.content_type() matches Some(expected) && text@
                == expected@,
    {
        match self {
            Reply::Image(_) => Some("image/png"),
            _ => None,
        }
    }

    /// The reply where the kind has no pipeline.
    pub fn compilation_failed(error: CompilationError) -> (reply: Reply)
        ensures
            reply@ == Answer::of_compilation(error),
    {
        match error {
            CompilationError::Shader(_) => Reply::Unsupported,
            CompilationError::Failed => Reply::Failed(
                Failure::Render(RenderError::PipelineUnavailable),
            ),
        }
    }

    /// The reply where the render could not be planned or carried out.
    pub fn render_failed(error: RenderError) -> (reply: Reply)
        ensures
            reply@ == Answer::Failed(Failure::Render(error)),
    {
        Reply::Failed(Failure::Render(error))
    }
}

/// A validated request on its way to the renderer.
#[derive(Debug)]
pub struct RenderJob {
    /// The fingerprint of the request: what is rendered, and the key under
    /// which the image will be stored.
    pub identifier: RequestIdentifier,
}

/// What `begin` decides.
#[derive(Debug)]
pub enum Step {
    /// The request is answered.
    Done(Reply),
    /// The request has to be rendered.
    Render(RenderJob),
}

/// What is decided on a request before anything is rendered.
pub enum Decision {
    Answer(Answer),
    Render(Fingerprint),
}

/// The decision on the request for `fractal` with `query`, given what the
/// response cache holds. The request is checked first: that a custom kind
/// comes with its formula, then the query. A valid request whose
/// fingerprint, the kind and the resolved parameters, has an image in the
/// cache gets that image; any other valid request is rendered.
pub open spec fn decide(
    cache: Seq<(Fingerprint, Seq<u8>)>,
    fractal: SimplifiedFractals,
    query: RequestQuery,
) -> Decision {
    match fingerprint(fractal, query) {
        Err(e) => Decision::Answer(Answer::Invalid(e)),
        Ok(key) => match cached(cache, key) {
            Some(image) => Decision::Answer(Answer::Image(image)),
            None => Decision::Render(key),
        },
    }
}

fn clone_bytes(bytes: &Vec<u8>) -> (copy: Vec<u8>)
    ensures
        copy@ == bytes@,
{
    let copy = bytes.clone();
    assert(copy@ =~= bytes@);
    copy
}

/// Takes up the request for `fractal` with `body`: answers it with the
/// reason why it is not valid or from the cache, or hands it on to be
/// rendered.
pub fn begin(cache: &ResponseCache, fractal: SimplifiedFractals, body: &RequestBody) -> (step: Step)
    ensures
        match step {
            Step::Done(reply) => decide(cache@, fractal, body@) == Decision::Answer(reply@),
            Step::Render(job) => decide(cache@, fractal, body@) == Decision::Render(
                job.identifier@,
            ),
        },
{
    let identifier = match RequestIdentifier::new(fractal, body) {
        Ok(identifier) => identifier,
        Err(e) => {
            return Step::Done(Reply::Invalid(e));
        },
    };
    match cache.lookup(&identifier) {
        Some(image) => Step::Done(Reply::Image(clone_bytes(image))),
        None => Step::Render(RenderJob { identifier }),
    }
}

/// What is uploaded for one render, and the plan of the render.
#[derive(Debug)]
pub struct Upload {
    /// The bytes of the uniform record.
    pub uniforms: Vec<u8>,
    /// The channels of the colors, four for each color. Each travels to
    /// the storage buffer as the 32-bit float `channel / 255`.
    pub colors: Vec<u8>,
    pub plan: RenderPlan,
}

impl RenderJob {
    /// The kind that is rendered.
    pub fn kind(&self) -> (kind: &Fractals)
        ensures
            kind@ == self.identifier@.kind,
    {
        self.identifier.kind()
    }

    /// The parameters of the render.
    pub fn parameters(&self) -> (parameters: &RenderParameters)
        ensures
            parameters@ == self.identifier@.parameters,
            parameters@.well_formed(),
    {
        self.identifier.parameters()
    }

    /// The payloads and the plan of the render. `aspect` is the bits of the
    /// height of the image divided by its width.
    pub fn prepare(&self, aspect: u32) -> (upload: Result<Upload, RenderError>)
        ensures
            match upload {
                Ok(u) => {
                    &&& RenderPlan::possible(
                        4 * (self.identifier@.parameters.colors.len() as int),
                        self.identifier@.parameters.width,
                    )
                    &&& u.plan == RenderPlan::of(
                        4 * (self.identifier@.parameters.colors.len() as int),
                        self.identifier@.parameters.width,
                        self.identifier@.parameters.height,
                    )
                    &&& u.colors@ == flatten(self.identifier@.parameters.colors)
                    &&& u.uniforms@.len() == u.plan.uniform_size
                    &&& (u.uniforms@ == bytes_le(
                        ShaderDataUniforms::encoding(self.identifier@.parameters, aspect),
                    ) || u.uniforms@ == bytes_be(
                        ShaderDataUniforms::encoding(self.identifier@.parameters, aspect),
                    ))
                },
                Err(e) => e == RenderError::SizeOverflow && !RenderPlan::possible(
                    4 * (self.identifier@.parameters.colors.len() as int),
                    self.identifier@.parameters.width,
                ),
            },
    {
        let parameters = self.identifier.parameters();
        let data = ShaderDataUniforms::encode(parameters, aspect);
        let colors = to_raw_colors(parameters.colors.as_slice());
        let plan = match RenderPlan::new(colors.len(), parameters.width, parameters.height) {
            Ok(plan) => plan,
            Err(e) => {
                return Err(e);
            },
        };
        Ok(Upload { uniforms: data.bytes(), colors, plan })
    }
}

/// Answers a rendered request with the outcome of the export: an image is
/// stored in the cache under the fingerprint of the request and sent, a
/// failure is reported and leaves the cache as it was.
pub fn conclude(
    cache: &mut ResponseCache,
    identifier: RequestIdentifier,
    file: Result<Vec<u8>, ExportError>,
) -> (reply: Reply)
    ensures
        match file {
            Ok(bytes) => reply@ == Answer::Image(bytes@) && final(cache)@ == old(cache)@.push(
                (identifier@, bytes@),
            ),
            Err(e) => reply@ == Answer::Failed(Failure::Export(e)) && final(cache)@ == old(
                cache,
            )@,
        },
{
    match file {
        Ok(bytes) => {
            cache.store(identifier, clone_bytes(&bytes));
            Reply::Image(bytes)
        },
        Err(e) => Reply::Failed(Failure::Export(e)),
    }
}

/// The answer to a render of an image of `width` by `height` pixels that
/// left `raw` in the read-back buffer, whose rows are one row pitch apart.
pub open spec fn rendered(width: u32, height: u32, raw: Seq<u8>) -> Answer {
    if row_pitch(width) > u32::MAX {
        Answer::Failed(Failure::Render(RenderError::SizeOverflow))
    } else {
        Answer::of_export(image_file(raw, (row_pitch(width) / 4) as u32, width, height))
    }
}

/// Finishes a render: reads the image of the job out of the read-back
/// buffer `raw`, encodes it, stores the file in the cache under the
/// fingerprint of the job and answers with it. A failure is the answer
/// where the buffer cannot be read or encoded, and leaves the cache as it
/// was.
pub fn finish(cache: &mut ResponseCache, job: RenderJob, raw: &[u8]) -> (reply: Reply)
    ensures
        reply@ == rendered(
            job.identifier@.parameters.width,
            job.identifier@.parameters.height,
            raw@,
        ),
        final(cache)@ == (match reply@ {
            Answer::Image(bytes) => old(cache)@.push((job.identifier@, bytes)),
            _ => old(cache)@,
        }),
{
    let width = job.identifier.parameters().width;
    let height = job.identifier.parameters().height;
    let bytes_per_row = match padded_bytes_per_row(width) {
        Ok(pitch) => pitch,
        Err(e) => {
            return Reply::render_failed(e);
        },
    };
    let file = arr_to_image(raw, bytes_per_row / 4, width, height);
    conclude(cache, job.identifier, file)
}

/// A request that was rendered and answered with an image is answered with
/// the same image from then on, and so is every request with the same
/// fingerprint, whatever is rendered and stored in between: nothing is
/// rendered again for the same kind and the same resolved parameters.
pub proof fn lemma_repeated_request_is_cached(
    cache: Seq<(Fingerprint, Seq<u8>)>,
    fractal: SimplifiedFractals,
    query: RequestQuery,
    image: Seq<u8>,
    later: Seq<(Fingerprint, Seq<u8>)>,
    again: SimplifiedFractals,
    again_query: RequestQuery,
)
    requires
        decide(cache, fractal, query) matches Decision::Render(key),
        fingerprint(again, again_query) == fingerprint(fractal, query),
    ensures
        decide(
            cache.push((fingerprint(fractal, query)->Ok_0, image)) + later,
            again,
            again_query,
        ) == Decision::Answer(Answer::Image(image)),
    decreases later.len(),
{
    let key = fingerprint(fractal, query)->Ok_0;
    let stored = cache.push((key, image));
    crate::cache::lemma_store_then_lookup(cache, key, image);
    if later.len() > 0 {
        let head = later.drop_last();
        let last = later.last();
        lemma_repeated_request_is_cached(cache, fractal, query, image, head, again, again_query);
        assert(stored + later =~= (stored + head).push(last));
        crate::cache::lemma_store_keeps_lookups(stored + head, last.0, last.1, key);
    } else {
        assert(stored + later =~= stored);
    }
}

/// Two requests that differ only in what one leaves to a default and the
/// other spells out have the same fingerprint.
pub proof fn lemma_defaults_share_a_fingerprint(
    fractal: SimplifiedFractals,
    query: RequestQuery,
    other: RequestQuery,
)
    requires
        other.formula == query.formula,
        other.colors == query.colors,
        with_defaults(other, Seq::empty()) == with_defaults(query, Seq::empty()),
    ensures
        fingerprint(fractal, other) == fingerprint(fractal, query),
{
}

} // verus!
