//! What a client asks for, and what it resolves to once defaults are filled
//! in and the values are checked.
//!
//! The three real-valued inputs (zoom and the two coordinates of the center)
//! are carried as the bit patterns of 32-bit IEEE-754 numbers. Two requests
//! are the same request exactly when they are for the same kind and resolve
//! to the same parameters, those three values bit for bit.

use crate::color::{
    lemma_split_not_empty, parse_all, parse_color_list, split_commas, Color, ColorError,
};
use crate::fractal::{text_view, FractalKind, Fractals, SimplifiedFractals};
use crate::grimoire::{
    default_colors, default_palette, DEFAULT_HEIGHT, DEFAULT_MAX_ITER, DEFAULT_MSAA,
    DEFAULT_NUM_COLORS, DEFAULT_POSITION_X, DEFAULT_POSITION_Y, DEFAULT_WIDTH, DEFAULT_ZOOM,
    MAX_COLORS,
};
use vstd::prelude::*;
use vstd::std_specs::cmp::PartialEqSpecImpl;
use vstd::utf8::encode_utf8;

verus! {

/// The exponent field of a 32-bit IEEE-754 number. A number whose exponent
/// bits are all set is an infinity or a NaN.
pub const EXPONENT_MASK: u32 = 0x7F80_0000;

/// The query of a render request. Every field is optional.
#[derive(Debug, Eq, Hash)]
pub struct RequestBody {
    pub width: Option<u32>,
    pub height: Option<u32>,
    pub formula: Option<String>,
    ///Strings representing hex colors split with ,
    pub colors: Option<String>,
    pub max_iterations: Option<u32>,
    pub num_colors: Option<u32>,
    /// Bits of the zoom.
    pub zoom: Option<u32>,
    /// Bits of the horizontal center.
    pub position_x: Option<u32>,
    /// Bits of the vertical center.
    pub position_y: Option<u32>,
    pub msaa: Option<u8>,
    pub smooth: Option<bool>,
    pub debug: Option<bool>,
}

/// A request query as a mathematical value: texts are their characters.
pub struct RequestQuery {
    pub width: Option<u32>,
    pub height: Option<u32>,
    pub formula: Option<Seq<char>>,
    pub colors: Option<Seq<char>>,
    pub max_iterations: Option<u32>,
    pub num_colors: Option<u32>,
    pub zoom: Option<u32>,
    pub position_x: Option<u32>,
    pub position_y: Option<u32>,
    pub msaa: Option<u8>,
    pub smooth: Option<bool>,
    pub debug: Option<bool>,
}

impl View for RequestBody {
    type V = RequestQuery;

    open spec fn view(&self) -> RequestQuery {
        RequestQuery {
            width: self.width,
            height: self.height,
            formula: text_view(self.formula),
            colors: text_view(self.colors),
            max_iterations: self.max_iterations,
            num_colors: self.num_colors,
            zoom: self.zoom,
            position_x: self.position_x,
            position_y: self.position_y,
            msaa: self.msaa,
            smooth: self.smooth,
            debug: self.debug,
        }
    }
}

fn same_text(a: &Option<String>, b: &Option<String>) -> (same: bool)
    ensures
        same == (text_view(*a) == text_view(*b)),
{
    match (a, b) {
        (Some(x), Some(y)) => *x == *y,
        (None, None) => true,
        _ => false,
    }
}

fn clone_text(text: &Option<String>) -> (copy: Option<String>)
    ensures
        copy == *text,
{
    match text {
        Some(s) => Some(s.clone()),
        None => None,
    }
}

impl RequestBody {
    /// A query that names nothing: every value takes its default.
    pub fn empty() -> (body: RequestBody)
        ensures
            body@ == (RequestQuery {
                width: None,
                height: None,
                formula: None,
                colors: None,
                max_iterations: None,
                num_colors: None,
                zoom: None,
                position_x: None,
                position_y: None,
                msaa: None,
                smooth: None,
                debug: None,
            }),
    {
        RequestBody {
            width: None,
            height: None,
            formula: None,
            colors: None,
            max_iterations: None,
            num_colors: None,
            zoom: None,
            position_x: None,
            position_y: None,
            msaa: None,
            smooth: None,
            debug: None,
        }
    }

    /// Whether the two queries agree in every field.
    pub fn same_query(&self, other: &RequestBody) -> (same: bool)
        ensures
            same == (self@ == other@),
    {
        self.width == other.width && self.height == other.height && same_text(
            &self.formula,
            &other.formula,
        ) && same_text(&self.colors, &other.colors) && self.max_iterations == other.max_iterations
            && self.num_colors == other.num_colors && self.zoom == other.zoom && self.position_x
            == other.position_x && self.position_y == other.position_y && self.msaa == other.msaa
            && self.smooth == other.smooth && self.debug == other.debug
    }
}

impl PartialEq for RequestBody {
    fn eq(&self, other: &RequestBody) -> (same: bool) {
        self.same_query(other)
    }
}

impl PartialEqSpecImpl for RequestBody {
    open spec fn obeys_eq_spec() -> bool {
        true
    }

    open spec fn eq_spec(&self, other: &RequestBody) -> bool {
        self@ == other@
    }
}

impl Clone for RequestBody {
    fn clone(&self) -> (copy: RequestBody)
        ensures
            copy == *self,
    {
        RequestBody {
            width: self.width,
            height: self.height,
            formula: clone_text(&self.formula),
            colors: clone_text(&self.colors),
            max_iterations: self.max_iterations,
            num_colors: self.num_colors,
            zoom: self.zoom,
            position_x: self.position_x,
            position_y: self.position_y,
            msaa: self.msaa,
            smooth: self.smooth,
            debug: self.debug,
        }
    }
}

/// Why a query was rejected.
#[derive(Debug, Clone, Copy, PartialEq, Eq, Structural)]
pub enum ValidationError {
    /// The custom kind was asked for without a formula.
    MissingFormula,
    /// The color list holds a piece that is not six hexadecimal digits.
    InvalidColorFormat,
    /// The color list holds more than `MAX_COLORS` colors.
    TooManyColors,
    /// The width or the height is zero.
    EmptyImage,
    /// The zoom or a coordinate of the center is an infinity or a NaN.
    NotFinite,
}

/// The parameters of one render, defaults filled in.
#[derive(Debug, Eq, Hash)]
pub struct RenderParameters {
    /// Bits of the horizontal center.
    pub position_x: u32,
    /// Bits of the vertical center, in the sign of the request.
    pub position_y: u32,
    /// Bits of the zoom.
    pub zoom: u32,
    pub max_iterations: u32,
    pub num_colors: u32,
    pub msaa: u8,
    pub smooth: bool,
    pub debug: bool,
    pub width: u32,
    pub height: u32,
    pub colors: Vec<Color>,
}

/// Render parameters as a mathematical value.
pub struct Parameters {
    pub position_x: u32,
    pub position_y: u32,
    pub zoom: u32,
    pub max_iterations: u32,
    pub num_colors: u32,
    pub msaa: u8,
    pub smooth: bool,
    pub debug: bool,
    pub width: u32,
    pub height: u32,
    pub colors: Seq<Color>,
}

impl View for RenderParameters {
    type V = Parameters;

    open spec fn view(&self) -> Parameters {
        Parameters {
            position_x: self.position_x,
            position_y: self.position_y,
            zoom: self.zoom,
            max_iterations: self.max_iterations,
            num_colors: self.num_colors,
            msaa: self.msaa,
            smooth: self.smooth,
            debug: self.debug,
            width: self.width,
            height: self.height,
            colors: self.colors@,
        }
    }
}

impl Parameters {
    /// What holds of every set of parameters that is rendered: the image
    /// is not empty, there are between one and `MAX_COLORS` colors, and
    /// the three real values are finite.
    pub open spec fn well_formed(self) -> bool {
        &&& self.width != 0
        &&& self.height != 0
        &&& 1 <= self.colors.len() <= MAX_COLORS
        &&& is_finite(self.zoom)
        &&& is_finite(self.position_x)
        &&& is_finite(self.position_y)
    }
}

/// The number with these bits is neither an infinity nor a NaN.
pub open spec fn is_finite(bits: u32) -> bool {
    bits & EXPONENT_MASK != EXPONENT_MASK
}

/// The value of an optional field, or its default.
pub open spec fn or_default<T>(value: Option<T>, default: T) -> T {
    match value {
        Some(v) => v,
        None => default,
    }
}

/// The colors that a query stands for: those of its list, or the default
/// palette where it has none.
pub open spec fn query_colors(colors: Option<Seq<char>>) -> Result<Seq<Color>, ColorError> {
    match colors {
        Some(text) => parse_all(split_commas(encode_utf8(text))),
        None => Ok(default_palette()),
    }
}

/// The parameters that a query resolves to, before they are checked. The
/// colors are given apart, as parsing them can fail.
pub open spec fn with_defaults(query: RequestQuery, colors: Seq<Color>) -> Parameters {
    Parameters {
        position_x: or_default(query.position_x, DEFAULT_POSITION_X),
        position_y: or_default(query.position_y, DEFAULT_POSITION_Y),
        zoom: or_default(query.zoom, DEFAULT_ZOOM),
        max_iterations: or_default(query.max_iterations, DEFAULT_MAX_ITER),
        num_colors: or_default(query.num_colors, DEFAULT_NUM_COLORS),
        msaa: or_default(query.msaa, DEFAULT_MSAA),
        smooth: or_default(query.smooth, false),
        debug: or_default(query.debug, false),
        width: or_default(query.width, DEFAULT_WIDTH),
        height: or_default(query.height, DEFAULT_HEIGHT),
        colors,
    }
}

/// What resolving a query yields. The checks come in this order: the syntax
/// of the colors, their number, the size of the image, the real values.
pub open spec fn resolve(query: RequestQuery) -> Result<Parameters, ValidationError> {
    match query_colors(query.colors) {
        Err(_) => Err(ValidationError::InvalidColorFormat),
        Ok(colors) => {
            let parameters = with_defaults(query, colors);
            if colors.len() > MAX_COLORS {
                Err(ValidationError::TooManyColors)
            } else if parameters.width == 0 || parameters.height == 0 {
                Err(ValidationError::EmptyImage)
            } else if !(is_finite(parameters.zoom) && is_finite(parameters.position_x)
                && is_finite(parameters.position_y)) {
                Err(ValidationError::NotFinite)
            } else {
                Ok(parameters)
            }
        },
    }
}

/// Whether the number with these bits is neither an infinity nor a NaN.
pub fn finite_bits(bits: u32) -> (finite: bool)
    ensures
        finite == is_finite(bits),
{
    bits & EXPONENT_MASK != EXPONENT_MASK
}

fn value_or<T: Copy>(value: Option<T>, default: T) -> (v: T)
    ensures
        v == or_default(value, default),
{
    match value {
        Some(v) => v,
        None => default,
    }
}

impl RequestBody {
    /// Fills in the defaults and checks the values.
    pub fn resolve(&self) -> (parameters: Result<RenderParameters, ValidationError>)
        ensures
            match parameters {
                Ok(p) => resolve(self@) == Ok::<Parameters, ValidationError>(p@),
                Err(e) => resolve(self@) == Err::<Parameters, ValidationError>(e),
            },
            parameters matches Ok(p) ==> p@.well_formed(),
    {
        let parsed = match &self.colors {
            Some(text) => parse_color_list(text.as_str()),
            None => Ok(default_colors()),
        };
        let colors = match parsed {
            Ok(colors) => colors,
            Err(_) => {
                return Err(ValidationError::InvalidColorFormat);
            },
        };
        proof {
            lemma_parsed_colors_not_empty(self@.colors);
        }
        if colors.len() > MAX_COLORS as usize {
            return Err(ValidationError::TooManyColors);
        }
        let parameters = RenderParameters {
            position_x: value_or(self.position_x, DEFAULT_POSITION_X),
            position_y: value_or(self.position_y, DEFAULT_POSITION_Y),
            zoom: value_or(self.zoom, DEFAULT_ZOOM),
            max_iterations: value_or(self.max_iterations, DEFAULT_MAX_ITER),
            num_colors: value_or(self.num_colors, DEFAULT_NUM_COLORS),
            msaa: value_or(self.msaa, DEFAULT_MSAA),
            smooth: value_or(self.smooth, false),
            debug: value_or(self.debug, false),
            width: value_or(self.width, DEFAULT_WIDTH),
            height: value_or(self.height, DEFAULT_HEIGHT),
            colors,
        };
        if parameters.width == 0 || parameters.height == 0 {
            return Err(ValidationError::EmptyImage);
        }
        if !(finite_bits(parameters.zoom) && finite_bits(parameters.position_x) && finite_bits(
            parameters.position_y,
        )) {
            return Err(ValidationError::NotFinite);
        }
        Ok(parameters)
    }
}

fn same_colors(a: &Vec<Color>, b: &Vec<Color>) -> (same: bool)
    ensures
        same == (a@ == b@),
{
    if a.len() != b.len() {
        return false;
    }
    let mut i: usize = 0;
    while i < a.len()
        invariant
            a@.len() == b@.len(),
            i <= a@.len(),
            forall|j: int| 0 <= j < i ==> a@[j] == b@[j],
        decreases a@.len() - i,
    {
        if a[i] != b[i] {
            return false;
        }
        i += 1;
    }
    assert(a@ =~= b@);
    true
}

fn clone_colors(colors: &Vec<Color>) -> (copy: Vec<Color>)
    ensures
        copy@ == colors@,
{
    let mut copy: Vec<Color> = Vec::new();
    let mut i: usize = 0;
    while i < colors.len()
        invariant
            i <= colors@.len(),
            copy@ == colors@.take(i as int),
        decreases colors@.len() - i,
    {
        copy.push(colors[i]);
        assert(colors@.take(i + 1) =~= colors@.take(i as int).push(colors@[i as int]));
        i += 1;
    }
    assert(colors@.take(colors@.len() as int) =~= colors@);
    copy
}

impl RenderParameters {
    /// Whether the parameters can be rendered: the image is not empty,
    /// there are between one and `MAX_COLORS` colors, and the three real
    /// values are finite.
    pub fn is_well_formed(&self) -> (ok: bool)
        ensures
            ok == self@.well_formed(),
    {
        self.width != 0 && self.height != 0 && 1 <= self.colors.len() && self.colors.len()
            <= MAX_COLORS as usize && finite_bits(self.zoom) && finite_bits(self.position_x)
            && finite_bits(self.position_y)
    }

    /// Whether the two sets of parameters agree in every value, the real
    /// values bit for bit and the colors one by one.
    pub fn same_parameters(&self, other: &RenderParameters) -> (same: bool)
        ensures
            same == (self@ == other@),
    {
        self.position_x == other.position_x && self.position_y == other.position_y && self.zoom
            == other.zoom && self.max_iterations == other.max_iterations && self.num_colors
            == other.num_colors && self.msaa == other.msaa && self.smooth == other.smooth
            && self.debug == other.debug && self.width == other.width && self.height
            == other.height && same_colors(&self.colors, &other.colors)
    }
}

impl PartialEq for RenderParameters {
    fn eq(&self, other: &RenderParameters) -> (same: bool) {
        self.same_parameters(other)
    }
}

impl PartialEqSpecImpl for RenderParameters {
    open spec fn obeys_eq_spec() -> bool {
        true
    }

    open spec fn eq_spec(&self, other: &RenderParameters) -> bool {
        self@ == other@
    }
}

impl Clone for RenderParameters {
    fn clone(&self) -> (copy: RenderParameters)
        ensures
            copy@ == self@,
    {
        RenderParameters {
            position_x: self.position_x,
            position_y: self.position_y,
            zoom: self.zoom,
            max_iterations: self.max_iterations,
            num_colors: self.num_colors,
            msaa: self.msaa,
            smooth: self.smooth,
            debug: self.debug,
            width: self.width,
            height: self.height,
            colors: clone_colors(&self.colors),
        }
    }
}

/// The fingerprint of a request: the kind that is rendered and the
/// parameters that the query resolves to. It is the key of the response
/// cache. Two requests have the same fingerprint exactly when they ask for
/// the same image: what a query leaves to a default, another may spell
/// out, and a formula counts only for the custom kind.
#[derive(Debug, Eq, Hash)]
pub struct RequestIdentifier {
    kind: Fractals,
    parameters: RenderParameters,
}

/// A fingerprint as a mathematical value.
pub struct Fingerprint {
    pub kind: FractalKind,
    pub parameters: Parameters,
}

/// The fingerprint of the request for `fractal` with `query`, or why the
/// request has none: a custom kind without its formula, or a query that
/// does not resolve.
pub open spec fn fingerprint(fractal: SimplifiedFractals, query: RequestQuery) -> Result<
    Fingerprint,
    ValidationError,
> {
    if !fractal.has_kind(query.formula) {
        Err(ValidationError::MissingFormula)
    } else {
        match resolve(query) {
            Err(e) => Err(e),
            Ok(parameters) => Ok(Fingerprint { kind: fractal.kind(query.formula), parameters }),
        }
    }
}

impl View for RequestIdentifier {
    type V = Fingerprint;

    closed spec fn view(&self) -> Fingerprint {
        Fingerprint { kind: self.kind@, parameters: self.parameters@ }
    }
}

impl RequestIdentifier {
    #[verifier::type_invariant]
    spec fn well_formed(self) -> bool {
        self.parameters@.well_formed()
    }

    /// The fingerprint of the request for `fractal` with `body`. A request
    /// that is not valid has none.
    pub fn new(fractal: SimplifiedFractals, body: &RequestBody) -> (identifier: Result<
        RequestIdentifier,
        ValidationError,
    >)
        ensures
            match identifier {
                Ok(id) => fingerprint(fractal, body@) == Ok::<Fingerprint, ValidationError>(id@),
                Err(e) => fingerprint(fractal, body@) == Err::<Fingerprint, ValidationError>(e),
            },
    {
        let kind = match fractal.try_into_fractals(clone_text(&body.formula)) {
            Some(kind) => kind,
            None => {
                return Err(ValidationError::MissingFormula);
            },
        };
        match body.resolve() {
            Ok(parameters) => Ok(RequestIdentifier { kind, parameters }),
            Err(e) => Err(e),
        }
    }

    /// The kind that is rendered.
    pub fn kind(&self) -> (kind: &Fractals)
        ensures
            kind@ == self@.kind,
    {
        &self.kind
    }

    /// The parameters of the render. They satisfy the invariant of render
    /// parameters.
    pub fn parameters(&self) -> (parameters: &RenderParameters)
        ensures
            parameters@ == self@.parameters,
            parameters@.well_formed(),
    {
        proof {
            use_type_invariant(self);
        }
        &self.parameters
    }

    /// Whether the two fingerprints are of the same request.
    pub fn same_request(&self, other: &RequestIdentifier) -> (same: bool)
        ensures
            same == (self@ == other@),
    {
        self.kind.same_kind(&other.kind) && self.parameters.same_parameters(&other.parameters)
    }
}

impl PartialEq for RequestIdentifier {
    fn eq(&self, other: &RequestIdentifier) -> (same: bool) {
        self.same_request(other)
    }
}

impl PartialEqSpecImpl for RequestIdentifier {
    open spec fn obeys_eq_spec() -> bool {
        true
    }

    open spec fn eq_spec(&self, other: &RequestIdentifier) -> bool {
        self@ == other@
    }
}

impl Clone for RequestIdentifier {
    fn clone(&self) -> (copy: RequestIdentifier)
        ensures
            copy@ == self@,
    {
        proof {
            use_type_invariant(self);
        }
        Self { kind: self.kind.clone(), parameters: self.parameters.clone() }
    }
}

/// A fingerprint holds parameters that can be rendered.
pub proof fn lemma_fingerprint_is_well_formed(fractal: SimplifiedFractals, query: RequestQuery)
    ensures
        fingerprint(fractal, query) matches Ok(f) ==> f.parameters.well_formed(),
{
    lemma_resolved_is_well_formed(query);
}

/// A query never stands for an empty list of colors: a color list has at
/// least one piece, and the default palette has five colors.
pub proof fn lemma_parsed_colors_not_empty(colors: Option<Seq<char>>)
    ensures
        query_colors(colors) matches Ok(list) ==> list.len() >= 1,
{
    match colors {
        Some(text) => {
            lemma_split_not_empty(encode_utf8(text));
        },
        None => {},
    }
}

/// The parameters that a query resolves to satisfy the invariant of render
/// parameters.
pub proof fn lemma_resolved_is_well_formed(query: RequestQuery)
    ensures
        resolve(query) matches Ok(p) ==> p.well_formed(),
{
    lemma_parsed_colors_not_empty(query.colors);
}

} // verus!
