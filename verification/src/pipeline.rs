//! The pipeline cache: one compiled rendering program per fractal kind,
//! created on first use and kept for the life of the process.
//!
//! Compiling is the business of whoever owns the device. This module
//! decides what to compile and when: it hands the description of the
//! pipeline to a builder on a miss, and never on a hit.

use crate::fractal::{FractalKind, Fractals};
use crate::grimoire::{INFO_BUFFER_SIZE, STORAGE_BUFFER_SIZE};
use crate::lookup::{contains_key, get, has_key, is_first_match};
use vstd::prelude::*;
use vstd::std_specs::cmp::PartialEqSpec;

verus! {

/// Why no shader could be made from a formula.
#[derive(Debug, Clone, Copy, PartialEq, Eq, Structural)]
pub enum ShaderError {
    /// The formula holds a character outside its alphabet; this is the
    /// first such character.
    InvalidCharacter(char),
    /// No shader is made from a formula yet.
    Unsupported,
}

/// The fragment programs that come with the service, one per built-in kind.
#[derive(Debug, Clone, Copy, PartialEq, Eq, Structural)]
pub enum FragmentShader {
    Mandelbrot,
    BurningShip,
    Tricorn,
    Feather,
    Eye,
}

/// What to create for one kind: the fragment program, and the sizes in
/// bytes of the uniform buffer (binding 0) and of the read-only color
/// storage buffer (binding 1) that the binding set links to it.
#[derive(Debug, Clone, Copy, PartialEq, Eq, Structural)]
pub struct PipelinePlan {
    pub fragment: FragmentShader,
    pub info_buffer_size: u64,
    pub storage_buffer_size: u64,
}

/// Why there is no pipeline for a kind.
#[derive(Debug, Clone, Copy, PartialEq, Eq, Structural)]
pub enum CompilationError {
    /// The kind has no shader.
    Shader(ShaderError),
    /// The builder produced no pipeline.
    Failed,
}

/// A character of the alphabet of formulas: a digit, one of
/// `. * / - + ( ) ^ ;`, a space, or one of the variables `Z` and `C`.
pub open spec fn is_formula_char(c: char) -> bool {
    ||| '0' <= c <= '9'
    ||| c == '.'
    ||| c == '*'
    ||| c == '/'
    ||| c == '-'
    ||| c == '+'
    ||| c == '('
    ||| c == ')'
    ||| c == '^'
    ||| c == ';'
    ||| c == ' '
    ||| c == 'Z'
    ||| c == 'C'
}

/// `i` is the position of the first character of `formula` that is outside
/// the alphabet.
pub open spec fn first_invalid_at(formula: Seq<char>, i: int) -> bool {
    &&& 0 <= i < formula.len()
    &&& !is_formula_char(formula[i])
    &&& forall|j: int| 0 <= j < i ==> is_formula_char(#[trigger] formula[j])
}

/// Why `formula` gives no shader: its first character outside the
/// alphabet, or, where it has none, that formulas are not supported.
pub open spec fn formula_error(formula: Seq<char>) -> ShaderError {
    if exists|i: int| first_invalid_at(formula, i) {
        ShaderError::InvalidCharacter(formula[choose|i: int| first_invalid_at(formula, i)])
    } else {
        ShaderError::Unsupported
    }
}

/// The fragment program of a built-in kind.
pub open spec fn builtin_shader(kind: FractalKind) -> Option<FragmentShader> {
    match kind {
        FractalKind::Mandelbrot => Some(FragmentShader::Mandelbrot),
        FractalKind::BurningShip => Some(FragmentShader::BurningShip),
        FractalKind::Tricorn => Some(FragmentShader::Tricorn),
        FractalKind::Feather => Some(FragmentShader::Feather),
        FractalKind::Eye => Some(FragmentShader::Eye),
        FractalKind::Custom(_) => None,
    }
}

/// What compiling `kind` starts from: the plan of a built-in kind, or the
/// reason why a custom kind has none.
pub open spec fn pipeline_plan(kind: FractalKind) -> Result<PipelinePlan, ShaderError> {
    match kind {
        FractalKind::Custom(formula) => Err(formula_error(formula)),
        _ => Ok(
            PipelinePlan {
                fragment: builtin_shader(kind).unwrap(),
                info_buffer_size: INFO_BUFFER_SIZE,
                storage_buffer_size: STORAGE_BUFFER_SIZE,
            },
        ),
    }
}

fn formula_char(c: char) -> (valid: bool)
    ensures
        valid == is_formula_char(c),
{
    ('0' <= c && c <= '9') || c == '.' || c == '*' || c == '/' || c == '-' || c == '+' || c == '('
        || c == ')' || c == '^' || c == ';' || c == ' ' || c == 'Z' || c == 'C'
}

/// Makes the source of a fragment program from a formula.
///
/// The service makes no such shaders so far: every formula is refused,
/// one with a character outside the alphabet for that character, any
/// other as unsupported.
pub fn generate_formula_shader(formula: &str) -> (shader: Result<String, ShaderError>)
    ensures
        shader matches Err(e) && e == formula_error(formula@),
{
    let n = formula.unicode_len();
    let mut i: usize = 0;
    while i < n
        invariant
            n == formula@.len(),
            i <= n,
            forall|j: int| 0 <= j < i ==> is_formula_char(#[trigger] formula@[j]),
        decreases n - i,
    {
        let c = formula.get_char(i);
        if !formula_char(c) {
            assert(first_invalid_at(formula@, i as int));
            return Err(ShaderError::InvalidCharacter(c));
        }
        i += 1;
    }
    Err(ShaderError::Unsupported)
}

/// Describes the pipeline for rendering a specific type of fractal: the
/// fragment program of the kind, the uniform buffer and the color storage
/// buffer. All kinds share one vertex program.
pub fn generate_pipeline(fractal: &Fractals) -> (plan: Result<PipelinePlan, ShaderError>)
    ensures
        plan == pipeline_plan(fractal@),
{
    let fragment = match fractal {
        Fractals::Custom(formula) => {
            match generate_formula_shader(formula.as_str()) {
                Ok(_) => {
                    return Err(ShaderError::Unsupported);
                },
                Err(e) => {
                    return Err(e);
                },
            }
        },
        Fractals::Mandelbrot => FragmentShader::Mandelbrot,
        Fractals::BurningShip => FragmentShader::BurningShip,
        Fractals::Tricorn => FragmentShader::Tricorn,
        Fractals::Feather => FragmentShader::Feather,
        Fractals::Eye => FragmentShader::Eye,
    };
    Ok(
        PipelinePlan {
            fragment,
            info_buffer_size: INFO_BUFFER_SIZE,
            storage_buffer_size: STORAGE_BUFFER_SIZE,
        },
    )
}

/// The pipelines made so far, each with the kind it renders. `P` is
/// whatever the owner of the device keeps for a compiled pipeline.
pub struct PipelineStore<P> {
    entries: Vec<(Fractals, P)>,
}

/// `kind` has an entry in `entries`.
pub open spec fn has_pipeline<P>(entries: Seq<(FractalKind, P)>, kind: FractalKind) -> bool {
    exists|i: int| 0 <= i < entries.len() && (#[trigger] entries[i]).0 == kind
}

/// No kind has two entries.
pub open spec fn kinds_distinct<P>(entries: Seq<(FractalKind, P)>) -> bool {
    forall|i: int, j: int|
        0 <= i < j < entries.len() ==> (#[trigger] entries[i]).0 != (#[trigger] entries[j]).0
}

/// One request for `kind` leads from `before` to `after`: nothing changes
/// where `kind` has an entry, and one entry for `kind` is appended where it
/// has none.
pub open spec fn requested<P>(
    before: Seq<(FractalKind, P)>,
    kind: FractalKind,
    after: Seq<(FractalKind, P)>,
) -> bool {
    if has_pipeline(before, kind) {
        after == before
    } else {
        exists|pipeline: P| after == before.push((kind, pipeline))
    }
}

impl<P> View for PipelineStore<P> {
    type V = Seq<(FractalKind, P)>;

    closed spec fn view(&self) -> Seq<(FractalKind, P)> {
        Seq::new(self.entries@.len(), |i: int| (self.entries@[i].0@, self.entries@[i].1))
    }
}

impl<P> PipelineStore<P> {
    /// What holds of every store: no kind has two pipelines.
    pub open spec fn well_formed(&self) -> bool {
        kinds_distinct(self@)
    }

    /// A store without pipelines.
    pub fn new() -> (store: PipelineStore<P>)
        ensures
            store@ == Seq::<(FractalKind, P)>::empty(),
            store.well_formed(),
    {
        let store = PipelineStore { entries: Vec::new() };
        store
    }

    /// The number of pipelines made so far.
    pub fn len(&self) -> (count: usize)
        ensures
            count == self@.len(),
    {
        self.entries.len()
    }

    /// Whether `kind` has a pipeline.
    pub fn contains(&self, kind: &Fractals) -> (found: bool)
        ensures
            found == has_pipeline(self@, kind@),
    {
        let found = contains_key(&self.entries, kind);
        proof {
            self.lemma_keys(kind);
        }
        found
    }

    /// The pipeline of `kind`, where it has one.
    pub fn get(&self, kind: &Fractals) -> (pipeline: Option<&P>)
        ensures
            match pipeline {
                Some(p) => exists|i: int|
                    0 <= i < self@.len() && #[trigger] self@[i] == (kind@, *p),
                None => !has_pipeline(self@, kind@),
            },
    {
        let pipeline = get(&self.entries, kind);
        proof {
            self.lemma_keys(kind);
            match pipeline {
                Some(p) => {
                    let i = choose|i: int|
                        is_first_match(self.entries@, kind, i) && *p == (
                        #[trigger] self.entries@[i]).1;
                    assert(self@[i] == (kind@, *p));
                },
                None => {},
            }
        }
        pipeline
    }

    /// Makes sure that `kind` has a pipeline. Where it has one already,
    /// nothing happens and `build` is not called. Where it has none,
    /// `build` is called once with the plan of the kind, and what it
    /// returns becomes the pipeline of the kind; a kind without a plan, or
    /// a builder that returns nothing, leaves the store as it was.
    pub fn get_or_create<F>(&mut self, kind: Fractals, build: F) -> (made: Result<
        (),
        CompilationError,
    >) where F: FnOnce(PipelinePlan) -> Option<P>
        requires
            old(self).well_formed(),
            !has_pipeline(old(self)@, kind@) ==> (pipeline_plan(kind@) matches Ok(plan)
                ==> build.requires((plan,))),
        ensures
            final(self).well_formed(),
            has_pipeline(old(self)@, kind@) ==> made is Ok && final(self)@ == old(self)@,
            !has_pipeline(old(self)@, kind@) ==> match pipeline_plan(kind@) {
                Err(e) => made == Err::<(), CompilationError>(CompilationError::Shader(e))
                    && final(self)@ == old(self)@,
                Ok(plan) => exists|built: Option<P>|
                    build.ensures((plan,), built) && match built {
                        Some(pipeline) => made is Ok && final(self)@ == old(self)@.push(
                            (kind@, pipeline),
                        ),
                        None => made == Err::<(), CompilationError>(CompilationError::Failed)
                            && final(self)@ == old(self)@,
                    },
            },
            made is Ok ==> requested(old(self)@, kind@, final(self)@),
            made is Ok ==> has_pipeline(final(self)@, kind@),
    {
        if self.contains(&kind) {
            return Ok(());
        }
        let plan = match generate_pipeline(&kind) {
            Ok(plan) => plan,
            Err(e) => {
                return Err(CompilationError::Shader(e));
            },
        };
        let built = build(plan);
        match built {
            Some(pipeline) => {
                let ghost before = self@;
                self.entries.push((kind, pipeline));
                proof {
                    assert(self@[before.len() as int].0 == kind@);
                    assert forall|i: int, j: int| 0 <= i < j < self@.len() implies (
                    #[trigger] self@[i]).0 != (#[trigger] self@[j]).0 by {
                        if j < before.len() {
                            assert(self@[i] == before[i] && self@[j] == before[j]);
                        } else {
                            assert(self@[i] == before[i]);
                        }
                    }
                }
                Ok(())
            },
            None => Err(CompilationError::Failed),
        }
    }

    /// The entries of the store have `kind` as a key exactly when the view
    /// of the store holds `kind`.
    proof fn lemma_keys(&self, kind: &Fractals)
        ensures
            has_key(self.entries@, kind) == has_pipeline(self@, kind@),
    {
        if has_key(self.entries@, kind) {
            let i = choose|i: int|
                0 <= i < self.entries@.len() && (#[trigger] self.entries@[i]).0.eq_spec(kind);
            assert(self@[i].0 == kind@);
        }
        if has_pipeline(self@, kind@) {
            let i = choose|i: int| 0 <= i < self@.len() && (#[trigger] self@[i]).0 == kind@;
        }
    }
}

/// Asking for the same kind twice makes exactly one pipeline: the second
/// request changes nothing, the two together add at most one entry, and
/// the store holds one entry for the kind and no more.
pub proof fn lemma_same_kind_compiles_once<P>(
    before: Seq<(FractalKind, P)>,
    kind: FractalKind,
    first: Seq<(FractalKind, P)>,
    second: Seq<(FractalKind, P)>,
)
    requires
        kinds_distinct(before),
        requested(before, kind, first),
        requested(first, kind, second),
    ensures
        second == first,
        first.len() == before.len() + (if has_pipeline(before, kind) {
            0int
        } else {
            1int
        }),
        kinds_distinct(second),
        exists|i: int|
            0 <= i < second.len() && (#[trigger] second[i]).0 == kind && forall|j: int|
                0 <= j < second.len() && (#[trigger] second[j]).0 == kind ==> j == i,
{
    if !has_pipeline(before, kind) {
        // the entry that the first request appended is the only one of its kind
        assert(first[before.len() as int].0 == kind);
        assert(kinds_distinct(first));
    }
    let i = choose|i: int| 0 <= i < first.len() && (#[trigger] first[i]).0 == kind;
    assert(forall|j: int| 0 <= j < second.len() && (#[trigger] second[j]).0 == kind ==> j == i);
}

} // verus!
