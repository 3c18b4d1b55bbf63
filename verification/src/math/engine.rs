//! Commands and results of the mesh worker, what is checked before sampling
//! begins, and how a command is answered.

use crate::math::examples::MathFunctionKind;
use crate::math::mesh::{CurveMesh, ParametricSurfaceMesh, SurfaceMesh};
use crate::text::{decimal_text, with_count};
use vstd::prelude::*;
use vstd::string::*;

verus! {

/// Commands that the control thread sends to the mesh worker. Parameter
/// ranges are pairs of the lower and the upper end, in any number type `P`.
pub enum MathCommand<P> {
    CompileSurface { code: String, x_range: (P, P), y_range: (P, P), resolution: usize },
    CompileParametricCurve { code: String, t_range: (P, P), samples: usize },
    CompileParametricSurface {
        code: String,
        u_range: (P, P),
        v_range: (P, P),
        u_samples: usize,
        v_samples: usize,
    },
    Stop,
}

/// What the mesh worker answers: a complete mesh, or the message of the
/// failure that kept it from making one.
pub enum MathResult<T> {
    Surface(SurfaceMesh<T>),
    ParametricCurve(CurveMesh<T>),
    ParametricSurface(ParametricSurfaceMesh<T>),
    Error(String),
}

/// The name of the function that a height field is read from.
pub const SURFACE_FUNCTION: &'static str = "f";

/// The name of the coordinate function of an axis of a curve or a parametric
/// surface; axes are numbered x = 0, y = 1, z = 2.
pub fn coordinate_function(axis: usize) -> (name: &'static str)
    ensures
        name@ == if axis == 0 {
            "fx"@
        } else if axis == 1 {
            "fy"@
        } else {
            "fz"@
        },
{
    if axis == 0 {
        "fx"
    } else if axis == 1 {
        "fy"
    } else {
        "fz"
    }
}

/// The number of arguments that the functions of a kind take: a height
/// field two, the coordinate functions of a curve one each, those of a
/// parametric surface two each.
pub open spec fn required_arity_spec(kind: MathFunctionKind) -> int {
    match kind {
        MathFunctionKind::Surface => 2,
        MathFunctionKind::ParametricCurve => 1,
        MathFunctionKind::ParametricSurface => 2,
    }
}

/// The number of arguments that the functions of a kind take.
pub fn required_arity(kind: MathFunctionKind) -> (arity: usize)
    ensures
        arity == required_arity_spec(kind),
{
    match kind {
        MathFunctionKind::Surface => 2,
        MathFunctionKind::ParametricCurve => 1,
        MathFunctionKind::ParametricSurface => 2,
    }
}

/// The source text that is compiled for a mesh command: the user's text
/// after a line that brings in the evaluator's mathematics library.
pub fn with_math_prelude(code: &str) -> (full: String)
    ensures
        full@ == "needs std.math;\n"@ + code@,
{
    let mut full = String::from_str("needs std.math;\n");
    full.append(code);
    full
}

/// Checks the height-field function `f` before any sampling: it takes two
/// arguments, or the command fails with a message that names the number it
/// takes.
pub fn check_surface_arity(arity: usize) -> (checked: Result<(), String>)
    ensures
        checked.is_ok() <==> arity == 2,
        checked matches Err(message) ==> message@ == "Function 'f' must take 2 arguments (x, y), got "@
            + decimal_text(arity as nat),
{
    if arity == 2 {
        Ok(())
    } else {
        Err(with_count("Function 'f' must take 2 arguments (x, y), got ", arity))
    }
}

/// Checks the coordinate functions `fx`, `fy` and `fz` of a curve before any
/// sampling: each takes one argument, or the command fails.
pub fn check_curve_arities(fx: usize, fy: usize, fz: usize) -> (checked: Result<(), String>)
    ensures
        checked.is_ok() <==> fx == 1 && fy == 1 && fz == 1,
        checked matches Err(message) ==> message@ == "Functions fx, fy, fz must each take 1 argument (t)"@,
{
    if fx == 1 && fy == 1 && fz == 1 {
        Ok(())
    } else {
        Err(String::from_str("Functions fx, fy, fz must each take 1 argument (t)"))
    }
}

/// Checks the coordinate functions `fx`, `fy` and `fz` of a parametric
/// surface before any sampling: each takes two arguments, or the command
/// fails.
pub fn check_parametric_surface_arities(fx: usize, fy: usize, fz: usize) -> (checked: Result<(), String>)
    ensures
        checked.is_ok() <==> fx == 2 && fy == 2 && fz == 2,
        checked matches Err(message) ==> message@
            == "Functions fx, fy, fz must each take 2 arguments (u, v)"@,
{
    if fx == 2 && fy == 2 && fz == 2 {
        Ok(())
    } else {
        Err(String::from_str("Functions fx, fy, fz must each take 2 arguments (u, v)"))
    }
}

/// Whether `answer` answers an attempt that gave `made`: the result that
/// `wrap` makes of the mesh, and no error to show; or the failure's message,
/// both as the result and as the error to show.
pub open spec fn is_answer<M, T>(
    made: Result<M, String>,
    wrap: spec_fn(M) -> MathResult<T>,
    answer: (MathResult<T>, Option<String>),
) -> bool {
    match made {
        Ok(mesh) => answer.0 == wrap(mesh) && answer.1.is_none(),
        Err(message) => {
            &&& answer.0 matches MathResult::Error(text)
            &&& text@ == message@
            &&& answer.1 matches Some(shown)
            &&& shown@ == message@
        },
    }
}

impl<T> MathResult<T> {
    /// The answer to a surface command and the error to show for it: the
    /// mesh and no error, or the failure's message as both.
    pub fn from_surface(outcome: Result<SurfaceMesh<T>, String>) -> (answer: (Self, Option<String>))
        ensures
            is_answer(outcome, |mesh: SurfaceMesh<T>| MathResult::Surface(mesh), answer),
    {
        match outcome {
            Ok(mesh) => (MathResult::Surface(mesh), None),
            Err(message) => {
                let shown = message.clone();
                (MathResult::Error(message), Some(shown))
            },
        }
    }

    /// The answer to a curve command and the error to show for it.
    pub fn from_curve(outcome: Result<CurveMesh<T>, String>) -> (answer: (Self, Option<String>))
        ensures
            is_answer(outcome, |mesh: CurveMesh<T>| MathResult::ParametricCurve(mesh), answer),
    {
        match outcome {
            Ok(mesh) => (MathResult::ParametricCurve(mesh), None),
            Err(message) => {
                let shown = message.clone();
                (MathResult::Error(message), Some(shown))
            },
        }
    }

    /// The answer to a parametric surface command and the error to show for
    /// it.
    pub fn from_parametric_surface(outcome: Result<ParametricSurfaceMesh<T>, String>) -> (answer: (
        Self,
        Option<String>,
    ))
        ensures
            is_answer(outcome, |mesh: ParametricSurfaceMesh<T>| MathResult::ParametricSurface(mesh), answer),
    {
        match outcome {
            Ok(mesh) => (MathResult::ParametricSurface(mesh), None),
            Err(message) => {
                let shown = message.clone();
                (MathResult::Error(message), Some(shown))
            },
        }
    }
}

/// What [`answer_command`] gives for a command: nothing for `Stop`, and for
/// a compile command the answer to one attempt of the builder of its kind on
/// the command's source text and parameters.
pub open spec fn command_answered<P, T, FS, FC, FP>(
    command: MathCommand<P>,
    surface: FS,
    curve: FC,
    parametric: FP,
    answer: Option<(MathResult<T>, Option<String>)>,
) -> bool where
    FS: Fn(String, (P, P), (P, P), usize) -> Result<SurfaceMesh<T>, String>,
    FC: Fn(String, (P, P), usize) -> Result<CurveMesh<T>, String>,
    FP: Fn(String, (P, P), (P, P), usize, usize) -> Result<ParametricSurfaceMesh<T>, String>,
 {
    match command {
        MathCommand::Stop => answer.is_none(),
        MathCommand::CompileSurface { code, x_range, y_range, resolution } => {
            &&& answer matches Some(given)
            &&& exists|made: Result<SurfaceMesh<T>, String>| #[trigger]
                call_ensures(surface, (code, x_range, y_range, resolution), made) && is_answer(
                    made,
                    |mesh: SurfaceMesh<T>| MathResult::Surface(mesh),
                    given,
                )
        },
        MathCommand::CompileParametricCurve { code, t_range, samples } => {
            &&& answer matches Some(given)
            &&& exists|made: Result<CurveMesh<T>, String>| #[trigger]
                call_ensures(curve, (code, t_range, samples), made) && is_answer(
                    made,
                    |mesh: CurveMesh<T>| MathResult::ParametricCurve(mesh),
                    given,
                )
        },
        MathCommand::CompileParametricSurface { code, u_range, v_range, u_samples, v_samples } => {
            &&& answer matches Some(given)
            &&& exists|made: Result<ParametricSurfaceMesh<T>, String>| #[trigger]
                call_ensures(parametric, (code, u_range, v_range, u_samples, v_samples), made) && is_answer(
                    made,
                    |mesh: ParametricSurfaceMesh<T>| MathResult::ParametricSurface(mesh),
                    given,
                )
        },
    }
}

/// Answers one command of the mesh worker. A compile command is handed to
/// the builder of its kind, which compiles the source text and samples it;
/// what the builder gives is answered whole: a complete mesh, or the message
/// of the failure and nothing of the mesh. `Stop` is not answered: it ends
/// the worker.
pub fn answer_command<P, T, FS, FC, FP>(command: MathCommand<P>, surface: &FS, curve: &FC, parametric: &FP) -> (answer:
    Option<(MathResult<T>, Option<String>)>) where
    FS: Fn(String, (P, P), (P, P), usize) -> Result<SurfaceMesh<T>, String>,
    FC: Fn(String, (P, P), usize) -> Result<CurveMesh<T>, String>,
    FP: Fn(String, (P, P), (P, P), usize, usize) -> Result<ParametricSurfaceMesh<T>, String>,

    requires
        forall|code: String, x: (P, P), y: (P, P), n: usize| call_requires(*surface, (code, x, y, n)),
        forall|code: String, t: (P, P), n: usize| call_requires(*curve, (code, t, n)),
        forall|code: String, u: (P, P), v: (P, P), n: usize, m: usize|
            call_requires(*parametric, (code, u, v, n, m)),
    ensures
        command_answered(command, *surface, *curve, *parametric, answer),
{
    match command {
        MathCommand::Stop => None,
        MathCommand::CompileSurface { code, x_range, y_range, resolution } => {
            let made = surface(code, x_range, y_range, resolution);
            let given = MathResult::from_surface(made);
            Some(given)
        },
        MathCommand::CompileParametricCurve { code, t_range, samples } => {
            let made = curve(code, t_range, samples);
            let given = MathResult::from_curve(made);
            Some(given)
        },
        MathCommand::CompileParametricSurface { code, u_range, v_range, u_samples, v_samples } => {
            let made = parametric(code, u_range, v_range, u_samples, v_samples);
            let given = MathResult::from_parametric_surface(made);
            Some(given)
        },
    }
}

} // verus!
