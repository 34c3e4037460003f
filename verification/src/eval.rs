//! What an arithmetic expression of a script can refer to.
//!
//! An expression is evaluated by a kernel. While it does so it asks what a
//! name stands for and which function a word is; the answers are given here.
use crate::interpret::InterpreterState;
use crate::structs::Real;
use crate::utils::GObject;
use vstd::prelude::*;

verus! {

/// What a name in an expression stands for.
#[derive(Debug, Clone, Copy)]
pub enum Variable {
    /// `pi`: the ratio of a circle's circumference to its diameter.
    Pi,
    /// `e`: the base of the natural logarithm.
    E,
    /// `deg`: one degree as an angle, the 180th part of `pi`.
    Deg,
    /// A number that the script has named.
    Number(Real),
}

/// A function of one number that an expression can call.
#[derive(Debug, Clone, Copy, PartialEq, Eq, Structural)]
pub enum Intrinsic {
    Sqrt,
    Sin,
    Cos,
    Tan,
}

/// Why a word with arguments is no call of a function.
#[derive(Debug, Clone, Copy, PartialEq, Eq, Structural)]
pub enum FuncEvalError {
    TooFewArguments,
    UnknownFunction,
}

/// What `key` stands for in an expression, with the objects `env` named: one
/// of the three constants, else the number bound to it. A name that is bound
/// to something else stands for nothing, like one that is not bound.
pub open spec fn variable<L>(env: Map<Seq<char>, GObject<L>>, key: Seq<char>) -> Option<Variable> {
    if key == "pi"@ {
        Some(Variable::Pi)
    } else if key == "e"@ {
        Some(Variable::E)
    } else if key == "deg"@ {
        Some(Variable::Deg)
    } else if env.contains_key(key) {
        match env[key] {
            GObject::Number(x) => Some(Variable::Number(x)),
            _ => None,
        }
    } else {
        None
    }
}

/// The function that `name` calls with `args` arguments. Each of the four
/// functions takes the first argument and needs one.
pub open spec fn function(name: Seq<char>, args: nat) -> Result<Intrinsic, FuncEvalError> {
    let f = if name == "sqrt"@ {
        Some(Intrinsic::Sqrt)
    } else if name == "sin"@ {
        Some(Intrinsic::Sin)
    } else if name == "cos"@ {
        Some(Intrinsic::Cos)
    } else if name == "tan"@ {
        Some(Intrinsic::Tan)
    } else {
        None
    };
    match f {
        None => Err(FuncEvalError::UnknownFunction),
        Some(f) => if args < 1 {
            Err(FuncEvalError::TooFewArguments)
        } else {
            Ok(f)
        },
    }
}

fn is(name: &String, word: &str) -> (r: bool)
    ensures
        r == (name@ == word@),
{
    let w = String::from_str(word);
    *name == w
}

impl<L: Copy> InterpreterState<L> {
    /// What `key` stands for in an expression.
    pub fn get_var(&self, key: &str) -> (r: Option<Variable>)
        ensures
            r == variable(self.env(), key@),
    {
        let k = String::from_str(key);
        if is(&k, "pi") {
            Some(Variable::Pi)
        } else if is(&k, "e") {
            Some(Variable::E)
        } else if is(&k, "deg") {
            Some(Variable::Deg)
        } else {
            match self.get(key) {
                Some(GObject::Number(x)) => Some(Variable::Number(x)),
                _ => None,
            }
        }
    }

    /// The function that `name` calls in an expression with `args` arguments.
    pub fn eval_func(&self, name: &str, args: usize) -> (r: Result<Intrinsic, FuncEvalError>)
        ensures
            r == function(name@, args as nat),
    {
        let n = String::from_str(name);
        let f = if is(&n, "sqrt") {
            Intrinsic::Sqrt
        } else if is(&n, "sin") {
            Intrinsic::Sin
        } else if is(&n, "cos") {
            Intrinsic::Cos
        } else if is(&n, "tan") {
            Intrinsic::Tan
        } else {
            return Err(FuncEvalError::UnknownFunction);
        };
        if args < 1 {
            Err(FuncEvalError::TooFewArguments)
        } else {
            Ok(f)
        }
    }
}

} // verus!
