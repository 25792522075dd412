use vstd::prelude::*;

verus! {

/// The width of a floating-point value type or instruction.
#[derive(Clone, Copy, Debug, PartialEq, Eq, Structural)]
pub enum FloatWidth {
    F32,
    F64,
}

/// Why a function body was rejected by its typing rules.
#[derive(Clone, Copy, Debug, PartialEq, Eq, Structural)]
pub enum ErrorKind {
    /// An operand type mismatch, a stack underflow, a stack height that does
    /// not match at a frame boundary, or a reference to a local, global,
    /// function or memory that does not exist.
    Type,
    /// Malformed block / loop / if / else / end nesting, or a branch to a
    /// nesting depth that does not exist.
    Control,
}

/// The one violated rule that stopped validation or a policy check.
#[derive(Clone, Copy, Debug, PartialEq, Eq, Structural)]
pub enum Error {
    /// Instruction `pos` of function body `func` broke its typing rule;
    /// `pos` equal to the body's length stands for the missing final `end`.
    Type { func: usize, pos: usize },
    /// Instruction `pos` of function body `func` broke the nesting rules.
    Control { func: usize, pos: usize },
    /// Function body `func` has no declared signature: the function index
    /// space lacks its entry, or the entry names a type that does not exist.
    Declaration { func: usize },
    /// Instruction `pos` of function body `func` uses a denied float width.
    FloatInstruction { func: usize, pos: usize, width: FloatWidth },
    /// The signature of function `func` has a denied float parameter or result.
    FloatSignature { func: usize },
    /// The initial pages of all memories add up to more than `max_pages`.
    MemoryPages { max_pages: u32 },
}

/// The character of decimal digit `d`.
pub open spec fn digit_char(d: nat) -> char {
    if d == 0 {
        '0'
    } else if d == 1 {
        '1'
    } else if d == 2 {
        '2'
    } else if d == 3 {
        '3'
    } else if d == 4 {
        '4'
    } else if d == 5 {
        '5'
    } else if d == 6 {
        '6'
    } else if d == 7 {
        '7'
    } else if d == 8 {
        '8'
    } else {
        '9'
    }
}

/// The decimal notation of `n`, without leading zeros.
pub open spec fn decimal(n: nat) -> Seq<char>
    decreases n,
{
    if n < 10 {
        seq![digit_char(n)]
    } else {
        decimal(n / 10) + seq![digit_char(n % 10)]
    }
}

fn digit_str(d: u32) -> (r: &'static str)
    requires
        d < 10,
    ensures
        r@ == seq![digit_char(d as nat)],
{
    proof {
        reveal_strlit("0");
        reveal_strlit("1");
        reveal_strlit("2");
        reveal_strlit("3");
        reveal_strlit("4");
        reveal_strlit("5");
        reveal_strlit("6");
        reveal_strlit("7");
        reveal_strlit("8");
        reveal_strlit("9");
    }
    let r = if d == 0 {
        "0"
    } else if d == 1 {
        "1"
    } else if d == 2 {
        "2"
    } else if d == 3 {
        "3"
    } else if d == 4 {
        "4"
    } else if d == 5 {
        "5"
    } else if d == 6 {
        "6"
    } else if d == 7 {
        "7"
    } else if d == 8 {
        "8"
    } else {
        "9"
    };
    assert(r@ =~= seq![digit_char(d as nat)]);
    r
}

/// Appends the decimal notation of `n`.
fn append_decimal(s: &mut String, n: u32)
    ensures
        final(s)@ == old(s)@ + decimal(n as nat),
    decreases n,
{
    if n >= 10 {
        append_decimal(s, n / 10);
    }
    s.append(digit_str(n % 10));
    proof {
        if n >= 10 {
            assert(final(s)@ =~= old(s)@ + decimal(n as nat));
        } else {
            assert(final(s)@ =~= old(s)@ + decimal(n as nat));
        }
    }
}

/// The diagnostic text of an error.
pub open spec fn message_text(e: Error) -> Seq<char> {
    match e {
        Error::Type { .. } => "type mismatch"@,
        Error::Control { .. } => "malformed control structure"@,
        Error::Declaration { .. } => "function without a signature"@,
        Error::FloatInstruction { width: FloatWidth::F32, .. } => "f32 Floating point operation denied"@,
        Error::FloatInstruction { width: FloatWidth::F64, .. } => "f64 Floating point operation denied"@,
        Error::FloatSignature { .. } => "Use of floating point types denied"@,
        Error::MemoryPages { max_pages } => "The WASM module is not allowed to have more than "@
            + decimal(max_pages as nat) + " pages of memory"@,
    }
}

impl Error {
    /// A human-readable diagnostic.
    pub fn message(&self) -> (r: String)
        ensures
            r@ == message_text(*self),
    {
        match self {
            Error::Type { .. } => String::from_str("type mismatch"),
            Error::Control { .. } => String::from_str("malformed control structure"),
            Error::Declaration { .. } => String::from_str("function without a signature"),
            Error::FloatInstruction { width: FloatWidth::F32, .. } => String::from_str(
                "f32 Floating point operation denied",
            ),
            Error::FloatInstruction { width: FloatWidth::F64, .. } => String::from_str(
                "f64 Floating point operation denied",
            ),
            Error::FloatSignature { .. } => String::from_str("Use of floating point types denied"),
            Error::MemoryPages { max_pages } => {
                let mut s = String::from_str("The WASM module is not allowed to have more than ");
                append_decimal(&mut s, *max_pages);
                s.append(" pages of memory");
                s
            },
        }
    }
}

} // verus!
