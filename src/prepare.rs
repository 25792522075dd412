use vstd::prelude::*;
use crate::compile::{compile_function, function_result, lemma_run_err, run, step, State};
use crate::error::{Error, ErrorKind};
use crate::isa;
use crate::module::Module;

verus! {

/// The compiled code of the first `n` function bodies of `m`, in index
/// order, or the error of the first of them that fails.
pub open spec fn module_result(m: Module, n: nat) -> Result<Seq<Seq<isa::Instruction>>, Error>
    decreases n,
{
    if n == 0 {
        Ok(Seq::empty())
    } else {
        match module_result(m, (n - 1) as nat) {
            Ok(c) => match function_result(m, n - 1) {
                Ok(code) => Ok(c.push(code)),
                Err(e) => Err(e),
            },
            Err(e) => Err(e),
        }
    }
}

/// The result of validating every function body of `m`.
pub open spec fn validation_result(m: Module) -> Result<Seq<Seq<isa::Instruction>>, Error> {
    module_result(m, m.bodies@.len())
}

pub open spec fn code_map_view(c: Seq<isa::Instructions>) -> Seq<Seq<isa::Instruction>> {
    c.map_values(|i: isa::Instructions| i@)
}

/// A validated module together with the compiled code of each of its
/// functions, in function index order.
pub struct CompiledModule {
    pub code_map: Vec<isa::Instructions>,
    pub module: Module,
}

impl CompiledModule {
    pub open spec fn code_view(&self) -> Seq<Seq<isa::Instruction>> {
        code_map_view(self.code_map@)
    }
}

/// Collects the compiled code of each function as it is validated.
pub struct WasmiValidation {
    code_map: Vec<isa::Instructions>,
}

impl WasmiValidation {
    pub closed spec fn view(&self) -> Seq<Seq<isa::Instruction>> {
        code_map_view(self.code_map@)
    }

    pub fn new(_module: &Module) -> (r: WasmiValidation)
        ensures
            r@ == Seq::<Seq<isa::Instruction>>::empty(),
    {
        let r = WasmiValidation { code_map: Vec::new() };
        assert(r@ =~= Seq::<Seq<isa::Instruction>>::empty());
        r
    }

    pub fn on_function_validated(&mut self, _index: u32, output: isa::Instructions)
        ensures
            final(self)@ == old(self)@.push(output@),
    {
        self.code_map.push(output);
        assert(self@ =~= old(self)@.push(output@));
    }

    pub fn finish(self) -> (r: Vec<isa::Instructions>)
        ensures
            code_map_view(r@) == self@,
    {
        self.code_map
    }
}

/// Validates and compiles every function body of `m` in index order,
/// stopping at the first failure.
pub fn validate_module(m: &Module) -> (r: Result<Vec<isa::Instructions>, Error>)
    ensures
        match validation_result(*m) {
            Ok(c) => r is Ok && code_map_view(r->Ok_0@) == c,
            Err(e) => r == Err::<Vec<isa::Instructions>, Error>(e),
        },
{
    let mut v = WasmiValidation::new(m);
    let mut i: usize = 0;
    while i < m.bodies.len()
        invariant
            i <= m.bodies@.len(),
            module_result(*m, i as nat) == Ok::<Seq<Seq<isa::Instruction>>, Error>(v@),
        decreases m.bodies@.len() - i,
    {
        match compile_function(m, i) {
            Ok(code) => {
                v.on_function_validated(i as u32, code);
            },
            Err(e) => {
                proof {
                    lemma_module_err(*m, (i + 1) as nat, m.bodies@.len());
                }
                return Err(e);
            },
        }
        i = i + 1;
    }
    Ok(v.finish())
}

/// Validate a module and compile it to the internal representation.
pub fn compile_module(module: Module) -> (r: Result<CompiledModule, Error>)
    ensures
        match validation_result(module) {
            Ok(c) => r is Ok && r->Ok_0.code_view() == c && r->Ok_0.module == module,
            Err(e) => r == Err::<CompiledModule, Error>(e),
        },
{
    match validate_module(&module) {
        Ok(code_map) => Ok(CompiledModule { module, code_map }),
        Err(e) => Err(e),
    }
}

/// Once a prefix of the function bodies fails, the module fails the same way.
pub proof fn lemma_module_err(m: Module, j: nat, n: nat)
    requires
        j <= n,
        module_result(m, j) is Err,
    ensures
        module_result(m, n) == module_result(m, j),
    decreases n,
{
    if n > j {
        lemma_module_err(m, j, (n - 1) as nat);
    }
}

/// When the first `n` function bodies are each valid, the first `n` entries
/// of the code map are their compiled code, in index order.
pub proof fn lemma_prefix_valid(m: Module, n: nat)
    requires
        forall|f: int| 0 <= f < n ==> (#[trigger] function_result(m, f)) is Ok,
    ensures
        module_result(m, n) is Ok,
        module_result(m, n)->Ok_0.len() == n,
        forall|f: int|
            0 <= f < n ==> module_result(m, n)->Ok_0[f] == (#[trigger] function_result(m, f))->Ok_0,
    decreases n,
{
    if n > 0 {
        lemma_prefix_valid(m, (n - 1) as nat);
        assert(function_result(m, n - 1) is Ok);
    }
}

/// A module whose function bodies are all valid compiles, with one compiled
/// function per body, each at its own index.
pub proof fn lemma_valid_module_compiles(m: Module)
    requires
        forall|f: int| 0 <= f < m.bodies@.len() ==> (#[trigger] function_result(m, f)) is Ok,
    ensures
        validation_result(m) is Ok,
        validation_result(m)->Ok_0.len() == m.bodies@.len(),
        forall|f: int|
            0 <= f < m.bodies@.len() ==> validation_result(m)->Ok_0[f] == (#[trigger] function_result(
                m,
                f,
            ))->Ok_0,
{
    lemma_prefix_valid(m, m.bodies@.len());
}

/// If every function before `f` is valid, and instruction `pos` of function
/// `f` is reached with its operands not satisfying its typing rule, then
/// validation fails with a type error naming that instruction.
pub proof fn lemma_type_error_reported(m: Module, f: int, pos: int, s: State)
    requires
        0 <= f < m.bodies@.len(),
        forall|g: int| 0 <= g < f ==> (#[trigger] function_result(m, g)) is Ok,
        m.body_signature(f) is Some,
        0 <= pos < m.bodies@[f].code@.len(),
        run(
            m,
            m.body_signature(f)->Some_0.params@,
            m.bodies@[f].locals@,
            m.body_signature(f)->Some_0.result,
            m.bodies@[f].code@,
            pos as nat,
        ) == Ok::<State, (ErrorKind, usize)>(s),
        step(
            m,
            m.body_signature(f)->Some_0.params@,
            m.bodies@[f].locals@,
            s,
            m.bodies@[f].code@[pos],
        ) == Err::<State, ErrorKind>(ErrorKind::Type),
    ensures
        validation_result(m) == Err::<Seq<Seq<isa::Instruction>>, Error>(
            Error::Type { func: f as usize, pos: pos as usize },
        ),
{
    let sig = m.body_signature(f)->Some_0;
    let body = m.bodies@[f];
    lemma_run_err(
        m,
        sig.params@,
        body.locals@,
        sig.result,
        body.code@,
        (pos + 1) as nat,
        body.code@.len(),
    );
    lemma_prefix_valid(m, f as nat);
    assert(module_result(m, (f + 1) as nat) is Err);
    lemma_module_err(m, (f + 1) as nat, m.bodies@.len());
}

/// Validation is deterministic: any two results that meet the contract of
/// `compile_module` on the same module agree.
pub proof fn lemma_validation_deterministic(
    m: Module,
    r1: Result<Seq<Seq<isa::Instruction>>, Error>,
    r2: Result<Seq<Seq<isa::Instruction>>, Error>,
)
    requires
        r1 == validation_result(m),
        r2 == validation_result(m),
    ensures
        r1 == r2,
{
}

} // verus!
