//! Primal heuristics: when they may run and what they report.

use std::rc::Rc;
use vstd::prelude::*;
use vstd::std_specs::convert::FromSpecImpl;
use vstd::std_specs::ops::BitOrSpecImpl;
use crate::engine::Context;
use crate::model::Model;
use crate::model::Solving;

verus! {

/// A primal heuristic that the engine calls while it solves.
pub trait Heuristic {
    /// Runs the heuristic once.
    ///
    /// `model` is the session on the engine's context in the solving phase,
    /// `timing` the point of the solving loop at which the engine calls, and
    /// `node_inf` whether the current node is infeasible. The result says
    /// whether a solution was found, none was found, the heuristic did not
    /// run, or it asks to be called again later.
    fn execute(&mut self, model: Model<Solving>, timing: HeurTiming, node_inf: bool) -> HeurResult;
}

/// A boxed heuristic is a heuristic: a run of the box is a run of what it
/// holds.
impl<H: Heuristic + ?Sized> Heuristic for Box<H> {
    fn execute(&mut self, model: Model<Solving>, timing: HeurTiming, node_inf: bool) -> (result:
        HeurResult)
        ensures
            exists|call: &mut H|
                {
                    &&& #[trigger] call_ensures(H::execute, (call, model, timing, node_inf), result)
                    &&& same_value(&*call, &**old(self))
                    &&& same_value(&*final(call), &**final(self))
                },
    {
        let inner: &mut H = &mut **self;
        inner.execute(model, timing, node_inf)
    }
}

/// What a primal heuristic reports after one run.
#[derive(Debug, PartialEq, Eq, Structural, Clone, Copy)]
pub enum HeurResult {
    /// The heuristic found a new incumbent solution.
    FoundSol,
    /// The heuristic ran and found no new solution.
    NoSolFound,
    /// The heuristic was not executed.
    DidNotRun,
    /// The heuristic was skipped and should be called again.
    Delayed,
}

impl HeurResult {
    /// The engine's result code that stands for this result.
    pub open spec fn code(self) -> u32 {
        match self {
            HeurResult::FoundSol => 15u32,
            HeurResult::NoSolFound => 3u32,
            HeurResult::DidNotRun => 1u32,
            HeurResult::Delayed => 2u32,
        }
    }
}

impl From<HeurResult> for u32 {
    fn from(val: HeurResult) -> (code: u32) {
        match val {
            HeurResult::FoundSol => 15,
            HeurResult::NoSolFound => 3,
            HeurResult::DidNotRun => 1,
            HeurResult::Delayed => 2,
        }
    }
}

impl FromSpecImpl<HeurResult> for u32 {
    open spec fn obeys_from_spec() -> bool {
        true
    }

    open spec fn from_spec(val: HeurResult) -> u32 {
        val.code()
    }
}

/// A set of points in the solving loop at which a heuristic may run, one bit
/// for each point.
#[derive(Debug, Copy, Clone, PartialEq, Eq, Structural)]
pub struct HeurTiming(u64);

impl View for HeurTiming {
    type V = u64;

    closed spec fn view(&self) -> u64 {
        self.0
    }
}

impl HeurTiming {
    /// Before the processing of the node starts.
    pub fn before_node() -> (mask: HeurTiming)
        ensures
            mask@ == 0x001u64,
    {
        HeurTiming(0x001)
    }

    /// After each LP solve during the cut-and-price loop.
    pub fn during_lp_loop() -> (mask: HeurTiming)
        ensures
            mask@ == 0x002u64,
    {
        HeurTiming(0x002)
    }

    /// After the cut-and-price loop has finished.
    pub fn after_lp_loop() -> (mask: HeurTiming)
        ensures
            mask@ == 0x004u64,
    {
        HeurTiming(0x004)
    }

    /// After the processing of a node with solved LP has finished.
    pub fn after_lp_node() -> (mask: HeurTiming)
        ensures
            mask@ == 0x008u64,
    {
        HeurTiming(0x008)
    }

    /// After the processing of a node without solved LP has finished.
    pub fn after_pseudo_node() -> (mask: HeurTiming)
        ensures
            mask@ == 0x010u64,
    {
        HeurTiming(0x010)
    }

    /// After the last node of the current plunge, if its LP was solved.
    pub fn after_lp_plunge() -> (mask: HeurTiming)
        ensures
            mask@ == 0x020u64,
    {
        HeurTiming(0x020)
    }

    /// After the last node of the current plunge, if its LP was not solved.
    pub fn after_pseudo_plunge() -> (mask: HeurTiming)
        ensures
            mask@ == 0x040u64,
    {
        HeurTiming(0x040)
    }

    /// During the pricing loop.
    pub fn during_pricing_loop() -> (mask: HeurTiming)
        ensures
            mask@ == 0x080u64,
    {
        HeurTiming(0x080)
    }

    /// Before presolving.
    pub fn before_presol() -> (mask: HeurTiming)
        ensures
            mask@ == 0x100u64,
    {
        HeurTiming(0x100)
    }

    /// During the presolving loop.
    pub fn during_presol_loop() -> (mask: HeurTiming)
        ensures
            mask@ == 0x200u64,
    {
        HeurTiming(0x200)
    }

    /// After the propagation that precedes the LP solve.
    pub fn after_prop_loop() -> (mask: HeurTiming)
        ensures
            mask@ == 0x400u64,
    {
        HeurTiming(0x400)
    }

    /// Whether the mask and `point` have a bit in common: a heuristic with
    /// this mask may run at `point`.
    pub open spec fn meets(self, point: HeurTiming) -> bool {
        self@ & point@ != 0
    }

    /// The mask in the engine's narrower width: its low 32 bits.
    pub open spec fn native(self) -> u32 {
        (self@ & 0xffff_ffff) as u32
    }

    /// Adds the points of `rhs` to the mask.
    pub fn bitor_assign(&mut self, rhs: HeurTiming)
        ensures
            final(self)@ == old(self)@ | rhs@,
    {
        self.0 = self.0 | rhs.0;
    }

    /// Whether a heuristic with this mask may run at `point`.
    pub fn intersects(self, point: HeurTiming) -> (hit: bool)
        ensures
            hit == self.meets(point),
    {
        self.0 & point.0 != 0
    }
}

impl core::ops::BitOr for HeurTiming {
    type Output = HeurTiming;

    fn bitor(self, rhs: HeurTiming) -> (both: HeurTiming)
        ensures
            both@ == self@ | rhs@,
    {
        HeurTiming(self.0 | rhs.0)
    }
}

impl BitOrSpecImpl for HeurTiming {
    open spec fn obeys_bitor_spec() -> bool {
        true
    }

    open spec fn bitor_req(self, rhs: HeurTiming) -> bool {
        true
    }

    closed spec fn bitor_spec(self, rhs: HeurTiming) -> HeurTiming {
        HeurTiming(self.0 | rhs.0)
    }
}

impl From<HeurTiming> for u32 {
    fn from(mask: HeurTiming) -> (bits: u32)
        ensures
            bits == mask.native(),
    {
        let wide: u64 = mask.0;
        assert(wide as u32 == (wide & 0xffff_ffff) as u32) by (bit_vector);
        #[verifier::truncate]
        (wide as u32)
    }
}

impl FromSpecImpl<HeurTiming> for u32 {
    open spec fn obeys_from_spec() -> bool {
        true
    }

    open spec fn from_spec(mask: HeurTiming) -> u32 {
        mask.native()
    }
}

impl From<u32> for HeurTiming {
    fn from(mask: u32) -> (wide: HeurTiming)
        ensures
            wide@ == mask,
    {
        HeurTiming(mask as u64)
    }
}

impl FromSpecImpl<u32> for HeurTiming {
    open spec fn obeys_from_spec() -> bool {
        true
    }

    closed spec fn from_spec(mask: u32) -> HeurTiming {
        HeurTiming(mask as u64)
    }
}

/// Whether `code` is the engine's code of one of the results that a
/// heuristic may report.
pub open spec fn is_heur_result_code(code: u32) -> bool {
    code == 1 || code == 2 || code == 3 || code == 15
}

/// What the engine's call is turned into before the heuristic sees it: a
/// session on the engine's context in the solving phase, the timing as a
/// mask, and the infeasibility flag as a truth value.
pub fn callback_arguments(scip: &Rc<Context>, timing: u32, node_inf: u32) -> (args: (
    Model<Solving>,
    HeurTiming,
    bool,
))
    ensures
        args.0.context() == **scip,
        args.1@ == timing,
        args.2 == (node_inf != 0),
{
    (Model::new(Rc::clone(scip), Solving), HeurTiming::from(timing), node_inf != 0)
}

/// Whether the two references lead to equal values.
pub open spec fn same_value<T: ?Sized>(a: &T, b: &T) -> bool {
    a == b
}

/// Answers one call of the engine: runs the heuristic once on the arguments
/// of `callback_arguments`, and gives the engine the code of what the
/// heuristic reports.
///
/// The contract speaks of that one run: a call of `execute` on the heuristic
/// as it was, which leaves the heuristic as it is afterwards, with a session
/// on the engine's context in the solving phase, the timing as a mask and the
/// infeasibility flag as a truth value. What the run reports is what the
/// engine gets, as a code. Whatever the heuristic does, that is the code of a
/// result.
pub fn run_heuristic<H: Heuristic + ?Sized>(
    plugin: &mut H,
    scip: &Rc<Context>,
    timing: u32,
    node_inf: u32,
) -> (code: u32)
    ensures
        exists|call: &mut H, model: Model<Solving>, mask: HeurTiming, flag: bool, result: HeurResult|
            {
                &&& #[trigger] call_ensures(H::execute, (call, model, mask, flag), result)
                &&& same_value(&*call, &*old(plugin))
                &&& same_value(&*final(call), &*final(plugin))
                &&& model.context() == **scip
                &&& mask@ == timing
                &&& flag == (node_inf != 0)
                &&& code == result.code()
            },
        is_heur_result_code(code),
{
    let args = callback_arguments(scip, timing, node_inf);
    let result = plugin.execute(args.0, args.1, args.2);
    u32::from(result)
}

/// A mask is determined by its bits: equal bits, equal masks.
pub proof fn lemma_timing_determined_by_bits(a: HeurTiming, b: HeurTiming)
    ensures
        a@ == b@ <==> a == b,
{
}

/// A mask made of two masks meets a point exactly when one of the two does.
pub proof fn lemma_union_meets(a: HeurTiming, b: HeurTiming, both: HeurTiming, point: HeurTiming)
    requires
        both@ == a@ | b@,
    ensures
        both.meets(point) <==> a.meets(point) || b.meets(point),
{
    let (x, y, p) = (a@, b@, point@);
    assert(((x | y) & p != 0) <==> (x & p != 0 || y & p != 0)) by (bit_vector);
}

/// Joining masks does not depend on their order or grouping, joining a mask
/// with itself changes nothing, and the joined mask holds each of the two.
pub proof fn lemma_union_algebra(a: HeurTiming, b: HeurTiming, c: HeurTiming)
    ensures
        a@ | b@ == b@ | a@,
        (a@ | b@) | c@ == a@ | (b@ | c@),
        a@ | a@ == a@,
        (a@ | b@) & a@ == a@,
{
    let (x, y, z) = (a@, b@, c@);
    assert(x | y == y | x) by (bit_vector);
    assert((x | y) | z == x | (y | z)) by (bit_vector);
    assert(x | x == x) by (bit_vector);
    assert((x | y) & x == x) by (bit_vector);
}

/// A mask of the engine's width, widened and narrowed again, is unchanged;
/// a wide mask that is narrowed and widened again keeps its low 32 bits.
pub proof fn lemma_native_round_trip(narrow: u32, wide: HeurTiming)
    ensures
        wide@ == narrow ==> wide.native() == narrow,
        wide@ < 0x1_0000_0000 ==> wide.native() == wide@,
        wide.native() == wide@ % 0x1_0000_0000,
{
    let w = wide@;
    assert((w & 0xffff_ffff) == w % 0x1_0000_0000) by (bit_vector);
    assert(w < 0x1_0000_0000 ==> (w & 0xffff_ffff) == w) by (bit_vector);
}

/// Different results have different codes, and every code of a result is one
/// that the engine defines for heuristics.
pub proof fn lemma_result_codes(a: HeurResult, b: HeurResult)
    ensures
        a.code() == b.code() <==> a == b,
        is_heur_result_code(a.code()),
{
}

} // verus!
