use std::cell::RefCell;
use std::rc::Rc;

use scip_bridge::double::Double;
use scip_bridge::engine::{Context, VarData};
use scip_bridge::heuristic::{callback_arguments, run_heuristic, HeurResult, HeurTiming, Heuristic};
use scip_bridge::model::{Model, Solving};
use scip_bridge::registry::{heur, Registry};

fn double(x: f64) -> Double {
    Double::from_bits(x.to_bits())
}

fn var(raw: usize, index: i32, name: &str, obj: f64) -> VarData {
    VarData {
        raw,
        index,
        name: name.to_string(),
        obj: double(obj),
        lb_local: double(0.0),
        ub_local: double(1.0),
        sol_val: double(0.0),
        var_type: 0,
        status: 1,
        in_lp: 0,
        col: None,
        deleted: 0,
        transformed: 1,
        original: 0,
        negated: 0,
        removable: 0,
        trans_from_orig: 1,
        active: 1,
    }
}

/// A small problem whose objective is 7 where every variable is 1.
fn simple_problem() -> Rc<Context> {
    let vars = vec![var(0x1000, 0, "x1", 3.0), var(0x1100, 1, "x2", 2.0), var(0x1200, 2, "x3", 2.0)];
    Rc::new(Context::new(0x10, vars, vec![]).unwrap())
}

const ALL_POINTS: [u32; 11] = [0x001, 0x002, 0x004, 0x008, 0x010, 0x020, 0x040, 0x080, 0x100, 0x200, 0x400];

/// Calls every registered heuristic at each point that its mask meets, as
/// the engine does over a search, and collects what the engine is told.
fn solve<H: Heuristic>(registry: &mut Registry<H>, scip: &Rc<Context>) -> Vec<(usize, u32, u32)> {
    let mut told = Vec::new();
    for point in ALL_POINTS {
        for id in 0..registry.len() {
            let mask = registry.timing(id).unwrap();
            if mask.intersects(HeurTiming::from(point)) {
                let code = registry.run(id, scip, point, 0).unwrap();
                told.push((id, point, code));
            }
        }
    }
    told
}

struct NoSolutionFoundHeur;

impl Heuristic for NoSolutionFoundHeur {
    fn execute(&mut self, _model: Model<Solving>, _timing: HeurTiming, _node_inf: bool) -> HeurResult {
        HeurResult::NoSolFound
    }
}

#[test]
fn test_heur() {
    let scip = simple_problem();
    let mut registry = Registry::new();

    let hr = NoSolutionFoundHeur;
    let mut timing = HeurTiming::before_presol();
    timing.bitor_assign(HeurTiming::after_prop_loop());
    let id = registry.register(
        heur(hr)
            .name("no_sol_found_heur")
            .timing(timing)
            .dispchar('n'),
    );
    assert_eq!(id, Ok(0));
    let told = solve(&mut registry, &scip);
    assert_eq!(told, vec![(0, 0x100, 3), (0, 0x400, 3)]);
}

struct ImpostorHeur;

impl Heuristic for ImpostorHeur {
    fn execute(&mut self, _model: Model<Solving>, _timing: HeurTiming, _node_inf: bool) -> HeurResult {
        HeurResult::FoundSol
    }
}

#[test]
fn impostor_claim_is_handed_on_unjudged() {
    let scip = simple_problem();
    let mut registry = Registry::new();
    let h = ImpostorHeur;
    let id = registry.register(
        heur(h)
            .name("impostor_heur")
            .timing(HeurTiming::before_node() | HeurTiming::after_lp_node()),
    );
    assert_eq!(id, Ok(0));
    let told = solve(&mut registry, &scip);
    assert_eq!(told, vec![(0, 0x001, 15), (0, 0x008, 15)]);
}

struct DelayedHeur;

impl Heuristic for DelayedHeur {
    fn execute(&mut self, _model: Model<Solving>, _timing: HeurTiming, _node_inf: bool) -> HeurResult {
        HeurResult::Delayed
    }
}

#[test]
fn delayed_heur() {
    let scip = simple_problem();
    let mut registry = Registry::new();

    let h = DelayedHeur;
    let id = registry.register(heur(h).name("delayed_heur").timing(HeurTiming::before_node()));
    assert_eq!(id, Ok(0));
    let told = solve(&mut registry, &scip);
    assert_eq!(told, vec![(0, 0x001, 2)]);
}

struct DidNotRunHeur;

impl Heuristic for DidNotRunHeur {
    fn execute(&mut self, _model: Model<Solving>, _timing: HeurTiming, _node_inf: bool) -> HeurResult {
        HeurResult::DidNotRun
    }
}

#[test]
fn did_not_run_heur() {
    let scip = simple_problem();
    let mut registry = Registry::new();

    let h = DidNotRunHeur;
    let id = registry.register(heur(h).name("did_not_run_heur"));
    assert_eq!(id, Ok(0));
    let told = solve(&mut registry, &scip);
    assert_eq!(told, vec![(0, 0x001, 1)]);
}

struct FoundSolHeur;

impl Heuristic for FoundSolHeur {
    fn execute(&mut self, model: Model<Solving>, _timing: HeurTiming, _node_inf: bool) -> HeurResult {
        let mut obj_val = 0.0;
        for var in model.vars() {
            obj_val += f64::from_bits(var.obj().to_bits()) * 1.0;
        }
        assert_eq!(obj_val, 7.0);
        HeurResult::FoundSol
    }
}

#[test]
fn found_sol_heur() {
    let scip = simple_problem();
    let mut registry = Registry::new();

    let h = FoundSolHeur;
    let id = registry.register(heur(h).name("found_sol_heur"));
    assert_eq!(id, Ok(0));
    let told = solve(&mut registry, &scip);
    assert_eq!(told, vec![(0, 0x001, 15)]);
}

struct Recorder {
    seen: Rc<RefCell<Vec<(usize, u32, bool)>>>,
    answer: HeurResult,
}

impl Heuristic for Recorder {
    fn execute(&mut self, model: Model<Solving>, timing: HeurTiming, node_inf: bool) -> HeurResult {
        self.seen.borrow_mut().push((model.n_vars(), u32::from(timing), node_inf));
        self.answer
    }
}

#[test]
fn before_node_mask_is_met_at_node_start_only() {
    let scip = simple_problem();
    let seen = Rc::new(RefCell::new(Vec::new()));
    let mut registry = Registry::new();
    let h = Recorder { seen: Rc::clone(&seen), answer: HeurResult::NoSolFound };
    registry
        .register(heur(h).name("recorder").timing(HeurTiming::before_node()))
        .unwrap();
    // Three nodes, each with all the points of the loop.
    for _node in 0..3 {
        solve(&mut registry, &scip);
    }
    assert_eq!(*seen.borrow(), vec![(3, 0x001, false), (3, 0x001, false), (3, 0x001, false)]);
}

#[test]
fn joined_mask_is_met_at_both_points_and_no_others() {
    let both = HeurTiming::before_presol() | HeurTiming::after_prop_loop();
    assert_eq!(u32::from(both), 0x500);
    for point in ALL_POINTS {
        let expected = point == 0x100 || point == 0x400;
        assert_eq!(both.intersects(HeurTiming::from(point)), expected);
    }
    assert!(both.intersects(HeurTiming::before_presol()));
    assert!(both.intersects(HeurTiming::after_prop_loop()));
    assert!(!both.intersects(HeurTiming::before_node()));
}

#[test]
fn timing_masks_have_the_engine_bits() {
    assert_eq!(u32::from(HeurTiming::before_node()), 0x001);
    assert_eq!(u32::from(HeurTiming::during_lp_loop()), 0x002);
    assert_eq!(u32::from(HeurTiming::after_lp_loop()), 0x004);
    assert_eq!(u32::from(HeurTiming::after_lp_node()), 0x008);
    assert_eq!(u32::from(HeurTiming::after_pseudo_node()), 0x010);
    assert_eq!(u32::from(HeurTiming::after_lp_plunge()), 0x020);
    assert_eq!(u32::from(HeurTiming::after_pseudo_plunge()), 0x040);
    assert_eq!(u32::from(HeurTiming::during_pricing_loop()), 0x080);
    assert_eq!(u32::from(HeurTiming::before_presol()), 0x100);
    assert_eq!(u32::from(HeurTiming::during_presol_loop()), 0x200);
    assert_eq!(u32::from(HeurTiming::after_prop_loop()), 0x400);
}

#[test]
fn timing_masks_join_bit_by_bit() {
    let a = HeurTiming::before_node() | HeurTiming::after_lp_node();
    assert_eq!(u32::from(a), 0x009);
    assert_eq!(a | a, a);
    assert_eq!(a | HeurTiming::before_node(), a);
    assert_eq!(
        HeurTiming::before_node() | HeurTiming::after_lp_node(),
        HeurTiming::after_lp_node() | HeurTiming::before_node()
    );
    let mut b = HeurTiming::before_node();
    b.bitor_assign(HeurTiming::after_lp_node());
    assert_eq!(a, b);
    assert_eq!(HeurTiming::from(0), HeurTiming::from(0) | HeurTiming::from(0));
    assert!(!HeurTiming::from(0).intersects(a));
}

#[test]
fn timing_mask_round_trip_through_the_engine_width() {
    for bits in [0u32, 1, 0x500, 0x7ff, 0x8000_0000, u32::MAX] {
        assert_eq!(u32::from(HeurTiming::from(bits)), bits);
    }
    let m: u32 = HeurTiming::from(0x400).into();
    assert_eq!(m, 0x400);
}

#[test]
fn heur_results_have_the_engine_codes() {
    assert_eq!(u32::from(HeurResult::DidNotRun), 1);
    assert_eq!(u32::from(HeurResult::Delayed), 2);
    assert_eq!(u32::from(HeurResult::NoSolFound), 3);
    assert_eq!(u32::from(HeurResult::FoundSol), 15);
}

#[test]
fn callback_arguments_are_handed_over_unchanged() {
    let scip = simple_problem();
    let (model, timing, node_inf) = callback_arguments(&scip, 0x008, 1);
    assert_eq!(model.n_vars(), 3);
    assert_eq!(model.vars()[2].name(), "x3");
    assert_eq!(timing, HeurTiming::after_lp_node());
    assert!(node_inf);
    let (_, timing, node_inf) = callback_arguments(&scip, 0x500, 0);
    assert_eq!(u32::from(timing), 0x500);
    assert!(!node_inf);
    let (_, _, node_inf) = callback_arguments(&scip, 0, 7);
    assert!(node_inf);
}

#[test]
fn run_heuristic_hands_over_and_translates() {
    let scip = simple_problem();
    let seen = Rc::new(RefCell::new(Vec::new()));
    for (answer, code) in [
        (HeurResult::FoundSol, 15),
        (HeurResult::NoSolFound, 3),
        (HeurResult::DidNotRun, 1),
        (HeurResult::Delayed, 2),
    ] {
        let mut h = Recorder { seen: Rc::clone(&seen), answer };
        assert_eq!(run_heuristic(&mut h, &scip, 0x020, 1), code);
    }
    assert_eq!(seen.borrow().len(), 4);
    assert!(seen.borrow().iter().all(|call| *call == (3, 0x020, true)));
}

#[test]
fn heuristics_of_several_kinds_share_a_registry() {
    let scip = simple_problem();
    let seen = Rc::new(RefCell::new(Vec::new()));
    let mut registry: Registry<Box<dyn Heuristic>> = Registry::new();
    registry.register(heur::<Box<dyn Heuristic>>(Box::new(DelayedHeur)).name("delayed")).unwrap();
    let recorder = Recorder { seen: Rc::clone(&seen), answer: HeurResult::FoundSol };
    registry
        .register(heur::<Box<dyn Heuristic>>(Box::new(recorder)).name("recorder").timing(HeurTiming::after_lp_node()))
        .unwrap();
    registry.register(heur::<Box<dyn Heuristic>>(Box::new(DidNotRunHeur)).name("idle")).unwrap();
    assert_eq!(registry.run(0, &scip, 0x001, 0), Some(2));
    assert_eq!(registry.run(1, &scip, 0x008, 1), Some(15));
    assert_eq!(registry.run(2, &scip, 0x001, 0), Some(1));
    assert_eq!(*seen.borrow(), vec![(3, 0x008, true)]);
}

#[test]
fn a_boxed_heuristic_runs_what_it_holds() {
    let scip = simple_problem();
    let seen = Rc::new(RefCell::new(Vec::new()));
    let mut boxed = Box::new(Recorder { seen: Rc::clone(&seen), answer: HeurResult::Delayed });
    let (model, timing, node_inf) = callback_arguments(&scip, 0x040, 0);
    assert_eq!(boxed.execute(model, timing, node_inf), HeurResult::Delayed);
    assert_eq!(run_heuristic(&mut boxed, &scip, 0x080, 2), 2);
    assert_eq!(*seen.borrow(), vec![(3, 0x040, false), (3, 0x080, true)]);
}

#[test]
fn equal_bits_make_equal_masks() {
    assert_eq!(HeurTiming::from(0x100), HeurTiming::before_presol());
    assert_eq!(HeurTiming::from(0x009), HeurTiming::before_node() | HeurTiming::after_lp_node());
    assert_ne!(HeurTiming::from(0x100), HeurTiming::from(0x101));
}
