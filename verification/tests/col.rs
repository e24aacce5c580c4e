use std::rc::Rc;

use scip_bridge::col::Col;
use scip_bridge::double::Double;
use scip_bridge::engine::{ColData, Context, VarData};
use scip_bridge::model::{Model, Solving};
use scip_bridge::row::BasisStatus;
use scip_bridge::variable::{VarStatus, VarType};

fn double(x: f64) -> Double {
    Double::from_bits(x.to_bits())
}

fn float(d: Double) -> f64 {
    f64::from_bits(d.to_bits())
}

/// The binary variable `x` with objective 1 as the engine reports it once
/// the first LP is solved: a column of the LP at value 1.
fn binary_in_lp() -> VarData {
    VarData {
        raw: 0x1000,
        index: 1,
        name: "t_x".to_string(),
        obj: double(1.0),
        lb_local: double(0.0),
        ub_local: double(1.0),
        sol_val: double(1.0),
        var_type: u32::from(VarType::Binary),
        status: 2,
        in_lp: 1,
        col: Some(0),
        deleted: 0,
        transformed: 1,
        original: 0,
        negated: 0,
        removable: 0,
        trans_from_orig: 1,
        active: 1,
    }
}

/// Its column, with the one row of the constraint `x = 1`.
fn basic_column() -> ColData {
    ColData {
        raw: 0x2000,
        index: 0,
        obj: double(1.0),
        lb: double(0.0),
        ub: double(1.0),
        best_bound: double(0.0),
        primal_sol: double(1.0),
        min_primal_sol: double(1.0),
        max_primal_sol: double(1.0),
        basis_status: 1,
        var_probindex: 0,
        integral: 1,
        removable: 0,
        lp_pos: 0,
        lp_depth: 0,
        in_lp: 1,
        n_non_zeros: 1,
        n_lp_non_zeros: 1,
        rows: vec![0x3000],
        vals: vec![double(1.0)],
        strong_branching_node: -1,
        n_strong_branches: 0,
        age: 0,
        var: 0,
    }
}

#[test]
fn test_col() {
    let scip = Rc::new(Context::new(0x10, vec![binary_in_lp()], vec![basic_column()]).unwrap());
    let model = Model::new(scip, Solving);
    let vars = model.vars();
    let first_var = vars[0].clone();
    let col = first_var.col().unwrap();
    assert_eq!(col.index(), 0);
    assert_eq!(col.index(), 0);
    assert_eq!(col.index(), 0);
    assert_eq!(float(col.obj()), 1.0);
    assert_eq!(float(col.lb()), 0.0);
    assert_eq!(float(col.ub()), 1.0);
    assert_eq!(float(col.best_bound()), 0.0);
    assert_eq!(float(col.primal_sol()), 1.0);
    assert_eq!(float(col.min_primal_sol()), 1.0);
    assert_eq!(float(col.max_primal_sol()), 1.0);
    assert_eq!(col.basis_status(), BasisStatus::Basic);
    assert_eq!(col.var_probindex(), Some(0));
    assert!(col.is_integral());
    assert!(!col.is_removable());
    assert_eq!(col.lp_pos(), Some(0));
    assert_eq!(col.lp_depth(), Some(0));
    assert!(col.is_in_lp());
    assert_eq!(col.n_non_zeros(), 1);
    assert_eq!(col.n_lp_non_zeros(), 1);
    let vals: Vec<f64> = col.vals().into_iter().map(float).collect();
    assert_eq!(vals, vec![1.0]);
    assert_eq!(col.strong_branching_node(), None);
    assert_eq!(col.n_strong_branches(), 0);
    assert_eq!(col.age(), 0);
}

#[test]
fn solved_binary_problem_end_to_end() {
    let scip = Rc::new(Context::new(0x10, vec![binary_in_lp()], vec![basic_column()]).unwrap());
    let model = Model::new(scip, scip_bridge::model::Solved);
    let x = model.vars().remove(0);
    assert_eq!(float(x.sol_val()), 1.0);
    assert_eq!(x.status(), VarStatus::Column);
    let col = x.col().unwrap();
    assert_eq!(float(col.primal_sol()), 1.0);
    assert_eq!(col.basis_status(), BasisStatus::Basic);
    assert!(col.is_integral());
}

#[test]
fn negative_reports_become_absent_values() {
    let mut c = basic_column();
    c.var_probindex = -1;
    c.lp_pos = -1;
    c.lp_depth = -1;
    c.in_lp = 0;
    c.strong_branching_node = -1;
    let mut v = binary_in_lp();
    v.in_lp = 0;
    let scip = Rc::new(Context::new(0x10, vec![v], vec![c]).unwrap());
    let col = Col::new(&scip, 0).unwrap();
    assert_eq!(col.var_probindex(), None);
    assert_eq!(col.lp_pos(), None);
    assert_eq!(col.lp_depth(), None);
    assert_eq!(col.strong_branching_node(), None);
    assert!(!col.is_in_lp());
}

#[test]
fn reported_positions_are_kept() {
    let mut c = basic_column();
    c.var_probindex = 12;
    c.lp_pos = 5;
    c.lp_depth = 3;
    c.strong_branching_node = 0;
    c.n_strong_branches = 4;
    c.age = 9;
    c.index = i32::MAX;
    c.n_lp_non_zeros = 0;
    let scip = Rc::new(Context::new(0x10, vec![binary_in_lp()], vec![c]).unwrap());
    let col = Col::new(&scip, 0).unwrap();
    assert_eq!(col.var_probindex(), Some(12));
    assert_eq!(col.lp_pos(), Some(5));
    assert_eq!(col.lp_depth(), Some(3));
    assert_eq!(col.strong_branching_node(), Some(0));
    assert_eq!(col.n_strong_branches(), 4);
    assert_eq!(col.age(), 9);
    assert_eq!(col.index(), i32::MAX as usize);
    assert_eq!(col.n_lp_non_zeros(), 0);

    let mut far = basic_column();
    far.strong_branching_node = i64::MAX;
    let scip = Rc::new(Context::new(0x10, vec![binary_in_lp()], vec![far]).unwrap());
    assert_eq!(Col::new(&scip, 0).unwrap().strong_branching_node(), Some(i64::MAX));
}

#[test]
fn rows_and_vals_follow_the_engine_order() {
    let mut c = basic_column();
    c.n_non_zeros = 3;
    c.n_lp_non_zeros = 2;
    c.rows = vec![0x3000, 0x3100, 0x3200];
    c.vals = vec![double(1.0), double(-2.5), double(4.0)];
    let scip = Rc::new(Context::new(0x10, vec![binary_in_lp()], vec![c]).unwrap());
    let col = Col::new(&scip, 0).unwrap();
    assert_eq!(col.n_non_zeros(), 3);
    assert_eq!(col.n_lp_non_zeros(), 2);
    let rows: Vec<usize> = col.rows().iter().map(|r| r.inner()).collect();
    assert_eq!(rows, vec![0x3000, 0x3100, 0x3200]);
    let vals: Vec<f64> = col.vals().into_iter().map(float).collect();
    assert_eq!(vals, vec![1.0, -2.5, 4.0]);
}

#[test]
fn column_without_entries() {
    let mut c = basic_column();
    c.n_non_zeros = 0;
    c.n_lp_non_zeros = 0;
    c.rows = vec![];
    c.vals = vec![];
    let scip = Rc::new(Context::new(0x10, vec![binary_in_lp()], vec![c]).unwrap());
    let col = Col::new(&scip, 0).unwrap();
    assert_eq!(col.n_non_zeros(), 0);
    assert!(col.rows().is_empty());
    assert!(col.vals().is_empty());
}

#[test]
fn column_leads_back_to_its_variable() {
    let scip = Rc::new(Context::new(0x10, vec![binary_in_lp()], vec![basic_column()]).unwrap());
    let col = Col::new(&scip, 0).unwrap();
    let var = col.var();
    assert_eq!(var.name(), "t_x");
    assert_eq!(var.inner(), 0x1000);
    let back = var.col().unwrap();
    assert!(back == col);
    assert!(back == col.clone());
    assert_eq!(back.inner(), 0x2000);
}

#[test]
fn columns_are_equal_by_identity() {
    let mut second = basic_column();
    second.raw = 0x2100;
    second.index = 1;
    let mut same_index = basic_column();
    same_index.raw = 0x2200;
    let scip = Rc::new(
        Context::new(0x10, vec![binary_in_lp()], vec![basic_column(), second, same_index]).unwrap(),
    );
    let a = Col::new(&scip, 0).unwrap();
    let b = Col::new(&scip, 1).unwrap();
    let c = Col::new(&scip, 2).unwrap();
    assert!(a == Col::new(&scip, 0).unwrap());
    assert!(a != b);
    assert!(a != c);
    assert!(Col::new(&scip, 3).is_none());

    // One object of the engine reported with two indices is one column.
    let mut renumbered = basic_column();
    renumbered.index = 9;
    let scip = Rc::new(
        Context::new(0x10, vec![binary_in_lp()], vec![basic_column(), renumbered]).unwrap(),
    );
    let a = Col::new(&scip, 0).unwrap();
    let b = Col::new(&scip, 1).unwrap();
    assert_eq!(a.inner(), b.inner());
    assert!(a == b);
}

#[test]
fn basis_status_codes() {
    assert_eq!(BasisStatus::from_native(0), Some(BasisStatus::Lower));
    assert_eq!(BasisStatus::from_native(1), Some(BasisStatus::Basic));
    assert_eq!(BasisStatus::from_native(2), Some(BasisStatus::Upper));
    assert_eq!(BasisStatus::from_native(3), Some(BasisStatus::Zero));
    assert_eq!(BasisStatus::from_native(4), None);
    assert_eq!(BasisStatus::from_code(0), BasisStatus::Lower);
    assert_eq!(BasisStatus::from_code(1), BasisStatus::Basic);
    assert_eq!(BasisStatus::from_code(2), BasisStatus::Upper);
    assert_eq!(BasisStatus::from_code(3), BasisStatus::Zero);
    for code in 0..4u32 {
        let mut c = basic_column();
        c.basis_status = code;
        let scip = Rc::new(Context::new(0x10, vec![binary_in_lp()], vec![c]).unwrap());
        let col = Col::new(&scip, 0).unwrap();
        assert_eq!(Some(col.basis_status()), BasisStatus::from_native(code));
    }
}
