//! Tests of the scoring primitives: Quantify determinism, exact penalty
//! values, feasibility, and density.
use stripnest::eval::best_candidate;
use stripnest::model::{density_ppm, Instance, Item, Layout, Pose};
use stripnest::quantify::{is_feasible, layout_loss, pose_loss};

fn rect(id: u64, w: u64, h: u64) -> Item {
    Item { id, width: w, height: h, rotatable: false }
}

fn two_rect_instance() -> Instance {
    Instance { strip_height: 4, min_separation: 0, items: vec![rect(0, 4, 3), rect(1, 2, 2)] }
}

#[test]
fn quantify_repeated_evaluations_identical() {
    let inst = two_rect_instance();
    let layout = Layout {
        strip_width: 10,
        poses: vec![
            Pose { x: 0, y: 0, rotated: false },
            Pose { x: 2, y: 0, rotated: false },
        ],
    };
    let p = Pose { x: 1, y: 1, rotated: false };
    let a = pose_loss(&inst, &layout, 0, p);
    let b = pose_loss(&inst, &layout, 0, p);
    assert_eq!(a, b);
    let c = layout_loss(&inst, &layout);
    let d = layout_loss(&inst, &layout);
    assert_eq!(c, d);
}

#[test]
fn overlap_penalty_exact_value() {
    let inst = two_rect_instance();
    // Item 0 spans [0,4)x[0,3); item 1 spans [2,4)x[0,2): overlap 2x2 = 4.
    let layout = Layout {
        strip_width: 10,
        poses: vec![
            Pose { x: 0, y: 0, rotated: false },
            Pose { x: 2, y: 0, rotated: false },
        ],
    };
    let l = pose_loss(&inst, &layout, 0, Pose { x: 0, y: 0, rotated: false });
    assert_eq!(l, 4);
    // The total layout loss counts the pair once.
    assert_eq!(layout_loss(&inst, &layout), 4);
}

#[test]
fn boundary_penalty_exact_value() {
    let inst = Instance { strip_height: 4, min_separation: 0, items: vec![rect(0, 3, 2)] };
    let layout = Layout { strip_width: 10, poses: vec![Pose { x: 0, y: 0, rotated: false }] };
    // At x = 8 the item spans [8,11): one unit beyond width 10, weighted by
    // its height 2.
    let l = pose_loss(&inst, &layout, 0, Pose { x: 8, y: 0, rotated: false });
    assert_eq!(l, 2);
}

#[test]
fn separation_counts_as_overlap() {
    let inst = Instance {
        strip_height: 4,
        min_separation: 1,
        items: vec![rect(0, 2, 2), rect(1, 2, 2)],
    };
    // Touching rectangles: [0,2) and [2,4). With separation 1 the inflated
    // footprints [0,3) and [2,5) overlap one unit in x, three in y.
    let layout = Layout {
        strip_width: 10,
        poses: vec![
            Pose { x: 0, y: 0, rotated: false },
            Pose { x: 2, y: 0, rotated: false },
        ],
    };
    assert_eq!(layout_loss(&inst, &layout), 3);
    assert!(!is_feasible(&inst, &layout));
    // One more unit of distance respects the separation.
    let apart = Layout {
        strip_width: 10,
        poses: vec![
            Pose { x: 0, y: 0, rotated: false },
            Pose { x: 3, y: 0, rotated: false },
        ],
    };
    assert_eq!(layout_loss(&inst, &apart), 0);
    assert!(is_feasible(&inst, &apart));
}

#[test]
fn feasibility_iff_zero_loss() {
    let inst = two_rect_instance();
    let good = Layout {
        strip_width: 10,
        poses: vec![
            Pose { x: 0, y: 0, rotated: false },
            Pose { x: 4, y: 0, rotated: false },
        ],
    };
    assert_eq!(layout_loss(&inst, &good), 0);
    assert!(is_feasible(&inst, &good));
    let bad = Layout {
        strip_width: 10,
        poses: vec![
            Pose { x: 0, y: 0, rotated: false },
            Pose { x: 1, y: 0, rotated: false },
        ],
    };
    assert!(layout_loss(&inst, &bad) > 0);
    assert!(!is_feasible(&inst, &bad));
}

#[test]
fn rotation_swaps_extents() {
    let it = Item { id: 0, width: 5, height: 2, rotatable: true };
    assert_eq!(it.eff_width(false), 5);
    assert_eq!(it.eff_height(false), 2);
    assert_eq!(it.eff_width(true), 2);
    assert_eq!(it.eff_height(true), 5);
    assert_eq!(it.max_extent(), 5);
}

#[test]
fn density_exact_value() {
    // Areas 12 + 4 = 16 over a used area of 8 x 4 = 32: half full.
    let inst = two_rect_instance();
    let layout = Layout {
        strip_width: 8,
        poses: vec![
            Pose { x: 0, y: 0, rotated: false },
            Pose { x: 4, y: 0, rotated: false },
        ],
    };
    assert_eq!(density_ppm(&inst, &layout), 500000);
}

#[test]
fn worker_count_does_not_change_winner() {
    let inst = two_rect_instance();
    let layout = Layout {
        strip_width: 10,
        poses: vec![
            Pose { x: 0, y: 0, rotated: false },
            Pose { x: 2, y: 0, rotated: false },
        ],
    };
    let cands = vec![
        Pose { x: 0, y: 0, rotated: false },
        Pose { x: 6, y: 0, rotated: false },
        Pose { x: 4, y: 0, rotated: false },
        Pose { x: 5, y: 1, rotated: false },
    ];
    let (b1, l1) = best_candidate(&inst, &layout, 0, &cands, 1);
    let (b3, l3) = best_candidate(&inst, &layout, 0, &cands, 3);
    let (b4, l4) = best_candidate(&inst, &layout, 0, &cands, 4);
    assert_eq!(b1, b3);
    assert_eq!(b1, b4);
    assert_eq!(l1, l3);
    assert_eq!(l1, l4);
    // Candidate 1 is the first fully clear pose.
    assert_eq!(b1, 1);
    assert_eq!(l1, 0);
}
