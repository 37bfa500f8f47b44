use nesting_engine::serializer::InstanceModel;
use nesting_engine::serializer::ItemClass;
use nesting_engine::serializer::NestingOutput;
use nesting_engine::serializer::PlacedItem;
use nesting_engine::serializer::RunStatus;
use nesting_engine::serializer::SolutionModel;
use nesting_engine::serializer::area_fits;
use nesting_engine::serializer::requested_fits;

fn placement(item_id: u64, x: i64, y: i64) -> PlacedItem {
    PlacedItem { item_id, rotation_degrees: 0, position_x: x, position_y: y }
}

#[test]
fn test_scenario_all_placed() {
    // One item type, quantity 4, each of area 10, strip height 5; the
    // optimizer places all 4 at a width giving strip area 50: utilization is
    // 40/50 = 0.8, the run is complete, nothing is unplaced.
    let instance = InstanceModel {
        items: vec![(ItemClass { id: 7, area: 10 }, 4)],
        strip_height: 5,
    };
    let solution = SolutionModel {
        placed: vec![
            placement(7, 0, 0),
            placement(7, 1, 0),
            placement(7, 2, 0),
            placement(7, 3, 0),
        ],
        strip_width: 10,
    };
    let out = NestingOutput::from_solution(&solution, &instance, "tiny".to_string(), 1234);
    assert_eq!(out.instance_name, "tiny");
    assert_eq!(out.strip_width, 10);
    assert_eq!(out.strip_height, 5);
    assert_eq!(out.total_items_placed, 4);
    assert_eq!(out.utilization.num, 40);
    assert_eq!(out.utilization.den, 50);
    // 40/50 is exactly 0.8.
    assert_eq!(out.utilization.num * 10, out.utilization.den * 8);
    assert_eq!(out.status, RunStatus::Complete);
    assert_eq!(out.status.text(), "complete");
    assert_eq!(out.items_requested, Some(4));
    assert!(out.unplaced_item_ids.is_empty());
    assert_eq!(out.computation_time_ms, 1234);
    assert!(out.svg_string.is_none());
    assert!(out.seed_used.is_none());
}

#[test]
fn test_scenario_partially_placed() {
    // Same instance, but the optimizer places only 3 of the 4 units: the run
    // is partial and the unplaced multiset holds the item's id once.
    let instance = InstanceModel {
        items: vec![(ItemClass { id: 7, area: 10 }, 4)],
        strip_height: 5,
    };
    let solution = SolutionModel {
        placed: vec![placement(7, 0, 0), placement(7, 1, 0), placement(7, 2, 0)],
        strip_width: 10,
    };
    let out = NestingOutput::from_solution(&solution, &instance, "tiny".to_string(), 0);
    assert_eq!(out.status, RunStatus::Partial);
    assert_eq!(out.status.text(), "partial");
    assert_eq!(out.unplaced_item_ids, vec![7]);
    assert_eq!(out.total_items_placed, 3);
    assert_eq!(out.items_requested, Some(4));
}

#[test]
fn test_item_conservation_concrete() {
    // placed + unplaced == requested, over several item classes.
    let instance = InstanceModel {
        items: vec![
            (ItemClass { id: 1, area: 4 }, 3),
            (ItemClass { id: 2, area: 6 }, 2),
            (ItemClass { id: 9, area: 1 }, 5),
        ],
        strip_height: 100,
    };
    let solution = SolutionModel {
        placed: vec![
            placement(2, 0, 0),
            placement(1, 5, 0),
            placement(9, 9, 0),
            placement(9, 12, 0),
        ],
        strip_width: 100,
    };
    let out = NestingOutput::from_solution(&solution, &instance, String::new(), 0);
    assert_eq!(out.items_requested, Some(10));
    assert_eq!(out.total_items_placed, 4);
    assert_eq!(out.unplaced_item_ids.len(), 6);
    assert_eq!(
        out.total_items_placed as u64 + out.unplaced_item_ids.len() as u64,
        out.items_requested.unwrap()
    );
    // Unplaced ids come in instance order, one per unplaced unit.
    assert_eq!(out.unplaced_item_ids, vec![1, 1, 2, 9, 9, 9]);
}

#[test]
fn test_overplacement_saturates() {
    // An optimizer that over-places one class never drives the unplaced
    // count negative; the reducer must not crash on such a defect.
    let instance = InstanceModel {
        items: vec![(ItemClass { id: 1, area: 2 }, 1), (ItemClass { id: 2, area: 2 }, 2)],
        strip_height: 10,
    };
    let solution = SolutionModel {
        placed: vec![placement(1, 0, 0), placement(1, 1, 0), placement(1, 2, 0)],
        strip_width: 10,
    };
    let out = NestingOutput::from_solution(&solution, &instance, String::new(), 0);
    assert_eq!(out.unplaced_item_ids, vec![2, 2]);
    // Aggregate counts call three placements against three requests
    // "complete", even though item 2 is missing: the documented defect of
    // count-based status.
    assert_eq!(out.status, RunStatus::Complete);
}

#[test]
fn test_zero_strip_area_utilization() {
    // A zero strip area yields the zero utilization ratio, not an error.
    let instance = InstanceModel {
        items: vec![(ItemClass { id: 1, area: 5 }, 1)],
        strip_height: 0,
    };
    let solution = SolutionModel { placed: vec![], strip_width: 10 };
    let out = NestingOutput::from_solution(&solution, &instance, String::new(), 0);
    assert_eq!(out.utilization.den, 0);
}

#[test]
fn test_layout_order_preserved() {
    let instance = InstanceModel {
        items: vec![(ItemClass { id: 3, area: 1 }, 2), (ItemClass { id: 4, area: 1 }, 1)],
        strip_height: 10,
    };
    let placed = vec![placement(4, 7, 8), placement(3, 1, 2), placement(3, 3, 4)];
    let solution = SolutionModel { placed: placed.clone(), strip_width: 10 };
    let out = NestingOutput::from_solution(&solution, &instance, String::new(), 0);
    assert_eq!(out.layouts, placed);
}

#[test]
fn test_fits_guards() {
    let ok = vec![(ItemClass { id: 1, area: 10 }, 4)];
    assert!(requested_fits(&ok));
    assert!(area_fits(&ok));

    let too_many = vec![
        (ItemClass { id: 1, area: 1 }, u64::MAX),
        (ItemClass { id: 2, area: 1 }, u64::MAX),
    ];
    assert!(!requested_fits(&too_many));

    let too_large = vec![
        (ItemClass { id: 1, area: u64::MAX }, u64::MAX),
        (ItemClass { id: 2, area: u64::MAX }, u64::MAX),
        (ItemClass { id: 3, area: u64::MAX }, u64::MAX),
    ];
    assert!(!area_fits(&too_large));
}
