use jagua_rs::collision_detection::CDEConfig;
use jagua_rs::geometry::fail_fast::SPSurrogateConfig;
use jagua_rs::io::import::Importer;
use jagua_rs::probs::spp::entities::SPInstance;
use jagua_rs::probs::spp::entities::SPProblem;
use jagua_rs::probs::spp::entities::SPSolution;
use jagua_rs::probs::spp::io::ext_repr::ExtSPInstance;
use nesting_engine::NestingError;
use nesting_engine::NestingInput;
use nesting_engine::config::PhaseConfig;
use nesting_engine::nesting::InstanceImporter;
use nesting_engine::nesting::NullListener;
use nesting_engine::nesting::Optimizer;
use nesting_engine::run_nesting_engine;
use nesting_engine::serializer::InstanceModel;
use nesting_engine::serializer::ItemClass;
use nesting_engine::serializer::RunStatus;
use nesting_engine::serializer::SolutionModel;
use nesting_engine::terminator::NativeTerminator;

/// A collaborator that performs no search: it returns the freshly created,
/// empty layout, so every requested unit stays unplaced.
struct EmptyOptimizer {
    invoked: usize,
    seed_seen: Option<u64>,
}

impl Optimizer<NullListener> for EmptyOptimizer {
    fn optimize(
        &mut self,
        instance: &SPInstance,
        seed: u64,
        _listener: &mut NullListener,
        _terminator: &NativeTerminator,
        _exploration: &PhaseConfig,
        _compression: &PhaseConfig,
    ) -> SPSolution {
        self.invoked += 1;
        self.seed_seen = Some(seed);
        SPProblem::new(instance.clone()).unwrap().save()
    }

    fn solution_model(&self, solution: &SPSolution) -> SolutionModel {
        SolutionModel {
            placed: Vec::new(),
            strip_width: (solution.strip_width() * 1000.0).round() as u64,
        }
    }

    fn instance_model(&self, instance: &SPInstance) -> InstanceModel {
        let items = instance
            .items
            .iter()
            .map(|(item, qty)| {
                (
                    ItemClass {
                        id: item.external_id(),
                        area: (item.shape_orig().area() as f64 * 1_000_000.0).round() as u64,
                    },
                    *qty as u64,
                )
            })
            .collect();
        InstanceModel {
            items,
            strip_height: (instance.base_strip.fixed_height * 1000.0).round() as u64,
        }
    }
}

/// The importer collaborator, backed by the geometry library's importer.
struct TestImporter {
    importer: Importer,
}

impl InstanceImporter for TestImporter {
    fn import(&mut self, ext: &ExtSPInstance) -> Result<SPInstance, String> {
        jagua_rs::probs::spp::io::import_instance(&self.importer, ext)
            .map_err(|e| format!("{e:#}"))
    }
}

fn test_importer() -> TestImporter {
    let cde = CDEConfig {
        quadtree_depth: 5,
        cd_threshold: 16,
        item_surrogate_config: SPSurrogateConfig::none(),
    };
    TestImporter { importer: Importer::new(cde, None, None) }
}

fn tiny_instance_json() -> String {
    // One rectangular item, 2 by 5, demanded twice, in a strip of height 10.
    String::from(
        "{\
         \"name\": \"tiny\",\
         \"strip_height\": 10.0,\
         \"items\": [\
           {\
             \"id\": 1,\
             \"demand\": 2,\
             \"orientation\": { \"rotation\": { \"mode\": \"discrete\", \"angles\": [0.0] } },\
             \"shape\": { \"type\": \"rectangle\", \"data\": { \"x_min\": 0.0, \"y_min\": 0.0, \"width\": 2.0, \"height\": 5.0 } }\
           }\
         ]\
        }",
    )
}

fn input_with(json: String, seed: Option<u64>) -> NestingInput {
    NestingInput {
        json_input: json,
        time_limit: Some(1),
        seed,
        use_early_termination: None,
        n_workers: None,
    }
}

#[test]
fn test_malformed_input_is_rejected() {
    let mut listener = NullListener;
    let mut optimizer = EmptyOptimizer { invoked: 0, seed_seen: None };
    let mut importer = test_importer();
    let input = input_with("this is not an instance".to_string(), None);
    let r = run_nesting_engine(&input, &mut importer, &mut listener, &mut optimizer);
    match r {
        Err(NestingError::MalformedInput { detail, input_prefix }) => {
            assert!(!detail.is_empty());
            assert_eq!(input_prefix, "this is not an instance");
        }
        other => panic!("expected MalformedInput, got {:?}", other.is_ok()),
    }
    assert_eq!(optimizer.invoked, 0);
}

#[test]
fn test_malformed_input_prefix_is_bounded() {
    let mut listener = NullListener;
    let mut optimizer = EmptyOptimizer { invoked: 0, seed_seen: None };
    let mut importer = test_importer();
    let long_input: String = "x".repeat(2000);
    let input = input_with(long_input, None);
    let r = run_nesting_engine(&input, &mut importer, &mut listener, &mut optimizer);
    match r {
        Err(NestingError::MalformedInput { input_prefix, .. }) => {
            assert_eq!(input_prefix.chars().count(), 500);
            assert_eq!(input_prefix, "x".repeat(500));
        }
        _ => panic!("expected MalformedInput"),
    }
}

#[test]
fn test_import_failure_is_rejected() {
    // Schema-valid input with no items fails the importer's validation.
    let mut listener = NullListener;
    let mut optimizer = EmptyOptimizer { invoked: 0, seed_seen: None };
    let mut importer = test_importer();
    let json = "{ \"name\": \"empty\", \"strip_height\": 10.0, \"items\": [] }".to_string();
    let input = input_with(json, None);
    let r = run_nesting_engine(&input, &mut importer, &mut listener, &mut optimizer);
    match r {
        Err(NestingError::ImportFailure { detail }) => {
            assert!(!detail.is_empty());
        }
        _ => panic!("expected ImportFailure"),
    }
    assert_eq!(optimizer.invoked, 0);
}

#[test]
fn test_run_with_empty_optimizer_is_partial() {
    let mut listener = NullListener;
    let mut optimizer = EmptyOptimizer { invoked: 0, seed_seen: None };
    let mut importer = test_importer();
    let input = input_with(tiny_instance_json(), Some(42));
    let out = run_nesting_engine(&input, &mut importer, &mut listener, &mut optimizer)
        .expect("the tiny instance must import");
    assert_eq!(optimizer.invoked, 1);
    // The configured seed is the one handed to the optimizer.
    assert_eq!(optimizer.seed_seen, Some(42));
    assert_eq!(out.instance_name, "tiny");
    assert_eq!(out.total_items_placed, 0);
    assert_eq!(out.items_requested, Some(2));
    assert_eq!(out.status, RunStatus::Partial);
    assert_eq!(out.unplaced_item_ids, vec![1, 1]);
    assert_eq!(out.strip_height, 10_000);
    assert!(out.svg_string.is_none());
    // The composed entry point surfaces the seed the run was driven with.
    assert_eq!(out.seed_used, Some(42));
}

#[test]
fn test_same_seed_runs_match() {
    // Everything this layer computes is deterministic for one seed: two
    // independent runs over the same instance and configuration produce the
    // same report, wall-clock time aside.
    let mut importer = test_importer();
    let mut outs = Vec::new();
    for _ in 0..2 {
        let mut listener = NullListener;
        let mut optimizer = EmptyOptimizer { invoked: 0, seed_seen: None };
        let input = input_with(tiny_instance_json(), Some(7));
        let out = run_nesting_engine(&input, &mut importer, &mut listener, &mut optimizer).unwrap();
        assert_eq!(optimizer.seed_seen, Some(7));
        outs.push(out);
    }
    let a = &outs[0];
    let b = &outs[1];
    assert_eq!(a.instance_name, b.instance_name);
    assert_eq!(a.strip_width, b.strip_width);
    assert_eq!(a.strip_height, b.strip_height);
    assert_eq!(a.layouts, b.layouts);
    assert_eq!(a.utilization, b.utilization);
    assert_eq!(a.status, b.status);
    assert_eq!(a.items_requested, b.items_requested);
    assert_eq!(a.unplaced_item_ids, b.unplaced_item_ids);
    assert_eq!(a.seed_used, b.seed_used);
}

#[test]
fn test_missing_seed_is_drawn_and_surfaced() {
    let mut listener = NullListener;
    let mut optimizer = EmptyOptimizer { invoked: 0, seed_seen: None };
    let mut importer = test_importer();
    let input = input_with(tiny_instance_json(), None);
    let out = run_nesting_engine(&input, &mut importer, &mut listener, &mut optimizer);
    let out = out.unwrap();
    // A fresh seed was drawn, handed to the optimizer, and surfaced.
    assert!(optimizer.seed_seen.is_some());
    assert_eq!(out.seed_used, optimizer.seed_seen);
}
