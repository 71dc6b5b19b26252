use wvr_gui_core::catalog::{FilterCatalog, FilterSchema, VariableDecl};
use wvr_gui_core::model::{
    Automation, DataHolder, FilterMode, InputConfig, InputKind, InputSlot, Lfo, LfoKind, NamedInput,
    Precision, ProjectConfig, RenderStageConfig, SampledInput, ServerConfig, Speed, VariableSlot,
    ViewConfig,
};
use wvr_gui_core::namespace::{choices, first_minimum_index, retarget};
use wvr_gui_core::project::{EditError, Project};
use wvr_gui_core::wire::{InputUpdate, Message, StageUpdate};

fn cam() -> InputConfig {
    InputConfig::Cam { path: "/dev/video0".to_string(), width: 640, height: 480 }
}

fn stage(name: &str, filter: &str, inputs: Vec<(&str, SampledInput)>) -> RenderStageConfig {
    RenderStageConfig {
        name: name.to_string(),
        filter: filter.to_string(),
        filter_mode_params: FilterMode::Rectangle(0, 0, 0, 0),
        inputs: inputs
            .into_iter()
            .map(|(u, s)| InputSlot { uniform: u.to_string(), source: s })
            .collect(),
        variables: Vec::new(),
        precision: Precision::U8,
    }
}

fn config(inputs: Vec<(&str, InputConfig)>, chain: Vec<RenderStageConfig>, shown: &str) -> ProjectConfig {
    ProjectConfig {
        bpm: 120.0f32.to_bits(),
        view: ViewConfig {
            width: 640,
            height: 480,
            target_fps: 60.0f32.to_bits(),
            dynamic: false,
            vsync: true,
            screenshot: false,
            screenshot_path: "output/".to_string(),
            fullscreen: false,
            locked_speed: false,
        },
        server: ServerConfig { ip: "127.0.0.1".to_string(), port: 3000, enable: false },
        inputs: inputs
            .into_iter()
            .map(|(n, c)| NamedInput { name: n.to_string(), config: c })
            .collect(),
        render_chain: chain,
        final_stage: stage(
            "Final",
            "generic/copy",
            vec![("iChannel0", SampledInput::Mipmaps(shown.to_string()))],
        ),
    }
}

fn linear(n: &str) -> SampledInput {
    SampledInput::Linear(n.to_string())
}

fn lfo() -> Lfo {
    Lfo {
        kind: LfoKind::Sine,
        numerator: 1.0f64.to_bits(),
        denominator: 8.0f64.to_bits(),
        phase: 0.0f64.to_bits(),
        amplitude: 1.0f64.to_bits(),
        signed: false,
    }
}

fn names(v: &[String]) -> Vec<&str> {
    v.iter().map(|s| s.as_str()).collect()
}

#[test]
fn rename_input_propagates_to_stages() {
    let cfg = config(
        vec![("Camera #1", cam())],
        vec![stage("Patterns", "generic/dots", vec![("iChannel0", linear("Camera #1"))])],
        "Patterns",
    );
    let mut p = Project::new(cfg).unwrap();
    assert_eq!(p.rename_input(&"Camera #1".to_string(), "Webcam".to_string()), Ok(()));
    assert_eq!(names(&choices(p.config())), vec!["Patterns", "Webcam"]);
    assert_eq!(p.config().render_chain[0].inputs[0].source, linear("Webcam"));
    assert_eq!(p.config().final_stage.inputs[0].source, SampledInput::Mipmaps("Patterns".to_string()));
    let msgs = p.take_messages();
    assert_eq!(msgs[0], Message::RenameInput("Camera #1".to_string(), "Webcam".to_string()));
    assert!(msgs.contains(&Message::UpdateRenderStage(
        0,
        StageUpdate::Input("iChannel0".to_string(), linear("Webcam"))
    )));
    assert!(p.take_messages().is_empty());
}

#[test]
fn rename_input_collision_is_refused() {
    let cfg = config(
        vec![("Camera #1", cam()), ("Camera #2", cam())],
        vec![stage("Patterns", "generic/dots", vec![("iChannel0", linear("Camera #1"))])],
        "Patterns",
    );
    let mut p = Project::new(cfg).unwrap();
    assert_eq!(
        p.rename_input(&"Camera #1".to_string(), "Patterns".to_string()),
        Err(EditError::NameCollision)
    );
    assert_eq!(
        p.rename_input(&"Camera #1".to_string(), "Camera #2".to_string()),
        Err(EditError::NameCollision)
    );
    assert_eq!(p.rename_input(&"Camera #1".to_string(), "Camera #1".to_string()), Ok(()));
    assert_eq!(p.config().inputs[0].name, "Camera #1");
    assert!(p.take_messages().is_empty());
}

#[test]
fn rename_stage_propagates_and_checks_collisions() {
    let cfg = config(
        vec![("Camera #1", cam())],
        vec![
            stage("A", "generic/copy", vec![("iChannel0", linear("Camera #1"))]),
            stage("B", "generic/copy", vec![("iChannel0", SampledInput::Nearest("A".to_string()))]),
        ],
        "B",
    );
    let mut p = Project::new(cfg).unwrap();
    let ids = p.stage_ids().clone();
    assert_eq!(p.rename_stage(ids[0], "B".to_string()), Err(EditError::NameCollision));
    assert_eq!(p.rename_stage(ids[0], "Camera #1".to_string()), Err(EditError::NameCollision));
    assert_eq!(p.rename_stage(ids[0], "Blur".to_string()), Ok(()));
    assert_eq!(p.config().render_chain[0].name, "Blur");
    assert_eq!(p.config().render_chain[1].inputs[0].source, SampledInput::Nearest("Blur".to_string()));
    let msgs = p.take_messages();
    assert_eq!(msgs[0], Message::UpdateRenderStage(0, StageUpdate::Name("Blur".to_string())));
    assert_eq!(p.rename_stage(12345, "X".to_string()), Ok(()));
}

#[test]
fn removing_only_input_retargets_to_remaining_stage() {
    let cfg = config(
        vec![("Camera #1", cam())],
        vec![stage("Patterns", "generic/dots", vec![("iChannel0", linear("Camera #1"))])],
        "Camera #1",
    );
    let mut p = Project::new(cfg).unwrap();
    p.remove_input(&"Camera #1".to_string());
    assert!(p.config().inputs.is_empty());
    assert_eq!(p.config().render_chain[0].inputs[0].source, linear("Patterns"));
    assert_eq!(p.config().final_stage.inputs[0].source, SampledInput::Mipmaps("Patterns".to_string()));
    let msgs = p.take_messages();
    assert_eq!(msgs[0], Message::RemoveInput("Camera #1".to_string()));
    assert!(msgs.contains(&Message::UpdateFinalStage(StageUpdate::Input(
        "iChannel0".to_string(),
        SampledInput::Mipmaps("Patterns".to_string())
    ))));
}

#[test]
fn removing_last_source_clears_references() {
    let cfg = config(vec![("Camera #1", cam())], vec![], "Camera #1");
    let mut p = Project::new(cfg).unwrap();
    p.remove_input(&"Camera #1".to_string());
    assert!(choices(p.config()).is_empty());
    assert_eq!(p.config().final_stage.inputs[0].source, SampledInput::Mipmaps(String::new()));
    p.remove_input(&"Camera #1".to_string());
    assert_eq!(p.take_messages().len(), 2);
}

fn catalog() -> FilterCatalog {
    let mut c = FilterCatalog::new();
    c.add(
        "generic/copy".to_string(),
        FilterSchema {
            mode: FilterMode::Rectangle(0, 0, 1.0f32.to_bits(), 1.0f32.to_bits()),
            inputs: vec!["iChannel0".to_string()],
            variables: vec![],
        },
    );
    c.add(
        "generate/dots".to_string(),
        FilterSchema {
            mode: FilterMode::Particles(1000),
            inputs: vec!["tex".to_string(), "mask".to_string()],
            variables: vec![VariableDecl { name: "count".to_string(), default: DataHolder::Int(8) }],
        },
    );
    c.add(
        "generic/blend".to_string(),
        FilterSchema {
            mode: FilterMode::Rectangle(0, 0, 0, 0),
            inputs: vec!["tex".to_string(), "overlay".to_string()],
            variables: vec![VariableDecl {
                name: "mix".to_string(),
                default: DataHolder::Float(0.5f32.to_bits()),
            }],
        },
    );
    c.add(
        "generic/copy".to_string(),
        FilterSchema { mode: FilterMode::Particles(1), inputs: vec![], variables: vec![] },
    );
    c
}

fn dots_project() -> Project {
    let mut dots = stage(
        "Dots",
        "generate/dots",
        vec![("tex", SampledInput::Nearest("Video #1".to_string())), ("mask", linear("Camera #1"))],
    );
    dots.variables.push(VariableSlot {
        name: "count".to_string(),
        value: DataHolder::Int(12),
        automation: Automation::Lfo(lfo()),
    });
    let cfg = config(
        vec![("Camera #1", cam()), ("Video #1", InputConfig::Midi { pattern: "*".to_string() })],
        vec![dots],
        "Dots",
    );
    Project::new(cfg).unwrap()
}

#[test]
fn set_filter_drops_undeclared_variable_and_its_automation() {
    let mut p = dots_project();
    let id = p.stage_ids()[0];
    p.set_filter(id, "generic/copy".to_string(), &catalog());
    let s = &p.config().render_chain[0];
    assert_eq!(s.filter, "generic/copy");
    assert!(s.variables.is_empty());
    assert_eq!(s.inputs.len(), 1);
    assert_eq!(s.inputs[0].uniform, "iChannel0");
    assert_eq!(s.inputs[0].source, linear("Camera #1"));
    assert_eq!(s.filter_mode_params, FilterMode::Rectangle(0, 0, 1.0f32.to_bits(), 1.0f32.to_bits()));
    let msgs = p.take_messages();
    assert_eq!(
        msgs,
        vec![
            Message::UpdateRenderStage(0, StageUpdate::Filter("generic/copy".to_string())),
            Message::UpdateRenderStage(
                0,
                StageUpdate::Input("iChannel0".to_string(), linear("Camera #1"))
            ),
        ]
    );
}

#[test]
fn set_filter_keeps_shared_fields() {
    let mut p = dots_project();
    let id = p.stage_ids()[0];
    p.set_filter(id, "generic/blend".to_string(), &catalog());
    let s = &p.config().render_chain[0];
    assert_eq!(s.inputs.len(), 2);
    assert_eq!(s.inputs[0].uniform, "tex");
    assert_eq!(s.inputs[0].source, SampledInput::Nearest("Video #1".to_string()));
    assert_eq!(s.inputs[1].uniform, "overlay");
    assert_eq!(s.inputs[1].source, linear("Camera #1"));
    assert!(s.inputs.iter().all(|i| i.uniform != "mask"));
    assert_eq!(s.variables.len(), 1);
    assert_eq!(s.variables[0].name, "mix");
    assert_eq!(s.variables[0].value, DataHolder::Float(0.5f32.to_bits()));
    assert_eq!(s.variables[0].automation, Automation::Off);
    assert_eq!(p.take_messages().len(), 4);
}

#[test]
fn set_filter_back_keeps_retained_variable() {
    let mut p = dots_project();
    let id = p.stage_ids()[0];
    p.set_filter(id, "generate/dots".to_string(), &catalog());
    let s = &p.config().render_chain[0];
    assert_eq!(s.filter_mode_params, FilterMode::Particles(1000));
    assert_eq!(s.variables[0].value, DataHolder::Int(12));
    assert_eq!(s.variables[0].automation, Automation::Lfo(lfo()));
}

#[test]
fn set_filter_unresolved_is_recorded_only() {
    let mut p = dots_project();
    let id = p.stage_ids()[0];
    p.set_filter(id, "missing/filter".to_string(), &catalog());
    let s = &p.config().render_chain[0];
    assert_eq!(s.filter, "missing/filter");
    assert_eq!(s.inputs.len(), 2);
    assert_eq!(s.variables.len(), 1);
    assert_eq!(
        p.take_messages(),
        vec![Message::UpdateRenderStage(0, StageUpdate::Filter("missing/filter".to_string()))]
    );
}

#[test]
fn catalog_first_entry_wins() {
    let c = catalog();
    let s = c.resolve(&"generic/copy".to_string()).unwrap();
    assert_eq!(s.inputs, vec!["iChannel0".to_string()]);
    assert!(c.resolve(&"nope".to_string()).is_none());
}

#[test]
fn automation_arity_is_checked() {
    let mut p = dots_project();
    let id = p.stage_ids()[0];
    let count = "count".to_string();
    assert_eq!(
        p.set_variable_automation(id, &count, Automation::Lfo2d(lfo(), lfo())),
        Err(EditError::AutomationArityMismatch)
    );
    assert_eq!(p.set_variable_automation(id, &count, Automation::Off), Ok(()));
    assert_eq!(p.config().render_chain[0].variables[0].automation, Automation::Off);
    p.set_variable(id, &count, DataHolder::Int(3));
    assert_eq!(p.config().render_chain[0].variables[0].value, DataHolder::Int(3));
    p.set_variable(id, &"nothing".to_string(), DataHolder::Int(3));
    let msgs = p.take_messages();
    assert_eq!(
        msgs,
        vec![
            Message::UpdateRenderStage(0, StageUpdate::Automation(count.clone(), Automation::Off)),
            Message::UpdateRenderStage(0, StageUpdate::Variable(count, DataHolder::Int(3))),
        ]
    );
}

#[test]
fn moves_keep_choices_and_address_positions() {
    let cfg = config(
        vec![("Camera #1", cam())],
        vec![
            stage("A", "generic/copy", vec![]),
            stage("B", "generic/copy", vec![]),
            stage("C", "generic/copy", vec![]),
        ],
        "C",
    );
    let mut p = Project::new(cfg).unwrap();
    let before = choices(p.config());
    let ids = p.stage_ids().clone();
    p.move_stage(ids[0], 99);
    p.move_stage(ids[2], 0);
    let order: Vec<&str> = p.config().render_chain.iter().map(|s| s.name.as_str()).collect();
    assert_eq!(order, vec!["C", "B", "A"]);
    assert_eq!(p.stage_ids(), &vec![ids[2], ids[1], ids[0]]);
    assert_eq!(choices(p.config()), before);
    assert_eq!(p.take_messages(), vec![Message::MoveRenderStage(0, 2), Message::MoveRenderStage(1, 0)]);
    p.move_stage(777, 0);
    assert!(p.take_messages().is_empty());
}

#[test]
fn add_and_remove_stage() {
    let cfg = config(vec![("Camera #1", cam())], vec![], "Camera #1");
    let mut p = Project::new(cfg).unwrap();
    let id = p.add_stage(stage("Layer #0", "generic/copy", vec![("iChannel0", linear("Camera #2"))])).unwrap();
    assert_eq!(p.stage_ids(), &vec![id]);
    assert_eq!(p.config().render_chain[0].inputs[0].source, linear("Camera #1"));
    let msgs = p.take_messages();
    assert!(matches!(msgs[0], Message::AddRenderStage(_)));
    p.remove_stage(id);
    assert!(p.config().render_chain.is_empty());
    assert_eq!(p.take_messages(), vec![Message::RemoveRenderStage(0)]);
    p.remove_stage(id);
    assert!(p.take_messages().is_empty());
}

#[test]
fn add_input_uses_conventional_names() {
    let cfg = config(vec![], vec![], "");
    let mut p = Project::new(cfg).unwrap();
    assert_eq!(p.add_input(cam()), "Camera #1");
    assert_eq!(p.add_input(cam()), "Camera #2");
    assert_eq!(p.add_input(InputConfig::Midi { pattern: "*".to_string() }), "Midi #1");
    assert_eq!(p.config().final_stage.inputs[0].source, SampledInput::Mipmaps("Camera #1".to_string()));
    assert!(p.rename_input(&"Camera #1".to_string(), "Camera #3".to_string()).is_ok());
    assert_eq!(p.add_input(cam()), "Camera #4");
    assert_eq!(p.config().inputs.len(), 4);
}

#[test]
fn add_input_skips_taken_names() {
    let mut p = Project::new(config(vec![], vec![], "")).unwrap();
    assert_eq!(p.add_input(cam()), "Camera #1");
    assert_eq!(p.add_input(cam()), "Camera #2");
    p.remove_input(&"Camera #1".to_string());
    assert_eq!(p.add_input(cam()), "Camera #3");
    let names: Vec<&str> = p.config().inputs.iter().map(|i| i.name.as_str()).collect();
    assert_eq!(names, vec!["Camera #2", "Camera #3"]);
    let id = p.add_stage(stage("Video #1", "generic/copy", vec![])).unwrap();
    assert_eq!(p.stage_ids(), &vec![id]);
    assert_eq!(p.add_input(InputConfig::default_for(InputKind::Video)), "Video #2");
}

#[test]
fn conventional_name_counts_past_nine() {
    let inputs: Vec<(&str, InputConfig)> = vec![
        ("a", cam()), ("b", cam()), ("c", cam()), ("d", cam()), ("e", cam()),
        ("f", cam()), ("g", cam()), ("h", cam()), ("i", cam()), ("j", cam()),
        ("k", cam()), ("l", cam()),
    ];
    let p = Project::new(config(inputs, vec![], "a")).unwrap();
    assert_eq!(p.conventional_input_name(InputKind::Cam), "Camera #13");
    assert_eq!(p.conventional_input_name(InputKind::Video), "Video #1");
}

#[test]
fn duplicate_input_names_are_refused() {
    assert!(Project::new(config(vec![("x", cam()), ("x", cam())], vec![], "x")).is_none());
}

#[test]
fn update_input_ignores_missing_fields() {
    let cfg = config(
        vec![(
            "Picture #1",
            InputConfig::Picture { path: "a.png".to_string(), width: 10, height: 10 },
        )],
        vec![],
        "Picture #1",
    );
    let mut p = Project::new(cfg).unwrap();
    let n = "Picture #1".to_string();
    p.update_input(&n, InputUpdate::SetSpeed(Speed::Fps(25.0f32.to_bits())));
    assert!(p.take_messages().is_empty());
    p.update_input(&n, InputUpdate::SetWidth(320));
    assert_eq!(
        p.config().inputs[0].config,
        InputConfig::Picture { path: "a.png".to_string(), width: 320, height: 10 }
    );
    assert_eq!(p.take_messages(), vec![Message::UpdateInput(n, InputUpdate::SetWidth(320))]);
}

#[test]
fn settings_are_queued() {
    let mut p = Project::new(config(vec![], vec![], "")).unwrap();
    p.set_bpm(90.0f32.to_bits());
    p.set_width(1920);
    p.set_vsync(false);
    p.set_server_port(4000);
    p.start();
    assert_eq!(p.config().bpm, 90.0f32.to_bits());
    assert_eq!(p.config().view.width, 1920);
    assert!(!p.config().view.vsync);
    assert_eq!(p.config().server.port, 4000);
    assert_eq!(
        p.take_messages(),
        vec![
            Message::SetBpm(90.0f32.to_bits()),
            Message::SetWidth(1920),
            Message::SetVSync(false),
            Message::Start
        ]
    );
}

#[test]
fn final_input_is_set_or_added() {
    let mut p = Project::new(config(vec![("Camera #1", cam())], vec![], "")).unwrap();
    p.set_final_input(&"iChannel0".to_string(), linear("Camera #1"));
    assert_eq!(p.config().final_stage.inputs.len(), 1);
    assert_eq!(p.config().final_stage.inputs[0].source, linear("Camera #1"));
    p.set_final_input(&"iChannel1".to_string(), linear("Camera #1"));
    assert_eq!(p.config().final_stage.inputs.len(), 2);
}

#[test]
fn choices_are_sorted_and_distinct() {
    let cfg = config(
        vec![("b", cam()), ("Zed", cam())],
        vec![stage("a", "x", vec![]), stage("a", "x", vec![]), stage("B", "x", vec![])],
        "",
    );
    assert_eq!(names(&choices(&cfg)), vec!["B", "Zed", "a", "b"]);
}

#[test]
fn retarget_keeps_surviving_and_picks_nearest() {
    let c = vec!["Camera #2".to_string(), "Patterns".to_string(), "Video #1".to_string()];
    assert_eq!(retarget(&c, &"Patterns".to_string()), "Patterns");
    assert_eq!(retarget(&c, &"Camera #1".to_string()), "Camera #2");
    assert_eq!(retarget(&c, &"Video".to_string()), "Video #1");
    assert_eq!(retarget(&c, &"Camera #1".to_string()), retarget(&c, &"Camera #1".to_string()));
    let tie = vec!["ab".to_string(), "ba".to_string()];
    assert_eq!(retarget(&tie, &"aa".to_string()), "ab");
    assert_eq!(retarget(&vec![], &"x".to_string()), "");
    let unbound = vec!["a long name".to_string(), "b".to_string()];
    assert_eq!(retarget(&unbound, &String::new()), "a long name");
}

#[test]
fn repair_fixes_stale_references_only() {
    let cfg = config(
        vec![("Camera #2", cam()), ("Video #1", cam())],
        vec![stage(
            "Patterns",
            "generic/dots",
            vec![("a", linear("Camera #1")), ("b", SampledInput::Nearest("Video #1".to_string()))],
        )],
        "Patterns",
    );
    let mut p = Project::new(cfg).unwrap();
    p.repair_references();
    let s = &p.config().render_chain[0];
    assert_eq!(s.inputs[0].source, linear("Camera #2"));
    assert_eq!(s.inputs[1].source, SampledInput::Nearest("Video #1".to_string()));
    assert_eq!(
        p.take_messages(),
        vec![Message::UpdateRenderStage(0, StageUpdate::Input("a".to_string(), linear("Camera #2")))]
    );
    let back = p.into_config();
    assert_eq!(back.render_chain[0].inputs[0].source, linear("Camera #2"));
}

#[test]
fn new_stage_from_catalog_defaults() {
    let p = Project::new(config(vec![("Camera #1", cam())], vec![], "Camera #1")).unwrap();
    assert_eq!(p.conventional_stage_name(), "Layer #0");
    let s = p
        .stage_from_catalog("Layer #0".to_string(), "generate/dots".to_string(), &catalog())
        .unwrap();
    assert_eq!(s.name, "Layer #0");
    assert_eq!(s.filter, "generate/dots");
    assert_eq!(s.filter_mode_params, FilterMode::Particles(1000));
    assert_eq!(s.precision, Precision::U8);
    let uniforms: Vec<&str> = s.inputs.iter().map(|i| i.uniform.as_str()).collect();
    assert_eq!(uniforms, vec!["tex", "mask"]);
    assert!(s.inputs.iter().all(|i| i.source == linear("Camera #1")));
    assert_eq!(
        s.variables,
        vec![VariableSlot {
            name: "count".to_string(),
            value: DataHolder::Int(8),
            automation: Automation::Off
        }]
    );
    assert!(p.stage_from_catalog("x".to_string(), "unknown".to_string(), &catalog()).is_none());
}

#[test]
fn default_input_parameters() {
    assert_eq!(InputConfig::default_for(InputKind::Cam), cam());
    assert_eq!(
        InputConfig::default_for(InputKind::Video),
        InputConfig::Video {
            path: "res/example_video.mp4".to_string(),
            width: 640,
            height: 480,
            speed: Speed::Fps(25.0f32.to_bits())
        }
    );
    assert_eq!(
        InputConfig::default_for(InputKind::Midi),
        InputConfig::Midi { pattern: "*".to_string() }
    );
    assert_eq!(InputConfig::default_for(InputKind::Picture).kind(), InputKind::Picture);
}

#[test]
fn add_stage_refuses_taken_name() {
    let mut p = Project::new(config(vec![("Camera #1", cam())], vec![], "Camera #1")).unwrap();
    assert_eq!(
        p.add_stage(stage("Camera #1", "generic/copy", vec![])),
        Err(EditError::NameCollision)
    );
    assert!(p.config().render_chain.is_empty());
    assert!(p.take_messages().is_empty());
    assert!(p.add_stage(stage("Layer #0", "generic/copy", vec![])).is_ok());
    assert_eq!(
        p.add_stage(stage("Layer #0", "generic/copy", vec![])),
        Err(EditError::NameCollision)
    );
}

#[test]
fn stage_geometry_and_precision() {
    let mut p = dots_project();
    let id = p.stage_ids()[0];
    p.set_filter_mode_params(id, FilterMode::Particles(64));
    p.set_precision(id, Precision::F32);
    p.set_precision(999, Precision::F16);
    assert_eq!(p.config().render_chain[0].filter_mode_params, FilterMode::Particles(64));
    assert_eq!(p.config().render_chain[0].precision, Precision::F32);
    assert_eq!(
        p.take_messages(),
        vec![
            Message::UpdateRenderStage(0, StageUpdate::FilterModeParams(FilterMode::Particles(64))),
            Message::UpdateRenderStage(0, StageUpdate::Precision(Precision::F32)),
        ]
    );
}

#[test]
fn explicit_ids_are_checked() {
    let chain = || vec![stage("A", "generic/copy", vec![]), stage("B", "generic/copy", vec![])];
    let mk = |ids: Vec<u128>| Project::with_ids(config(vec![("Camera #1", cam())], chain(), "A"), ids);
    assert!(mk(vec![1, 1]).is_none());
    assert!(mk(vec![1]).is_none());
    let mut p = mk(vec![7, 9]).unwrap();
    assert_eq!(p.stage_ids(), &vec![7, 9]);
    assert_eq!(p.add_stage_with_id(stage("C", "generic/copy", vec![]), 9), Err(EditError::IdTaken));
    assert_eq!(
        p.add_stage_with_id(stage("A", "generic/copy", vec![]), 9),
        Err(EditError::NameCollision)
    );
    assert_eq!(p.add_stage_with_id(stage("C", "generic/copy", vec![]), 3), Ok(()));
    assert_eq!(p.stage_ids(), &vec![7, 9, 3]);
    assert_eq!(p.stage_index(3), Some(2));
    assert_eq!(p.stage_index(4), None);
}

#[test]
fn first_minimum_prefers_earliest() {
    assert_eq!(first_minimum_index(&vec![3, 1, 1]), 1);
    assert_eq!(first_minimum_index(&vec![5]), 0);
    assert_eq!(first_minimum_index(&vec![2, 2, 0, 7, 0]), 2);
}

#[test]
fn update_input_fields_by_kind() {
    let video = InputConfig::Video {
        path: "v.mp4".to_string(),
        width: 640,
        height: 480,
        speed: Speed::Fps(25.0f32.to_bits()),
    };
    let cfg = config(
        vec![("Video #1", video), ("Midi #1", InputConfig::Midi { pattern: "*".to_string() })],
        vec![],
        "Video #1",
    );
    let mut p = Project::new(cfg).unwrap();
    let v = "Video #1".to_string();
    let m = "Midi #1".to_string();
    p.update_input(&v, InputUpdate::SetSpeed(Speed::Fpb(2.0f32.to_bits())));
    p.update_input(&m, InputUpdate::SetPath("nanoKONTROL".to_string()));
    p.update_input(&m, InputUpdate::SetHeight(3));
    p.update_input(&"Nobody".to_string(), InputUpdate::SetWidth(1));
    let idx = p.input_index(&v).unwrap();
    assert_eq!(
        p.config().inputs[idx].config,
        InputConfig::Video {
            path: "v.mp4".to_string(),
            width: 640,
            height: 480,
            speed: Speed::Fpb(2.0f32.to_bits())
        }
    );
    let idx = p.input_index(&m).unwrap();
    assert_eq!(p.config().inputs[idx].config, InputConfig::Midi { pattern: "nanoKONTROL".to_string() });
    assert_eq!(p.take_messages().len(), 2);
    assert_eq!(p.input_index(&"Nobody".to_string()), None);
}

#[test]
fn catalog_refuses_repeated_names() {
    let mut c = FilterCatalog::new();
    let twice = FilterSchema {
        mode: FilterMode::Particles(1),
        inputs: vec!["tex".to_string(), "tex".to_string()],
        variables: vec![],
    };
    assert!(!c.add("bad/inputs".to_string(), twice));
    let vars = FilterSchema {
        mode: FilterMode::Particles(1),
        inputs: vec![],
        variables: vec![
            VariableDecl { name: "n".to_string(), default: DataHolder::Int(1) },
            VariableDecl { name: "n".to_string(), default: DataHolder::Int(2) },
        ],
    };
    assert!(!c.add("bad/variables".to_string(), vars));
    assert!(c.resolve(&"bad/inputs".to_string()).is_none());
    assert!(c.entries.is_empty());
    let ok = FilterSchema { mode: FilterMode::Particles(1), inputs: vec!["tex".to_string()], variables: vec![] };
    assert!(c.add("good".to_string(), ok));
}

#[test]
fn stages_with_repeated_keys_are_refused() {
    let bad = stage("A", "generic/copy", vec![("tex", linear("x")), ("tex", linear("y"))]);
    assert!(!bad.is_keyed());
    assert!(Project::with_ids(config(vec![("x", cam())], vec![bad], "x"), vec![1]).is_none());
    let good = stage("A", "generic/copy", vec![("tex", linear("x")), ("mask", linear("y"))]);
    assert!(good.is_keyed());
}

#[test]
fn new_project_defaults() {
    let c = ProjectConfig::new_project();
    assert_eq!(c.bpm, 89.0f32.to_bits());
    assert_eq!((c.view.width, c.view.height), (640, 480));
    assert_eq!(c.view.target_fps, 60.0f32.to_bits());
    assert!(c.view.dynamic && c.view.vsync && !c.view.screenshot);
    assert_eq!(c.view.screenshot_path, "output/");
    assert_eq!(c.server, ServerConfig { ip: "localhost".to_string(), port: 3000, enable: false });
    assert!(c.inputs.is_empty());
    assert_eq!(c.render_chain.len(), 1);
    assert_eq!(c.render_chain[0].name, "Patterns");
    assert_eq!(c.render_chain[0].filter, "generate/dots");
    assert_eq!(
        c.render_chain[0].filter_mode_params,
        FilterMode::Rectangle(0, 0, 1.0f32.to_bits(), 1.0f32.to_bits())
    );
    assert_eq!(c.render_chain[0].precision, Precision::F32);
    assert_eq!(c.final_stage.name, "FinalStage");
    assert_eq!(c.final_stage.inputs, vec![InputSlot { uniform: "iChannel0".to_string(), source: linear("Patterns") }]);
    let p = Project::new(c).unwrap();
    assert_eq!(names(&choices(p.config())), vec!["Patterns"]);
}
