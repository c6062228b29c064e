use radiance_switch::imgui_renderer::{imgui_build_plan, imgui_program, ImguiBuildStep, ImguiProgramBuild};

fn run(fail_at: Option<ImguiBuildStep>) -> (ImguiProgramBuild, Vec<ImguiBuildStep>) {
    let mut build = ImguiProgramBuild::new();
    let mut seen = Vec::new();
    while let Some(step) = build.next_step() {
        seen.push(step);
        build.step_done(Some(step) != fail_at);
    }
    (build, seen)
}

#[test]
fn imgui_plan_order() {
    let plan = imgui_build_plan();
    assert_eq!(plan.len(), 17);
    assert_eq!(plan[0], ImguiBuildStep::CreateObjects);
    assert_eq!(plan[3], ImguiBuildStep::AttachVertex);
    assert_eq!(plan[7], ImguiBuildStep::BindAttrib { location: 0, name: "position" });
    assert_eq!(plan[8], ImguiBuildStep::BindAttrib { location: 1, name: "uv" });
    assert_eq!(plan[9], ImguiBuildStep::BindAttrib { location: 2, name: "color" });
    assert_eq!(plan[10], ImguiBuildStep::Link);
    assert_eq!(plan[12], ImguiBuildStep::DeleteShaders);
    assert_eq!(plan[14], ImguiBuildStep::SetSampler { name: "tex", unit: 0 });
    assert_eq!(plan[15], ImguiBuildStep::LookupProjection { name: "proj" });
    assert_eq!(plan[16], ImguiBuildStep::UseNone);
}

#[test]
fn imgui_build_succeeds_after_every_step() {
    let (build, seen) = run(None);
    assert_eq!(seen, imgui_build_plan());
    assert_eq!(build.outcome(), Some(Ok(())));
    assert_eq!(imgui_program(&build, 7, 3, ""), Ok((7, 3)));
}

#[test]
fn imgui_vertex_failure_skips_fragment() {
    let (build, seen) = run(Some(ImguiBuildStep::CheckVertex));
    assert_eq!(seen.len(), 3);
    assert!(!seen.contains(&ImguiBuildStep::CompileFragment));
    assert_eq!(
        imgui_program(&build, 7, 3, "bad vs"),
        Err("imgui vertex shader failed to compile: bad vs".to_string())
    );
}

#[test]
fn imgui_fragment_failure_message() {
    let (build, seen) = run(Some(ImguiBuildStep::CheckFragment));
    assert_eq!(seen.last(), Some(&ImguiBuildStep::CheckFragment));
    assert_eq!(
        imgui_program(&build, 7, 3, "bad fs"),
        Err("imgui fragment shader failed to compile: bad fs".to_string())
    );
}

#[test]
fn imgui_link_failure_message_has_no_log() {
    let (build, seen) = run(Some(ImguiBuildStep::CheckLink));
    assert!(!seen.contains(&ImguiBuildStep::DeleteShaders));
    assert_eq!(imgui_program(&build, 7, 3, "ignored"), Err("imgui shader program failed to link".to_string()));
}
