use fere::chamber::{Chamber, ChamberConfig, ChamberState};
use fere::configs::{FereConfigs, IrradianceVolumeConfigs};
use fere::fere::{create_renderer_param, Error, Fere};
use fere::frame::{Frame, FrameConfig};
use fere::log::{decimal, sort_logs, FrameLog, OpError};
use fere::ops::{
    AddAmbientLight, AddMajorLight, AddPointLight, DrawBillboard, DrawEmissiveStatic, DrawGeneral,
    DrawImage, DrawLine, DrawWireFrame, Object, RenderOp, ShadeWithIv, ShowInternalTexture,
    VisualizeProbes,
};
use fere::probe_volume::{Probe, ProbeVolume};
use fere::render_unit::{Lighting, RenderUnit};
use fere::renderer::{
    internal_texture, EndStep, InternalTexture, OverlayDraw, RenderAction, RenderEnd, RenderPhase,
    Renderer, RendererParams, ShadePass,
};
use fere::vec::{IVec2, IVec3};

type V3 = (f32, f32, f32);

fn volume(number: IVec3, param: usize) -> ProbeVolume<V3, f32> {
    let count = (number.x * number.y * number.z) as usize;
    let probes = (0..count)
        .map(|slot| Probe {
            pos: (slot as f32, 0.0, 0.0),
            sh: (0..param).map(|t| ((0.5, 0.5, 0.5), (0.25, 0.25, 0.25), t as f32)).collect(),
        })
        .collect();
    ProbeVolume::new(
        number,
        param,
        4,
        (20.0, 20.0, 20.0),
        4.0,
        (12.0, 12.0, 12.0),
        (4.0, 4.0, 4.0),
        probes,
        (0.0, 0.0, 0.0),
        0.0,
    )
    .unwrap()
}

fn chamber() -> Chamber<V3, f32> {
    Chamber {
        config: ChamberConfig { bpos: (0.0, 0.0, 0.0), size: (20.0, 20.0, 20.0) },
        state: ChamberState::new(volume(IVec3::new(2, 1, 1), 2)),
    }
}

fn end(
    mut renderer: Renderer<f32, V3, f32>,
    baked: Vec<Option<Vec<(V3, V3, f32)>>>,
    now: i64,
) -> RenderEnd<f32, V3, f32> {
    renderer.captures();
    renderer.finish(baked, now)
}

fn params(gi: bool) -> RendererParams {
    RendererParams {
        debug_lightvolume_outline: false,
        enable_shadow: true,
        enable_irradiance_volume: gi,
    }
}

fn general(body: f32, shadow: bool, chamber_index: u32) -> RenderOp<f32> {
    RenderOp::DrawGeneral(DrawGeneral {
        object: Object { body, shadow, irradiance_volume: false, chamber_index },
        surface: body + 0.5,
    })
}

fn configs(max_chamber_num: usize, gi: bool) -> FereConfigs<f32> {
    FereConfigs {
        resolution: IVec2::new(640, 480),
        shadow_resolution: 512,
        probe_resolution: 16,
        max_major_lights: 4,
        irradiance_volume: if gi { Some(IrradianceVolumeConfigs {}) } else { None },
        max_chamber_num,
        pv_scale: 12.0,
    }
}

#[test]
fn frame_opens_with_start_marker_and_camera() {
    let (frame, items) = Frame::new(FrameConfig { camera: 1.5f32, show_lightvolume_outline: true });
    assert_eq!(items.len(), 2);
    assert!(matches!(items[0], RenderOp::StartFrame(_)));
    assert!(matches!(items[1], RenderOp::SetCamera(c) if c == 1.5));
    assert!(frame.config.show_lightvolume_outline);
    assert!(matches!(frame.end(), RenderOp::EndFrame(_)));
}

#[test]
fn push_sends_a_plain_operation_as_it_is() {
    let (mut frame, _) = Frame::new(FrameConfig { camera: 0.0f32, show_lightvolume_outline: false });
    let items = frame.push(RenderOp::DrawLine(DrawLine { line: 3.0 }));
    assert_eq!(items.len(), 1);
    assert!(matches!(&items[0], RenderOp::DrawLine(l) if l.line == 3.0));
}

#[test]
fn push_takes_a_composite_apart_in_order() {
    let (mut frame, _) = Frame::new(FrameConfig { camera: 0.0f32, show_lightvolume_outline: false });
    let items = frame.push(RenderOp::Multiple(vec![
        RenderOp::DrawLine(DrawLine { line: 1.0 }),
        RenderOp::DrawWireFrame(DrawWireFrame { frame: 2.0 }),
        general(3.0, true, 0),
    ]));
    assert_eq!(items.len(), 3);
    assert!(matches!(&items[0], RenderOp::DrawLine(l) if l.line == 1.0));
    assert!(matches!(&items[1], RenderOp::DrawWireFrame(w) if w.frame == 2.0));
    assert!(matches!(&items[2], RenderOp::DrawGeneral(d) if d.object.body == 3.0));
    assert!(items.iter().all(|op| !matches!(op, RenderOp::Multiple(_))));
    assert!(items.iter().all(|op| op.is_dispatchable()));
    assert!(frame.push(RenderOp::Multiple(Vec::new())).is_empty());
}

#[test]
fn composites_are_not_dispatchable_but_deliverable() {
    let composite: RenderOp<f32> = RenderOp::Multiple(vec![
        RenderOp::DrawLine(DrawLine { line: 1.0 }),
        RenderOp::DrawLine(DrawLine { line: 2.0 }),
    ]);
    assert!(!composite.is_dispatchable());
    assert!(composite.is_deliverable());
    let nested: RenderOp<f32> = RenderOp::Multiple(vec![RenderOp::Multiple(Vec::new())]);
    assert!(!nested.is_deliverable());
    let (frame, _) = Frame::new(FrameConfig { camera: 0.0f32, show_lightvolume_outline: false });
    let end = frame.end();
    assert!(!end.is_dispatchable());
    assert!(!end.is_deliverable());
    assert!(general(1.0, false, 0).is_deliverable());
}

#[test]
fn whole_frame_records_one_shadow_caster_and_no_log() {
    let mut renderer: Renderer<f32, V3, f32> = Renderer::new(params(false), vec![Some(chamber())]);
    assert_eq!(renderer.phase(), RenderPhase::Idle);
    let (mut frame, opening) =
        Frame::new(FrameConfig { camera: 9.0f32, show_lightvolume_outline: false });
    let mut queue = opening;
    queue.extend(frame.push(general(4.0, true, 0)));
    let end = frame.end();
    let mut actions = Vec::new();
    for op in queue {
        actions.extend(renderer.receive(op, 10));
    }
    assert_eq!(renderer.phase(), RenderPhase::Draining);
    assert_eq!(actions.len(), 3);
    assert!(matches!(actions[0], RenderAction::BindDeferredPass1));
    assert!(matches!(actions[1], RenderAction::BroadcastCamera(c) if c == 9.0));
    let unit = RenderUnit::for_geometry(Lighting::DefFull);
    assert!(matches!(
        actions[2],
        RenderAction::DrawGeneral { unit: u, object, surface } if u == unit && object == 4.0 && surface == 4.5
    ));
    assert!(matches!(end, RenderOp::EndFrame(_)));
    assert!(renderer.is_ready_to_finish());
    let captures = renderer.captures();
    assert_eq!(renderer.phase(), RenderPhase::Shading);
    assert_eq!(captures, vec![None]);
    let done = renderer.finish(Vec::new(), 0);
    assert!(done.logs.is_empty());
    assert_eq!(done.chambers.len(), 1);
    assert!(done.chambers[0].is_some());
    let plan = done.shading[0].as_ref().unwrap();
    assert_eq!(plan.chamber_index, 0);
    assert_eq!(plan.shadow_objects.len(), 1);
    assert_eq!(plan.shadow_objects[0].body, 4.0);
    assert_eq!(done.camera_info, Some(9.0));
}

#[test]
fn object_without_shadow_is_drawn_but_not_recorded() {
    let mut renderer: Renderer<f32, V3, f32> = Renderer::new(params(false), vec![Some(chamber())]);
    renderer.receive(RenderOp::SetCamera(1.0), 0);
    let actions = renderer.receive(general(4.0, false, 0), 0);
    assert_eq!(actions.len(), 1);
    let done = end(renderer, Vec::new(), 0);
    assert!(done.shading[0].as_ref().unwrap().shadow_objects.is_empty());
    assert!(done.logs.is_empty());
}

#[test]
fn light_for_a_missing_chamber_is_logged_and_dropped() {
    let mut renderer: Renderer<f32, V3, f32> = Renderer::new(params(false), vec![Some(chamber())]);
    renderer.receive(RenderOp::SetCamera(1.0), 0);
    let actions = renderer.receive(
        RenderOp::AddAmbientLight(AddAmbientLight { color: 1.0, omni: true, chamber_index: 99 }),
        42,
    );
    assert!(actions.is_empty());
    assert_eq!(renderer.logs.len(), 1);
    assert_eq!(renderer.logs[0].timestamp, 42);
    assert_eq!(renderer.logs[0].log, "Invalid chamber accesses: 99");
    let done = end(renderer, Vec::new(), 0);
    assert_eq!(done.logs.len(), 1);
    let plan = done.shading[0].as_ref().unwrap();
    assert!(plan.omni_lights.is_empty());
    assert!(plan.ambient_lights.is_empty());
}

#[test]
fn operation_for_an_empty_slot_is_logged_and_dropped() {
    let mut renderer: Renderer<f32, V3, f32> =
        Renderer::new(params(false), vec![None, Some(chamber())]);
    let actions = renderer.receive(general(1.0, true, 0), 7);
    assert!(actions.is_empty());
    assert_eq!(renderer.logs.len(), 1);
    assert_eq!(renderer.logs[0].log, "Invalid chamber accesses: 0");
    let actions = renderer.receive(
        RenderOp::VisualizeProbes(VisualizeProbes { chamber_index: 2 }),
        8,
    );
    assert!(actions.is_empty());
    assert_eq!(renderer.logs[1].log, "Invalid chamber accesses: 2");
    let actions = renderer.receive(
        RenderOp::VisualizeProbes(VisualizeProbes { chamber_index: 1 }),
        9,
    );
    assert!(matches!(actions[0], RenderAction::VisualizeProbes(1)));
    assert_eq!(renderer.logs.len(), 2);
}

#[test]
fn second_shade_request_is_logged_and_the_first_weight_stays() {
    let mut renderer: Renderer<f32, V3, f32> = Renderer::new(params(true), vec![Some(chamber())]);
    renderer.receive(RenderOp::SetCamera(1.0), 0);
    renderer.receive(RenderOp::ShadeWithIv(ShadeWithIv { chamber_index: 0, weight: 0.25 }), 1);
    assert!(renderer.logs.is_empty());
    renderer.receive(RenderOp::ShadeWithIv(ShadeWithIv { chamber_index: 0, weight: 0.75 }), 2);
    assert_eq!(renderer.logs.len(), 1);
    assert_eq!(
        renderer.logs[0].log,
        "Duplicated operations that must be unique: ShadeWithIv on chamber #0"
    );
    let done = end(renderer, vec![None], 0);
    assert_eq!(done.logs.len(), 1);
    let plan = done.shading[0].as_ref().unwrap();
    assert_eq!(plan.irradiance.as_ref().unwrap().weight, 0.25);
}

#[test]
fn shade_request_is_not_planned_without_irradiance_volumes() {
    let mut renderer: Renderer<f32, V3, f32> = Renderer::new(params(false), vec![Some(chamber())]);
    renderer.receive(RenderOp::SetCamera(1.0), 0);
    renderer.receive(RenderOp::ShadeWithIv(ShadeWithIv { chamber_index: 0, weight: 0.25 }), 1);
    let done = end(renderer, Vec::new(), 0);
    assert!(done.shading[0].as_ref().unwrap().irradiance.is_none());
    assert_eq!(done.chambers[0].as_ref().unwrap().state.current_probe(), (IVec3::new(0, 0, 0), 0));
}

#[test]
fn composite_is_dispatched_from_the_top_of_the_stack() {
    let mut renderer: Renderer<f32, V3, f32> = Renderer::new(params(false), vec![Some(chamber())]);
    let actions = renderer.receive(
        RenderOp::Multiple(vec![
            RenderOp::DrawLine(DrawLine { line: 1.0 }),
            RenderOp::DrawLine(DrawLine { line: 2.0 }),
            RenderOp::AddPointLight(AddPointLight { light: 5.0, chamber_index: 0 }),
            RenderOp::AddPointLight(AddPointLight { light: 6.0, chamber_index: 0 }),
        ]),
        0,
    );
    assert_eq!(actions.len(), 2);
    assert!(matches!(actions[0], RenderAction::DrawLine { line, .. } if line == 2.0));
    assert!(matches!(actions[1], RenderAction::DrawLine { line, .. } if line == 1.0));
    renderer.receive(RenderOp::SetCamera(1.0), 0);
    let done = end(renderer, Vec::new(), 0);
    let plan = done.shading[0].as_ref().unwrap();
    assert_eq!(plan.point_lights.len(), 2);
    assert_eq!(plan.point_lights[0].light, 6.0);
    assert_eq!(plan.point_lights[1].light, 5.0);
}

#[test]
fn major_light_is_outlined_only_when_asked() {
    let with_outline = RendererParams {
        debug_lightvolume_outline: true,
        enable_shadow: true,
        enable_irradiance_volume: false,
    };
    let mut renderer: Renderer<f32, V3, f32> = Renderer::new(with_outline, vec![Some(chamber())]);
    let light = || RenderOp::AddMajorLight(AddMajorLight { light: 3.0f32, chamber_index: 0 });
    let actions = renderer.receive(light(), 0);
    let unit = RenderUnit::for_geometry(Lighting::DefFixed);
    assert!(matches!(
        actions[0],
        RenderAction::OutlineLightVolume { unit: u, light } if u == unit && light == 3.0
    ));
    let mut renderer: Renderer<f32, V3, f32> = Renderer::new(params(false), vec![Some(chamber())]);
    assert!(renderer.receive(light(), 0).is_empty());
    renderer.receive(RenderOp::SetCamera(1.0), 0);
    let done = end(renderer, Vec::new(), 0);
    assert_eq!(done.shading[0].as_ref().unwrap().major_lights.len(), 1);
}

#[test]
fn emissive_object_is_recorded_for_the_probe_world() {
    let mut renderer: Renderer<f32, V3, f32> = Renderer::new(params(false), vec![Some(chamber())]);
    let emissive = |shadow: bool| {
        RenderOp::DrawEmissiveStatic(DrawEmissiveStatic {
            object: Object { body: 2.0f32, shadow, irradiance_volume: true, chamber_index: 0 },
            surface: 8.0,
            point_light: None,
        })
    };
    let actions = renderer.receive(emissive(true), 0);
    assert!(matches!(
        actions[0],
        RenderAction::DrawEmissiveStatic { object, surface, .. } if object == 2.0 && surface == 8.0
    ));
    renderer.receive(emissive(false), 0);
    renderer.receive(RenderOp::SetCamera(1.0), 0);
    let done = end(renderer, Vec::new(), 0);
    let plan = done.shading[0].as_ref().unwrap();
    assert_eq!(plan.shadow_objects.len(), 1);
    assert_eq!(plan.emissive_static_objects.len(), 2);
    assert_eq!(plan.emissive_static_objects[1].surface, 8.0);
}

#[test]
fn ambient_lights_are_split_by_kind_in_order() {
    let mut renderer: Renderer<f32, V3, f32> = Renderer::new(params(false), vec![Some(chamber())]);
    renderer.receive(RenderOp::SetCamera(1.0), 0);
    for (color, omni) in [(1.0, true), (2.0, false), (3.0, true), (4.0, false), (5.0, false)] {
        renderer.receive(
            RenderOp::AddAmbientLight(AddAmbientLight { color, omni, chamber_index: 0 }),
            0,
        );
    }
    let done = end(renderer, Vec::new(), 0);
    let plan = done.shading[0].as_ref().unwrap();
    let omni: Vec<f32> = plan.omni_lights.iter().map(|l| l.color).collect();
    let plain: Vec<f32> = plan.ambient_lights.iter().map(|l| l.color).collect();
    assert_eq!(omni, vec![1.0, 3.0]);
    assert_eq!(plain, vec![2.0, 4.0, 5.0]);
}

#[test]
fn two_dimensional_draws_wait_for_the_end_of_the_frame() {
    let mut renderer: Renderer<f32, V3, f32> = Renderer::new(params(false), Vec::new());
    renderer.receive(RenderOp::SetCamera(1.0), 0);
    let show = |name: &str, placement: f32| {
        RenderOp::ShowInternalTexture(ShowInternalTexture { name: name.to_string(), placement })
    };
    assert!(renderer
        .receive(RenderOp::DrawBillboard(DrawBillboard { billboard: 2.0 }), 0)
        .is_empty());
    assert!(renderer.receive(show("iv_illuminatiion", 3.0), 0).is_empty());
    assert!(renderer.receive(RenderOp::DrawImage(DrawImage { image: 1.0 }), 0).is_empty());
    assert!(renderer.receive(show("depth", 4.0), 0).is_empty());
    assert!(renderer.receive(show("normal", 5.0), 0).is_empty());
    assert!(renderer.receive(RenderOp::DrawImage(DrawImage { image: 6.0 }), 0).is_empty());
    assert!(renderer.logs.is_empty());
    let done = end(renderer, Vec::new(), 77);
    assert_eq!(done.finished_at, 77);
    assert_eq!(done.overlay.len(), 5);
    assert!(matches!(done.overlay[0], OverlayDraw::Image(i) if i == 1.0));
    assert!(matches!(done.overlay[1], OverlayDraw::Image(i) if i == 6.0));
    assert!(matches!(
        done.overlay[2],
        OverlayDraw::InternalTexture { texture: InternalTexture::IrradianceIllumination, placement }
            if placement == 3.0
    ));
    assert!(matches!(
        done.overlay[3],
        OverlayDraw::InternalTexture { texture: InternalTexture::Normal, placement } if placement == 5.0
    ));
    assert!(matches!(done.overlay[4], OverlayDraw::Billboard(b) if b == 2.0));
    assert_eq!(done.logs.len(), 1);
    assert_eq!(done.logs[0].timestamp, 77);
    assert_eq!(done.logs[0].log, "Invalid internal texture name: depth");
    assert_eq!(done.camera_info, Some(1.0));
}

#[test]
fn internal_textures_go_by_two_names() {
    assert_eq!(internal_texture(&"normal".to_string()), Some(InternalTexture::Normal));
    assert_eq!(
        internal_texture(&"iv_illuminatiion".to_string()),
        Some(InternalTexture::IrradianceIllumination)
    );
    assert_eq!(internal_texture(&"Normal".to_string()), None);
    assert_eq!(internal_texture(&"".to_string()), None);
}

#[test]
fn frame_needs_its_camera_to_finish() {
    let mut renderer: Renderer<f32, V3, f32> = Renderer::new(params(false), vec![Some(chamber())]);
    assert!(!renderer.is_ready_to_finish());
    renderer.receive(general(1.0, false, 0), 0);
    assert!(!renderer.is_ready_to_finish());
    renderer.receive(RenderOp::SetCamera(1.0), 0);
    assert!(renderer.is_ready_to_finish());
}

#[test]
fn chamber_is_shaded_pass_by_pass() {
    let mut renderer: Renderer<f32, V3, f32> = Renderer::new(params(true), vec![Some(chamber())]);
    renderer.receive(RenderOp::SetCamera(1.0), 0);
    let ops: Vec<RenderOp<f32>> = vec![
        RenderOp::AddPointLight(AddPointLight { light: 10.0, chamber_index: 0 }),
        RenderOp::AddMajorLight(AddMajorLight { light: 20.0, chamber_index: 0 }),
        RenderOp::AddAmbientLight(AddAmbientLight { color: 30.0, omni: false, chamber_index: 0 }),
        RenderOp::AddAmbientLight(AddAmbientLight { color: 40.0, omni: true, chamber_index: 0 }),
        RenderOp::ShadeWithIv(ShadeWithIv { chamber_index: 0, weight: 0.5 }),
        RenderOp::AddMajorLight(AddMajorLight { light: 21.0, chamber_index: 0 }),
        RenderOp::AddPointLight(AddPointLight { light: 11.0, chamber_index: 0 }),
    ];
    for op in ops {
        renderer.receive(op, 0);
    }
    let done = end(renderer, vec![None], 0);
    let passes = done.shading[0].as_ref().unwrap().passes();
    assert_eq!(passes.len(), 12);
    assert!(matches!(passes[0], ShadePass::BindDeferredPass2));
    assert!(matches!(passes[1], ShadePass::OmniLight(c) if c == 40.0));
    assert!(matches!(passes[2], ShadePass::AmbientLight(c) if c == 30.0));
    assert!(matches!(passes[3], ShadePass::ShadowMap(l) if l == 20.0));
    assert!(matches!(passes[4], ShadePass::BindDeferredPass2));
    assert!(matches!(passes[5], ShadePass::MajorLight(l) if l == 20.0));
    assert!(matches!(passes[6], ShadePass::ShadowMap(l) if l == 21.0));
    assert!(matches!(passes[7], ShadePass::BindDeferredPass2));
    assert!(matches!(passes[8], ShadePass::MajorLight(l) if l == 21.0));
    assert!(matches!(passes[9], ShadePass::PointLight(l) if l == 10.0));
    assert!(matches!(passes[10], ShadePass::PointLight(l) if l == 11.0));
    assert!(matches!(passes[11], ShadePass::Irradiance(w) if w == 0.5));
}

#[test]
fn chamber_without_lights_only_binds_the_lighting_pass() {
    let mut renderer: Renderer<f32, V3, f32> = Renderer::new(params(false), vec![Some(chamber())]);
    renderer.receive(RenderOp::SetCamera(1.0), 0);
    let done = end(renderer, Vec::new(), 0);
    let passes = done.shading[0].as_ref().unwrap().passes();
    assert_eq!(passes.len(), 1);
    assert!(matches!(passes[0], ShadePass::BindDeferredPass2));
}

#[test]
fn end_of_frame_moves_each_cursor_one_face() {
    let mut renderer: Renderer<f32, V3, f32> =
        Renderer::new(params(true), vec![Some(chamber()), None, Some(chamber())]);
    renderer.receive(RenderOp::SetCamera(1.0), 0);
    let captures = renderer.captures();
    assert_eq!(captures.len(), 3);
    assert_eq!(captures[0].unwrap().face, 0);
    assert!(!captures[0].unwrap().bake);
    assert!(captures[1].is_none());
    let done = renderer.finish(vec![None, None, None], 0);
    assert_eq!(done.chambers[0].as_ref().unwrap().state.current_probe(), (IVec3::new(0, 0, 0), 1));
    assert!(done.chambers[1].is_none());
    assert!(done.shading[1].is_none());
    assert_eq!(done.chambers[2].as_ref().unwrap().state.current_probe(), (IVec3::new(0, 0, 0), 1));
    assert_eq!(done.shading[2].as_ref().unwrap().chamber_index, 2);
}

#[test]
fn probe_is_baked_with_its_sixth_capture() {
    let fresh: Vec<(V3, V3, f32)> = (0..2).map(|_| ((1.0, 2.0, 3.0), (4.0, 5.0, 6.0), 7.0)).collect();
    let mut slot = Some(chamber());
    for face in 0..6 {
        let mut renderer: Renderer<f32, V3, f32> = Renderer::new(params(true), vec![slot.take()]);
        renderer.receive(RenderOp::SetCamera(1.0), 0);
        let captures = renderer.captures();
        assert_eq!(captures[0].unwrap().face, face);
        assert_eq!(captures[0].unwrap().bake, face == 5);
        let mut done = renderer.finish(vec![Some(fresh.clone())], 0);
        slot = done.chambers[0].take();
        let volume = slot.as_ref().unwrap().state.probe_volume();
        if face < 5 {
            assert_eq!(volume.probes()[0].sh[1], ((0.5, 0.5, 0.5), (0.25, 0.25, 0.25), 1.0));
            assert!(volume.texture_depth().iter().all(|c| *c == 0.0));
        } else {
            assert_eq!(volume.probes()[0].sh, fresh);
            let at = volume.get_coordinate(&IVec3::new(0, 0, 0), 0);
            assert_eq!(volume.texture_depth()[at], 7.0);
        }
    }
    assert_eq!(slot.unwrap().state.current_probe(), (IVec3::new(1, 0, 0), 0));
}

#[test]
fn log_comes_back_in_the_order_of_the_timestamps() {
    let mut renderer: Renderer<f32, V3, f32> = Renderer::new(params(false), Vec::new());
    renderer.receive(RenderOp::SetCamera(1.0), 0);
    for (now, chamber_index) in [(30, 3), (10, 1), (20, 2), (10, 4), (20, 5), (10, 6)] {
        renderer.receive(
            RenderOp::AddPointLight(AddPointLight { light: 0.0, chamber_index }),
            now,
        );
    }
    let done = end(renderer, Vec::new(), 50);
    let stamps: Vec<i64> = done.logs.iter().map(|l| l.timestamp).collect();
    assert_eq!(stamps, vec![10, 10, 10, 20, 20, 30]);
    let lines: Vec<&str> = done.logs.iter().map(|l| l.log.as_str()).collect();
    assert_eq!(
        lines,
        vec![
            "Invalid chamber accesses: 1",
            "Invalid chamber accesses: 4",
            "Invalid chamber accesses: 6",
            "Invalid chamber accesses: 2",
            "Invalid chamber accesses: 5",
            "Invalid chamber accesses: 3",
        ]
    );
}

#[test]
fn phases_follow_the_frame() {
    let mut renderer: Renderer<f32, V3, f32> = Renderer::new(params(false), Vec::new());
    assert_eq!(renderer.phase(), RenderPhase::Idle);
    renderer.receive(RenderOp::SetCamera(1.0), 0);
    assert_eq!(renderer.phase(), RenderPhase::Draining);
    renderer.receive(RenderOp::DrawLine(DrawLine { line: 1.0 }), 0);
    assert_eq!(renderer.phase(), RenderPhase::Draining);
    renderer.captures();
    assert_eq!(renderer.phase(), RenderPhase::Shading);
    let done = renderer.finish(Vec::new(), 3);
    assert_eq!(done.finished_at, 3);
}

#[test]
fn update_probe_bakes_only_with_the_last_face() {
    let fresh: Vec<(V3, V3, f32)> = (0..2).map(|_| ((1.0, 2.0, 3.0), (4.0, 5.0, 6.0), 7.0)).collect();
    let mut renderer: Renderer<f32, V3, f32> =
        Renderer::new(params(true), vec![Some(chamber()), Some(chamber())]);
    renderer.receive(RenderOp::AddPointLight(AddPointLight { light: 1.0, chamber_index: 0 }), 0);
    let ctx = &mut renderer.ctx;
    for face in 0..5 {
        assert_eq!(ctx.get_chamber_ctx(0).unwrap().chamber.state.current_probe().1, face);
        assert!(!ctx.update_probe(0, Some(fresh.clone())));
        let volume = ctx.get_chamber_ctx(0).unwrap().chamber.state.probe_volume();
        assert_eq!(volume.probes()[0].sh[1], ((0.5, 0.5, 0.5), (0.25, 0.25, 0.25), 1.0));
        assert_eq!(volume.probes()[1].sh[1], ((0.5, 0.5, 0.5), (0.25, 0.25, 0.25), 1.0));
        assert!(volume.texture_depth().iter().all(|c| *c == 0.0));
        assert!(volume.texture_illumination().iter().all(|c| *c == (0.0, 0.0, 0.0)));
    }
    assert!(ctx.update_probe(0, Some(fresh.clone())));
    let state = &ctx.get_chamber_ctx(0).unwrap().chamber.state;
    assert_eq!(state.current_probe(), (IVec3::new(1, 0, 0), 0));
    assert_eq!(state.probe_volume().probes()[0].sh, fresh);
    assert_eq!(state.probe_volume().probes()[1].sh[1], ((0.5, 0.5, 0.5), (0.25, 0.25, 0.25), 1.0));
    let at = state.probe_volume().get_coordinate(&IVec3::new(0, 0, 0), 1);
    assert_eq!(state.probe_volume().texture_depth()[at], 7.0);
    assert_eq!(ctx.get_chamber_ctx(0).unwrap().point_lights.len(), 1);
    let other = &ctx.get_chamber_ctx(1).unwrap().chamber.state;
    assert_eq!(other.current_probe(), (IVec3::new(0, 0, 0), 0));
    assert_eq!(other.probe_volume().probes()[0].sh[0], ((0.5, 0.5, 0.5), (0.25, 0.25, 0.25), 0.0));
}

#[test]
fn sort_logs_orders_by_timestamp() {
    let mut logs: Vec<FrameLog> = [5, 3, 9, 3, 1, 7]
        .iter()
        .enumerate()
        .map(|(i, t)| FrameLog::new(*t, format!("line {}", i)))
        .collect();
    sort_logs(&mut logs);
    let got: Vec<(i64, String)> = logs.into_iter().map(|l| (l.timestamp, l.log)).collect();
    let want: Vec<(i64, String)> = [(1, 4), (3, 1), (3, 3), (5, 0), (7, 5), (9, 2)]
        .iter()
        .map(|(t, i)| (*t, format!("line {}", i)))
        .collect();
    assert_eq!(got, want);
    let mut none: Vec<FrameLog> = Vec::new();
    sort_logs(&mut none);
    assert!(none.is_empty());
}

#[test]
fn errors_describe_themselves() {
    assert_eq!(OpError::InvalidChamberAccess(0).to_string(), "Invalid chamber accesses: 0");
    assert_eq!(OpError::InvalidChamberAccess(7).to_string(), "Invalid chamber accesses: 7");
    assert_eq!(OpError::InvalidChamberAccess(10).to_string(), "Invalid chamber accesses: 10");
    assert_eq!(
        OpError::InvalidChamberAccess(4294967295).to_string(),
        "Invalid chamber accesses: 4294967295"
    );
    assert_eq!(
        OpError::InvalidShade("twice".to_string()).to_string(),
        "Duplicated operations that must be unique: twice"
    );
    assert_eq!(OpError::Other("plain".to_string()).to_string(), "plain");
    let line = FrameLog::from_err(12, &OpError::InvalidChamberAccess(305));
    assert_eq!(line.timestamp, 12);
    assert_eq!(line.log, "Invalid chamber accesses: 305");
    assert_eq!(FrameLog::from_err(0, &OpError::Other("x".to_string())).log, "x");
    assert_eq!(FrameLog::new(0, "y".to_string()).log, "y");
}

#[test]
fn decimal_writes_numbers_without_leading_zeros() {
    assert_eq!(decimal(0), "0");
    assert_eq!(decimal(9), "9");
    assert_eq!(decimal(10), "10");
    assert_eq!(decimal(1905), "1905");
    assert_eq!(decimal(u32::MAX), "4294967295");
}

#[test]
fn frame_log_lines_carry_the_time_they_were_given() {
    let line = FrameLog::new(-5, "before the epoch".to_string());
    assert_eq!(line.timestamp, -5);
    assert_eq!(line.log, "before the epoch");
    let late = FrameLog::new(i64::MAX, "late".to_string());
    assert_eq!(late.timestamp, i64::MAX);
}

#[test]
fn renderer_params_default_to_outlines_only() {
    let p = RendererParams::default();
    assert!(p.debug_lightvolume_outline);
    assert!(!p.enable_shadow);
    assert!(!p.enable_irradiance_volume);
}

#[test]
fn renderer_params_follow_the_configuration() {
    let frame = FrameConfig { camera: 0.0f32, show_lightvolume_outline: true };
    let p = create_renderer_param(&configs(2, true), &frame);
    assert_eq!(
        p,
        RendererParams {
            debug_lightvolume_outline: true,
            enable_shadow: true,
            enable_irradiance_volume: true
        }
    );
    let frame = FrameConfig { camera: 0.0f32, show_lightvolume_outline: false };
    let p = create_renderer_param(&configs(2, false), &frame);
    assert!(!p.debug_lightvolume_outline && p.enable_shadow && !p.enable_irradiance_volume);
}

#[test]
fn chambers_take_the_first_free_slot() {
    let mut fere: Fere<u8, V3, f32> = Fere::new(configs(2, false), 1u8);
    assert_eq!(fere.configs().max_chamber_num, 2);
    assert_eq!(*fere.graphics(), 1);
    assert!(!fere.has_chamber(0));
    assert!(matches!(fere.add_chamber(chamber()), Ok(0)));
    assert!(matches!(fere.add_chamber(chamber()), Ok(1)));
    assert!(matches!(fere.add_chamber(chamber()), Err(Error::InvalidChamberAccess)));
    assert!(fere.has_chamber(0) && fere.has_chamber(1) && !fere.has_chamber(2));
    fere.remove_chamber(0);
    assert!(!fere.has_chamber(0) && fere.has_chamber(1));
    assert!(matches!(fere.add_chamber(chamber()), Ok(0)));
}

#[test]
fn device_and_chambers_travel_with_the_frame_and_back() {
    let mut fere: Fere<u8, V3, f32> = Fere::new(configs(2, true), 9u8);
    assert!(matches!(fere.add_chamber(chamber()), Ok(0)));
    let start = fere.new_frame(FrameConfig { camera: 2.0f32, show_lightvolume_outline: false });
    assert!(fere.graphics.is_none());
    assert!(!fere.has_chamber(0));
    assert_eq!(start.graphics, 9);
    assert_eq!(start.opening.len(), 2);
    let mut renderer = start.renderer;
    let mut frame = start.frame;
    let mut queue = start.opening;
    queue.extend(frame.push(general(1.0, true, 0)));
    queue.extend(frame.push(general(1.0, true, 5)));
    let end = frame.end();
    for op in queue {
        renderer.receive(op, 0);
    }
    assert!(matches!(end, RenderOp::EndFrame(_)));
    assert!(renderer.is_ready_to_finish());
    let captures = renderer.captures();
    assert_eq!(captures[0].unwrap().face, 0);
    let done = renderer.finish(vec![None, None], 0);
    assert_eq!(done.shading[0].as_ref().unwrap().shadow_objects.len(), 1);
    let logs = fere.end_frame(done, start.graphics);
    assert_eq!(logs.len(), 1);
    assert_eq!(logs[0].log, "Invalid chamber accesses: 5");
    assert_eq!(*fere.graphics(), 9);
    assert!(fere.has_chamber(0));
    assert_eq!(fere.chambers[0].as_ref().unwrap().state.current_probe(), (IVec3::new(0, 0, 0), 1));
}

#[test]
fn process_op_answers_with_the_draw_or_the_error() {
    let mut renderer: Renderer<f32, V3, f32> = Renderer::new(params(false), vec![Some(chamber())]);
    let ctx = &mut renderer.ctx;
    assert!(ctx.get_chamber_ctx(0).is_ok());
    assert!(matches!(ctx.get_chamber_ctx(1), Err(OpError::InvalidChamberAccess(1))));
    assert!(matches!(ctx.process_op(general(1.0, true, 3)), Err(OpError::InvalidChamberAccess(3))));
    assert!(ctx.get_chamber_ctx(0).unwrap().shadow_objects.is_empty());
    assert!(matches!(
        ctx.process_op(general(1.0, true, 0)),
        Ok(Some(RenderAction::DrawGeneral { .. }))
    ));
    assert_eq!(ctx.get_chamber_ctx(0).unwrap().shadow_objects.len(), 1);
    let shade = |weight: f32| RenderOp::ShadeWithIv(ShadeWithIv { chamber_index: 0, weight });
    assert!(matches!(ctx.process_op(shade(0.1)), Ok(None)));
    match ctx.process_op(shade(0.9)) {
        Err(OpError::InvalidShade(what)) => assert_eq!(what, "ShadeWithIv on chamber #0"),
        _ => panic!("a second request must be refused"),
    }
    assert_eq!(ctx.get_chamber_ctx(0).unwrap().shade_with_iv.as_ref().unwrap().weight, 0.1);
    assert!(matches!(
        ctx.process_op(RenderOp::DrawLine(DrawLine { line: 2.0 })),
        Ok(Some(RenderAction::DrawLine { line, .. })) if line == 2.0
    ));
    assert!(ctx.camera_info.is_none());
    assert!(matches!(
        ctx.process_op(RenderOp::SetCamera(4.0)),
        Ok(Some(RenderAction::BroadcastCamera(c))) if c == 4.0
    ));
    assert_eq!(ctx.camera_info, Some(4.0));
}

#[test]
fn instance_without_slots_takes_no_chamber() {
    let mut fere: Fere<u8, V3, f32> = Fere::new(configs(0, false), 1u8);
    assert!(fere.chambers.is_empty());
    assert!(matches!(fere.add_chamber(chamber()), Err(Error::InvalidChamberAccess)));
    let start = fere.new_frame(FrameConfig { camera: 2.0f32, show_lightvolume_outline: true });
    assert!(start.renderer.ctx.params.debug_lightvolume_outline);
    let mut renderer: Renderer<f32, V3, f32> = start.renderer;
    for op in start.opening {
        renderer.receive(op, 0);
    }
    let done = end(renderer, Vec::new(), 0);
    assert!(done.chambers.is_empty() && done.shading.is_empty() && done.overlay.is_empty());
    fere.end_frame(done, start.graphics);
    assert_eq!(*fere.graphics(), 1);
}

#[test]
fn end_of_frame_shades_the_chambers_in_order_then_draws_the_overlay() {
    let mut renderer: Renderer<f32, V3, f32> =
        Renderer::new(params(false), vec![Some(chamber()), None, Some(chamber())]);
    renderer.receive(RenderOp::SetCamera(1.0), 0);
    renderer.receive(RenderOp::DrawImage(DrawImage { image: 7.0 }), 0);
    renderer.receive(RenderOp::AddPointLight(AddPointLight { light: 2.0, chamber_index: 2 }), 0);
    renderer.receive(
        RenderOp::AddAmbientLight(AddAmbientLight { color: 3.0, omni: true, chamber_index: 0 }),
        0,
    );
    let done = end(renderer, Vec::new(), 0);
    let steps = done.steps();
    assert_eq!(steps.len(), 7);
    assert!(matches!(
        steps[0],
        EndStep::Shade { chamber_index: 0, pass: ShadePass::BindDeferredPass2 }
    ));
    assert!(matches!(
        steps[1],
        EndStep::Shade { chamber_index: 0, pass: ShadePass::OmniLight(c) } if c == 3.0
    ));
    assert!(matches!(
        steps[2],
        EndStep::Shade { chamber_index: 2, pass: ShadePass::BindDeferredPass2 }
    ));
    assert!(matches!(
        steps[3],
        EndStep::Shade { chamber_index: 2, pass: ShadePass::PointLight(l) } if l == 2.0
    ));
    assert!(matches!(steps[4], EndStep::Bind2d));
    assert!(matches!(steps[5], EndStep::Overlay(OverlayDraw::Image(i)) if i == 7.0));
    assert!(matches!(steps[6], EndStep::RenderFinal));
}

#[test]
fn recording_sessions_open_and_close_in_turn() {
    let mut fere: Fere<u8, V3, f32> = Fere::new(configs(1, false), 1u8);
    match fere.end_recording() {
        Err(Error::RecordingError(what)) => {
            assert_eq!(what, "end_recording() called without recording session")
        }
        _ => panic!("no session is open"),
    }
    assert!(fere.start_recording().is_ok());
    match fere.start_recording() {
        Err(Error::RecordingError(what)) => {
            assert_eq!(what, "start_recording() while there's already a session")
        }
        _ => panic!("a session is open already"),
    }
    assert!(fere.end_recording().is_ok());
    assert!(fere.start_recording().is_ok());
}
