use wgpu_rs::marshal;
use wgpu_rs::native;
use wgpu_rs::{
    Attachment, AttachmentsState, BlendState, DepthStencilState, Device, Handle, Id, MarshalError,
    NativeCall, PipelineLayout, PipelineStageDescriptor, PrimitiveTopology,
    RenderPipelineDescriptor, ShaderModule, ShaderStage, TextureFormat, MAX_STAGES,
};

fn id(token: u64) -> Id {
    Id::from_token(token)
}

fn flat_of(call: &NativeCall) -> &native::RenderPipelineDescriptor {
    match call {
        NativeCall::DeviceCreateRenderPipeline { desc, .. } => desc,
        other => panic!("not a render pipeline call: {:?}", other),
    }
}

#[test]
fn c_string_appends_one_zero_byte() {
    assert_eq!(marshal::c_string("main"), Some(vec![b'm', b'a', b'i', b'n', 0]));
    assert_eq!(marshal::c_string("vs_main"), Some(b"vs_main\0".to_vec()));
}

#[test]
fn c_string_of_empty_name_is_the_zero_byte() {
    assert_eq!(marshal::c_string(""), Some(vec![0]));
}

#[test]
fn c_string_keeps_utf8_bytes() {
    assert_eq!(marshal::c_string("é"), Some(vec![0xC3, 0xA9, 0]));
}

#[test]
fn c_string_refuses_a_zero_byte_anywhere() {
    assert_eq!(marshal::c_string("\0"), None);
    assert_eq!(marshal::c_string("\0main"), None);
    assert_eq!(marshal::c_string("ma\0in"), None);
    assert_eq!(marshal::c_string("main\0"), None);
}

#[test]
fn ids_of_reads_borrowed_handles_in_order() {
    let a = BlendState::from_id(id(9));
    let b = BlendState::from_id(id(3));
    assert_eq!(marshal::ids_of(&[&a, &b, &a]), vec![id(9), id(3), id(9)]);
    assert_eq!(marshal::ids_of::<BlendState>(&[]), Vec::<Id>::new());
}

#[test]
fn stages_flatten_in_order_with_c_strings() {
    let vs = ShaderModule::from_id(id(21));
    let fs = ShaderModule::from_id(id(22));
    let stages = [
        PipelineStageDescriptor { module: &vs, stage: ShaderStage::Vertex, entry_point: "vs_main" },
        PipelineStageDescriptor { module: &fs, stage: ShaderStage::Fragment, entry_point: "fs" },
    ];
    let list = marshal::stages(&stages).unwrap();
    assert_eq!(
        list.as_slice(),
        &[
            native::PipelineStageDescriptor {
                module: id(21),
                stage: ShaderStage::Vertex,
                entry_point: b"vs_main\0".to_vec(),
            },
            native::PipelineStageDescriptor {
                module: id(22),
                stage: ShaderStage::Fragment,
                entry_point: b"fs\0".to_vec(),
            },
        ]
    );
}

#[test]
fn stages_of_one_and_of_none() {
    let cs = ShaderModule::from_id(id(5));
    let one =
        [PipelineStageDescriptor { module: &cs, stage: ShaderStage::Compute, entry_point: "" }];
    let list = marshal::stages(&one).unwrap();
    assert_eq!(
        list.as_slice(),
        &[native::PipelineStageDescriptor {
            module: id(5),
            stage: ShaderStage::Compute,
            entry_point: vec![0],
        }]
    );
    let list = marshal::stages(&[]).unwrap();
    assert!(list.as_slice().is_empty());
}

#[test]
fn stages_beyond_capacity_are_refused() {
    let m = ShaderModule::from_id(id(1));
    let stage = |s| PipelineStageDescriptor { module: &m, stage: s, entry_point: "main" };
    let three = [stage(ShaderStage::Vertex), stage(ShaderStage::Fragment), stage(ShaderStage::Compute)];
    assert_eq!(MAX_STAGES, 2);
    assert_eq!(
        marshal::stages(&three),
        Err(MarshalError::CapacityExceeded { limit: 2, given: 3 })
    );
}

#[test]
fn stage_with_zero_byte_is_refused_by_its_index() {
    let m = ShaderModule::from_id(id(1));
    let first_bad = [
        PipelineStageDescriptor { module: &m, stage: ShaderStage::Vertex, entry_point: "v\0s" },
        PipelineStageDescriptor { module: &m, stage: ShaderStage::Fragment, entry_point: "fs" },
    ];
    assert_eq!(marshal::stages(&first_bad), Err(MarshalError::InteriorNul { stage: 0 }));
    let second_bad = [
        PipelineStageDescriptor { module: &m, stage: ShaderStage::Vertex, entry_point: "vs" },
        PipelineStageDescriptor { module: &m, stage: ShaderStage::Fragment, entry_point: "fs\0" },
    ];
    assert_eq!(marshal::stages(&second_bad), Err(MarshalError::InteriorNul { stage: 1 }));
    let both_bad = [
        PipelineStageDescriptor { module: &m, stage: ShaderStage::Vertex, entry_point: "\0" },
        PipelineStageDescriptor { module: &m, stage: ShaderStage::Fragment, entry_point: "\0" },
    ];
    assert_eq!(marshal::stages(&both_bad), Err(MarshalError::InteriorNul { stage: 0 }));
}

#[test]
fn capacity_is_judged_before_names() {
    let m = ShaderModule::from_id(id(1));
    let stage = |name| PipelineStageDescriptor { module: &m, stage: ShaderStage::Vertex, entry_point: name };
    let three = [stage("a\0"), stage("b"), stage("c")];
    assert_eq!(
        marshal::stages(&three),
        Err(MarshalError::CapacityExceeded { limit: 2, given: 3 })
    );
}

#[test]
fn render_pipeline_flattens_every_part_in_order() {
    let device = Device::from_id(id(100));
    let layout = PipelineLayout::from_id(id(1));
    let vs = ShaderModule::from_id(id(2));
    let fs = ShaderModule::from_id(id(3));
    let blend_a = BlendState::from_id(id(4));
    let blend_b = BlendState::from_id(id(5));
    let blend_c = BlendState::from_id(id(6));
    let depth_stencil = DepthStencilState::from_id(id(7));
    let stages = [
        PipelineStageDescriptor { module: &vs, stage: ShaderStage::Vertex, entry_point: "vs_main" },
        PipelineStageDescriptor { module: &fs, stage: ShaderStage::Fragment, entry_point: "fs_main" },
    ];
    let colors = [
        Attachment { format: TextureFormat::R8g8b8a8Unorm, samples: 1 },
        Attachment { format: TextureFormat::B8g8r8a8Unorm, samples: 4 },
        Attachment { format: TextureFormat::R8g8b8a8Uint, samples: 2 },
    ];
    let blends = [&blend_c, &blend_a, &blend_b];
    let desc = RenderPipelineDescriptor {
        layout: &layout,
        stages: &stages,
        primitive_topology: PrimitiveTopology::TriangleList,
        attachments_state: AttachmentsState {
            color_attachments: &colors,
            depth_stencil_attachment: Some(Attachment {
                format: TextureFormat::D32FloatS8Uint,
                samples: 1,
            }),
        },
        blend_states: &blends,
        depth_stencil_state: &depth_stencil,
    };
    let pending = device.create_render_pipeline(&desc).unwrap();
    match pending.call() {
        NativeCall::DeviceCreateRenderPipeline { device, .. } => assert_eq!(*device, id(100)),
        other => panic!("unexpected call {:?}", other),
    }
    let flat = flat_of(pending.call());
    assert_eq!(flat.layout, id(1));
    assert_eq!(flat.stages.as_slice().len(), 2);
    assert_eq!(flat.stages.as_slice()[0].module, id(2));
    assert_eq!(flat.stages.as_slice()[0].stage, ShaderStage::Vertex);
    assert_eq!(flat.stages.as_slice()[0].entry_point, b"vs_main\0".to_vec());
    assert_eq!(flat.stages.as_slice()[1].module, id(3));
    assert_eq!(flat.stages.as_slice()[1].stage, ShaderStage::Fragment);
    assert_eq!(flat.stages.as_slice()[1].entry_point, b"fs_main\0".to_vec());
    assert_eq!(flat.primitive_topology, PrimitiveTopology::TriangleList);
    assert_eq!(flat.attachments_state.color_attachments, colors.to_vec());
    assert_eq!(
        flat.attachments_state.depth_stencil_attachment,
        Some(Attachment { format: TextureFormat::D32FloatS8Uint, samples: 1 })
    );
    assert_eq!(flat.blend_states, vec![id(6), id(4), id(5)]);
    assert_eq!(flat.depth_stencil_state, id(7));
    assert_eq!(pending.finish(id(200)).id(), id(200));
}

#[test]
fn render_pipeline_without_optional_attachment() {
    let device = Device::from_id(id(100));
    let layout = PipelineLayout::from_id(id(1));
    let depth_stencil = DepthStencilState::from_id(id(7));
    let desc = RenderPipelineDescriptor {
        layout: &layout,
        stages: &[],
        primitive_topology: PrimitiveTopology::PointList,
        attachments_state: AttachmentsState {
            color_attachments: &[],
            depth_stencil_attachment: None,
        },
        blend_states: &[],
        depth_stencil_state: &depth_stencil,
    };
    let pending = device.create_render_pipeline(&desc).unwrap();
    let flat = flat_of(pending.call());
    assert!(flat.stages.as_slice().is_empty());
    assert!(flat.attachments_state.color_attachments.is_empty());
    assert_eq!(flat.attachments_state.depth_stencil_attachment, None);
    assert!(flat.blend_states.is_empty());
    assert_eq!(flat.primitive_topology, PrimitiveTopology::PointList);
}

#[test]
fn render_pipeline_marshal_matches_create() {
    let layout = PipelineLayout::from_id(id(1));
    let m = ShaderModule::from_id(id(2));
    let depth_stencil = DepthStencilState::from_id(id(7));
    let stages =
        [PipelineStageDescriptor { module: &m, stage: ShaderStage::Vertex, entry_point: "main" }];
    let desc = RenderPipelineDescriptor {
        layout: &layout,
        stages: &stages,
        primitive_topology: PrimitiveTopology::LineStrip,
        attachments_state: AttachmentsState {
            color_attachments: &[],
            depth_stencil_attachment: None,
        },
        blend_states: &[],
        depth_stencil_state: &depth_stencil,
    };
    let flat = marshal::render_pipeline(&desc).unwrap();
    let device = Device::from_id(id(50));
    let pending = device.create_render_pipeline(&desc).unwrap();
    assert_eq!(
        *pending.call(),
        NativeCall::DeviceCreateRenderPipeline { device: id(50), desc: flat }
    );
}

#[test]
fn render_pipeline_with_too_many_stages_is_refused() {
    let device = Device::from_id(id(100));
    let layout = PipelineLayout::from_id(id(1));
    let m = ShaderModule::from_id(id(2));
    let depth_stencil = DepthStencilState::from_id(id(7));
    let stage = |s| PipelineStageDescriptor { module: &m, stage: s, entry_point: "main" };
    let stages = [
        stage(ShaderStage::Vertex),
        stage(ShaderStage::Fragment),
        stage(ShaderStage::Compute),
        stage(ShaderStage::Vertex),
    ];
    let desc = RenderPipelineDescriptor {
        layout: &layout,
        stages: &stages,
        primitive_topology: PrimitiveTopology::TriangleStrip,
        attachments_state: AttachmentsState {
            color_attachments: &[],
            depth_stencil_attachment: None,
        },
        blend_states: &[],
        depth_stencil_state: &depth_stencil,
    };
    match device.create_render_pipeline(&desc) {
        Err(e) => assert_eq!(e, MarshalError::CapacityExceeded { limit: 2, given: 4 }),
        Ok(_) => panic!("four stages were accepted"),
    }
    assert_eq!(
        marshal::render_pipeline(&desc),
        Err(MarshalError::CapacityExceeded { limit: 2, given: 4 })
    );
}

#[test]
fn render_pipeline_with_zero_byte_in_entry_point_is_refused() {
    let device = Device::from_id(id(100));
    let layout = PipelineLayout::from_id(id(1));
    let m = ShaderModule::from_id(id(2));
    let depth_stencil = DepthStencilState::from_id(id(7));
    let stages = [
        PipelineStageDescriptor { module: &m, stage: ShaderStage::Vertex, entry_point: "main" },
        PipelineStageDescriptor { module: &m, stage: ShaderStage::Fragment, entry_point: "ma\0in" },
    ];
    let desc = RenderPipelineDescriptor {
        layout: &layout,
        stages: &stages,
        primitive_topology: PrimitiveTopology::LineList,
        attachments_state: AttachmentsState {
            color_attachments: &[],
            depth_stencil_attachment: None,
        },
        blend_states: &[],
        depth_stencil_state: &depth_stencil,
    };
    match device.create_render_pipeline(&desc) {
        Err(e) => assert_eq!(e, MarshalError::InteriorNul { stage: 1 }),
        Ok(_) => panic!("a name with a zero byte was accepted"),
    }
}
