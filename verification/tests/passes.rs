use wgpu_rs::marshal;
use wgpu_rs::native;
use wgpu_rs::{
    BindGroup, Color, CommandBuffer, ComputePipeline, Handle, Id, LoadOp, MarshalError,
    NativeCall, Queue, RenderPassColorAttachmentDescriptor,
    RenderPassDepthStencilAttachmentDescriptor, RenderPassDescriptor, StoreOp, TextureView,
    MAX_COLOR_ATTACHMENTS,
};

fn id(token: u64) -> Id {
    Id::from_token(token)
}

fn color(r: f32, g: f32, b: f32, a: f32) -> Color {
    Color { r: r.to_bits(), g: g.to_bits(), b: b.to_bits(), a: a.to_bits() }
}

fn attachment<'a>(
    view: &'a TextureView,
    load_op: LoadOp,
    clear: Color,
) -> RenderPassColorAttachmentDescriptor<&'a TextureView> {
    RenderPassColorAttachmentDescriptor {
        attachment: view,
        load_op,
        store_op: StoreOp::Store,
        clear_color: clear,
    }
}

fn flat_of(call: &NativeCall) -> &native::RenderPassDescriptor {
    match call {
        NativeCall::CommandBufferBeginRenderPass { desc, .. } => desc,
        other => panic!("not a render pass call: {:?}", other),
    }
}

#[test]
fn color_attachment_flattens_to_view_identifier() {
    let view = TextureView::from_id(id(77));
    let clear = color(0.25, 0.5, 0.75, 1.0);
    let flat = marshal::color_attachment(&attachment(&view, LoadOp::Load, clear));
    assert_eq!(
        flat,
        RenderPassColorAttachmentDescriptor {
            attachment: id(77),
            load_op: LoadOp::Load,
            store_op: StoreOp::Store,
            clear_color: clear,
        }
    );
    assert_eq!(f32::from_bits(flat.clear_color.b), 0.75);
}

#[test]
fn depth_stencil_attachment_flattens_to_view_identifier() {
    let view = TextureView::from_id(id(78));
    let flat = marshal::depth_stencil_attachment(&RenderPassDepthStencilAttachmentDescriptor {
        attachment: &view,
        depth_load_op: LoadOp::Clear,
        depth_store_op: StoreOp::Store,
        clear_depth: 1.0f32.to_bits(),
        stencil_load_op: LoadOp::Load,
        stencil_store_op: StoreOp::Store,
        clear_stencil: 9,
    });
    assert_eq!(
        flat,
        RenderPassDepthStencilAttachmentDescriptor {
            attachment: id(78),
            depth_load_op: LoadOp::Clear,
            depth_store_op: StoreOp::Store,
            clear_depth: 0x3f80_0000,
            stencil_load_op: LoadOp::Load,
            stencil_store_op: StoreOp::Store,
            clear_stencil: 9,
        }
    );
}

#[test]
fn render_pass_with_three_colors_keeps_their_order() {
    let a = TextureView::from_id(id(31));
    let b = TextureView::from_id(id(32));
    let c = TextureView::from_id(id(33));
    let colors = [
        attachment(&b, LoadOp::Clear, color(1.0, 0.0, 0.0, 1.0)),
        attachment(&c, LoadOp::Load, color(0.0, 1.0, 0.0, 1.0)),
        attachment(&a, LoadOp::Clear, color(0.0, 0.0, 1.0, 1.0)),
    ];
    let desc = RenderPassDescriptor { color_attachments: &colors, depth_stencil_attachment: None };
    let cb = CommandBuffer::from_id(id(40));
    let pending = match cb.begin_render_pass(&desc) {
        Ok(p) => p,
        Err(_) => panic!("three colour attachments were refused"),
    };
    match pending.call() {
        NativeCall::CommandBufferBeginRenderPass { command_buffer, .. } => {
            assert_eq!(*command_buffer, id(40))
        }
        other => panic!("unexpected call {:?}", other),
    }
    let flat = flat_of(pending.call());
    assert_eq!(
        flat.color_attachments.as_slice(),
        &[
            RenderPassColorAttachmentDescriptor {
                attachment: id(32),
                load_op: LoadOp::Clear,
                store_op: StoreOp::Store,
                clear_color: color(1.0, 0.0, 0.0, 1.0),
            },
            RenderPassColorAttachmentDescriptor {
                attachment: id(33),
                load_op: LoadOp::Load,
                store_op: StoreOp::Store,
                clear_color: color(0.0, 1.0, 0.0, 1.0),
            },
            RenderPassColorAttachmentDescriptor {
                attachment: id(31),
                load_op: LoadOp::Clear,
                store_op: StoreOp::Store,
                clear_color: color(0.0, 0.0, 1.0, 1.0),
            },
        ]
    );
    assert_eq!(flat.depth_stencil_attachment, None);
}

#[test]
fn render_pass_depth_stencil_present() {
    let view = TextureView::from_id(id(31));
    let depth = TextureView::from_id(id(35));
    let colors = [attachment(&view, LoadOp::Clear, color(0.0, 0.0, 0.0, 0.0))];
    let desc = RenderPassDescriptor {
        color_attachments: &colors,
        depth_stencil_attachment: Some(RenderPassDepthStencilAttachmentDescriptor {
            attachment: &depth,
            depth_load_op: LoadOp::Clear,
            depth_store_op: StoreOp::Store,
            clear_depth: 0.5f32.to_bits(),
            stencil_load_op: LoadOp::Clear,
            stencil_store_op: StoreOp::Store,
            clear_stencil: 0,
        }),
    };
    let flat = marshal::render_pass(&desc).unwrap();
    assert_eq!(flat.color_attachments.as_slice().len(), 1);
    assert_eq!(
        flat.depth_stencil_attachment,
        Some(RenderPassDepthStencilAttachmentDescriptor {
            attachment: id(35),
            depth_load_op: LoadOp::Clear,
            depth_store_op: StoreOp::Store,
            clear_depth: 0.5f32.to_bits(),
            stencil_load_op: LoadOp::Clear,
            stencil_store_op: StoreOp::Store,
            clear_stencil: 0,
        })
    );
}

#[test]
fn render_pass_depth_stencil_absent() {
    let desc: RenderPassDescriptor<'_, &TextureView> =
        RenderPassDescriptor { color_attachments: &[], depth_stencil_attachment: None };
    let flat = marshal::render_pass(&desc).unwrap();
    assert!(flat.color_attachments.as_slice().is_empty());
    assert_eq!(flat.depth_stencil_attachment, None);
}

#[test]
fn render_pass_at_capacity_is_accepted() {
    let view = TextureView::from_id(id(31));
    let one = attachment(&view, LoadOp::Load, color(0.0, 0.0, 0.0, 1.0));
    let colors = [one, one, one, one];
    assert_eq!(MAX_COLOR_ATTACHMENTS, 4);
    let desc = RenderPassDescriptor { color_attachments: &colors, depth_stencil_attachment: None };
    let flat = marshal::render_pass(&desc).unwrap();
    assert_eq!(flat.color_attachments.as_slice().len(), 4);
}

#[test]
fn render_pass_beyond_capacity_gives_the_command_buffer_back() {
    let view = TextureView::from_id(id(31));
    let one = attachment(&view, LoadOp::Load, color(0.0, 0.0, 0.0, 1.0));
    let colors = [one, one, one, one, one];
    let desc = RenderPassDescriptor { color_attachments: &colors, depth_stencil_attachment: None };
    assert_eq!(
        marshal::render_pass(&desc),
        Err(MarshalError::CapacityExceeded { limit: 4, given: 5 })
    );
    let cb = CommandBuffer::from_id(id(40));
    match cb.begin_render_pass(&desc) {
        Ok(_) => panic!("five colour attachments were accepted"),
        Err((cb, e)) => {
            assert_eq!(e, MarshalError::CapacityExceeded { limit: 4, given: 5 });
            assert_eq!(cb.id(), id(40));
            // still idle: a pass can begin
            let pending = cb.begin_compute_pass();
            assert_eq!(
                *pending.call(),
                NativeCall::CommandBufferBeginComputePass { command_buffer: id(40) }
            );
        }
    }
}

#[test]
fn render_pass_ends_with_the_command_buffer_it_began_on() {
    let view = TextureView::from_id(id(31));
    let colors = [attachment(&view, LoadOp::Clear, color(0.0, 0.0, 0.0, 1.0))];
    let desc = RenderPassDescriptor { color_attachments: &colors, depth_stencil_attachment: None };
    let cb = CommandBuffer::from_id(id(40));
    let pending = match cb.begin_render_pass(&desc) {
        Ok(p) => p,
        Err(_) => panic!("refused"),
    };
    let pass = pending.finish(id(41));
    let (cb, call) = pass.end_pass();
    assert_eq!(call, NativeCall::RenderPassEndPass { pass: id(41) });
    assert_eq!(cb.id(), id(40));
}

#[test]
fn compute_pass_commands_name_the_pass() {
    let cb = CommandBuffer::from_id(id(40));
    let pending = cb.begin_compute_pass();
    assert_eq!(
        *pending.call(),
        NativeCall::CommandBufferBeginComputePass { command_buffer: id(40) }
    );
    let mut pass = pending.finish(id(41));
    let pipeline = ComputePipeline::from_id(id(50));
    let group = BindGroup::from_id(id(60));
    assert_eq!(
        pass.set_pipeline(&pipeline),
        NativeCall::ComputePassSetPipeline { pass: id(41), pipeline: id(50) }
    );
    assert_eq!(
        pass.set_bind_group(2, &group),
        NativeCall::ComputePassSetBindGroup { pass: id(41), index: 2, bind_group: id(60) }
    );
    assert_eq!(
        pass.set_bind_group(u32::MAX, &group),
        NativeCall::ComputePassSetBindGroup { pass: id(41), index: u32::MAX, bind_group: id(60) }
    );
    // the handles were only borrowed
    assert_eq!(pipeline.id(), id(50));
    assert_eq!(group.id(), id(60));
    let (cb, call) = pass.end_pass();
    assert_eq!(call, NativeCall::ComputePassEndPass { pass: id(41) });
    assert_eq!(cb.id(), id(40));
}

#[test]
fn dispatch_forwards_the_three_counts() {
    let mut pass = CommandBuffer::from_id(id(40)).begin_compute_pass().finish(id(41));
    assert_eq!(
        pass.dispatch(8, 1, 1),
        NativeCall::ComputePassDispatch { pass: id(41), x: 8, y: 1, z: 1 }
    );
    assert_eq!(
        pass.dispatch(1, 2, 3),
        NativeCall::ComputePassDispatch { pass: id(41), x: 1, y: 2, z: 3 }
    );
    assert_eq!(
        pass.dispatch(0, u32::MAX, 0),
        NativeCall::ComputePassDispatch { pass: id(41), x: 0, y: u32::MAX, z: 0 }
    );
    // the pass is still the same open pass
    let (cb, call) = pass.end_pass();
    assert_eq!(call, NativeCall::ComputePassEndPass { pass: id(41) });
    assert_eq!(cb.id(), id(40));
}

#[test]
fn command_buffer_takes_a_new_pass_after_end_pass() {
    let cb = CommandBuffer::from_id(id(40));
    let (cb, _) = cb.begin_compute_pass().finish(id(41)).end_pass();
    let desc: RenderPassDescriptor<'_, &TextureView> =
        RenderPassDescriptor { color_attachments: &[], depth_stencil_attachment: None };
    let pending = match cb.begin_render_pass(&desc) {
        Ok(p) => p,
        Err(_) => panic!("refused"),
    };
    let (cb, call) = pending.finish(id(42)).end_pass();
    assert_eq!(call, NativeCall::RenderPassEndPass { pass: id(42) });
    let pending = cb.begin_compute_pass();
    assert_eq!(
        *pending.call(),
        NativeCall::CommandBufferBeginComputePass { command_buffer: id(40) }
    );
}

#[test]
fn command_buffer_can_be_submitted_after_end_pass() {
    let queue = Queue::from_id(id(90));
    let (cb, _) = CommandBuffer::from_id(id(40)).begin_compute_pass().finish(id(41)).end_pass();
    assert_eq!(
        queue.submit(&[cb]),
        NativeCall::QueueSubmit { queue: id(90), command_buffers: vec![id(40)] }
    );
}

#[test]
fn submit_keeps_the_order_of_command_buffers() {
    let queue = Queue::from_id(id(90));
    let a = CommandBuffer::from_id(id(3));
    let b = CommandBuffer::from_id(id(1));
    let c = CommandBuffer::from_id(id(2));
    assert_eq!(
        queue.submit(&[a, b, c]),
        NativeCall::QueueSubmit { queue: id(90), command_buffers: vec![id(3), id(1), id(2)] }
    );
}

#[test]
fn submit_of_nothing() {
    let queue = Queue::from_id(id(90));
    assert_eq!(
        queue.submit(&[]),
        NativeCall::QueueSubmit { queue: id(90), command_buffers: Vec::new() }
    );
}

#[test]
fn ids_reads_handles_in_order() {
    let buffers = [CommandBuffer::from_id(id(5)), CommandBuffer::from_id(id(4))];
    assert_eq!(marshal::ids(&buffers), vec![id(5), id(4)]);
}
