use crystal_vk::command::command_buffer_builder::{
    Binding, BufferImageCopy, Command, CommandBufferBuilder, ImageBarrier, ImageBlit, ImageRef,
    Offset3D, PipelineRef, RenderTargetRef,
};
use crystal_vk::vkraw;

fn pipeline(handle: u64, layout: u64) -> PipelineRef {
    PipelineRef { handle, layout, bind_point: vkraw::PIPELINE_BIND_POINT_COMPUTE }
}

fn image(width: u32, height: u32, layout: i32, mip_levels: u32) -> ImageRef {
    ImageRef { handle: 77, width, height, layout, mip_levels, array_layers: 1 }
}

fn target() -> RenderTargetRef {
    RenderTargetRef { handle: 5, render_pass: 6, framebuffers: vec![60, 61, 62], width: 800, height: 600 }
}

#[test]
fn new_builder_is_empty() {
    let b = CommandBufferBuilder::new(42);
    assert_eq!(b.handle(), 42);
    assert!(b.commands().is_empty());
    assert!(b.bindings().is_empty());
}

#[test]
fn push_constants_use_last_bound_pipeline() {
    let b = CommandBufferBuilder::new(1).bind_pipeline(pipeline(10, 100)).bind_pipeline(pipeline(11, 101));
    let b = b.push_constants(0x20, 4, &[1, 2, 3]);
    let cmds = b.commands();
    assert_eq!(cmds.len(), 3);
    assert_eq!(cmds[2], Command::PushConstants { layout: 101, stages: 0x20, offset: 4, constants: vec![1, 2, 3] });
    assert_eq!(b.bindings().len(), 2);
}

#[test]
fn bind_descriptor_sets_holds_sets_then_layout() {
    let b = CommandBufferBuilder::new(1).bind_pipeline(pipeline(10, 100));
    let b = b.bind_descriptor_sets(2, vec![7, 8]);
    assert_eq!(
        b.bindings().clone(),
        vec![
            Binding::Pipeline(pipeline(10, 100)),
            Binding::DescriptorSet(7),
            Binding::DescriptorSet(8),
            Binding::PipelineLayout(100),
        ]
    );
    assert_eq!(
        b.commands()[1],
        Command::BindDescriptorSets {
            bind_point: vkraw::PIPELINE_BIND_POINT_COMPUTE,
            layout: 100,
            first_set: 2,
            sets: vec![7, 8],
        }
    );
}

#[test]
fn dispatch_records_group_counts() {
    let b = CommandBufferBuilder::new(1).bind_pipeline(pipeline(10, 100)).dispatch([4, 5, 6]);
    assert_eq!(b.commands()[1], Command::Dispatch { x: 4, y: 5, z: 6 });
}

#[test]
fn render_pass_is_balanced_when_built() {
    let t = target();
    let b = CommandBufferBuilder::new(9)
        .begin_render_pass(&t, 2)
        .bind_pipeline(pipeline(10, 100))
        .bind_vertex_buffer(30)
        .bind_index_buffer(31, 1)
        .draw_indexed(6, 1, 0, -2, 0)
        .draw_indexed_inderect(32, 16, 3, 20)
        .end_render_pass();
    let (handle, bindings, commands) = b.build();
    assert_eq!(handle, 9);
    assert_eq!(
        commands[0],
        Command::BeginRenderPass {
            render_pass: 6,
            framebuffer: 62,
            width: 800,
            height: 600,
            contents: vkraw::SUBPASS_CONTENTS_INLINE,
        }
    );
    assert_eq!(commands[2], Command::BindVertexBuffer { first_binding: 0, buffer: 30, offset: 0 });
    assert_eq!(commands[3], Command::BindIndexBuffer { buffer: 31, offset: 0, index_type: 1 });
    assert_eq!(
        commands[4],
        Command::DrawIndexed { index_count: 6, instance_count: 1, first_index: 0, vertex_offset: -2, first_instance: 0 }
    );
    assert_eq!(commands[5], Command::DrawIndexedIndirect { buffer: 32, offset: 16, draw_count: 3, stride: 20 });
    assert_eq!(commands[6], Command::EndRenderPass);
    assert_eq!(
        bindings,
        vec![
            Binding::RenderTarget(5),
            Binding::Pipeline(pipeline(10, 100)),
            Binding::Buffer(30),
            Binding::Buffer(31),
        ]
    );
}

#[test]
fn pipeline_bound_before_render_pass_stays_bound() {
    let t = target();
    let b = CommandBufferBuilder::new(9).bind_pipeline(pipeline(10, 100)).begin_render_pass(&t, 0);
    let b = b.push_constants(1, 0, &[9]);
    assert_eq!(b.commands()[2], Command::PushConstants { layout: 100, stages: 1, offset: 0, constants: vec![9] });
    let b = b.end_render_pass();
    b.check_well_formed();
}

fn barrier(level: u32, old: i32, new: i32, src: u32, dst: u32, dst_stage: u32) -> Command {
    Command::PipelineBarrier(ImageBarrier {
        image: 77,
        old_layout: old,
        new_layout: new,
        src_access: src,
        dst_access: dst,
        src_stage: vkraw::PIPELINE_STAGE_TRANSFER,
        dst_stage,
        aspect_mask: vkraw::IMAGE_ASPECT_COLOR,
        base_mip_level: level,
        level_count: 1,
        layer_count: 1,
    })
}

fn blit(src_level: u32, src: (i32, i32), dst: (i32, i32)) -> Command {
    Command::BlitImage(ImageBlit {
        image: 77,
        src_layout: vkraw::IMAGE_LAYOUT_TRANSFER_SRC_OPTIMAL,
        dst_layout: vkraw::IMAGE_LAYOUT_TRANSFER_DST_OPTIMAL,
        aspect_mask: vkraw::IMAGE_ASPECT_COLOR,
        src_mip_level: src_level,
        dst_mip_level: src_level + 1,
        src_end: Offset3D { x: src.0, y: src.1, z: 1 },
        dst_end: Offset3D { x: dst.0, y: dst.1, z: 1 },
        filter: vkraw::FILTER_LINEAR,
    })
}

#[test]
fn generate_mipmaps_blits_each_level_down() {
    let img = image(8, 3, vkraw::IMAGE_LAYOUT_TRANSFER_DST_OPTIMAL, 3);
    let b = CommandBufferBuilder::new(1).generate_mipmaps(img);
    let c = b.commands().clone();
    assert_eq!(c.len(), 7);
    let to_src = |l| barrier(
        l,
        vkraw::IMAGE_LAYOUT_TRANSFER_DST_OPTIMAL,
        vkraw::IMAGE_LAYOUT_TRANSFER_SRC_OPTIMAL,
        vkraw::ACCESS_TRANSFER_WRITE,
        vkraw::ACCESS_TRANSFER_READ,
        vkraw::PIPELINE_STAGE_TRANSFER,
    );
    let to_shader = |l| barrier(
        l,
        vkraw::IMAGE_LAYOUT_TRANSFER_SRC_OPTIMAL,
        vkraw::IMAGE_LAYOUT_SHADER_READ_ONLY_OPTIMAL,
        vkraw::ACCESS_TRANSFER_READ,
        vkraw::ACCESS_SHADER_READ,
        vkraw::PIPELINE_STAGE_FRAGMENT_SHADER,
    );
    assert_eq!(c[0], to_src(0));
    assert_eq!(c[1], blit(0, (8, 3), (4, 1)));
    assert_eq!(c[2], to_shader(0));
    assert_eq!(c[3], to_src(1));
    assert_eq!(c[4], blit(1, (4, 1), (2, 1)));
    assert_eq!(c[5], to_shader(1));
    assert_eq!(
        c[6],
        barrier(
            2,
            vkraw::IMAGE_LAYOUT_TRANSFER_DST_OPTIMAL,
            vkraw::IMAGE_LAYOUT_SHADER_READ_ONLY_OPTIMAL,
            vkraw::ACCESS_TRANSFER_WRITE,
            vkraw::ACCESS_SHADER_READ,
            vkraw::PIPELINE_STAGE_FRAGMENT_SHADER,
        )
    );
    assert_eq!(b.bindings().clone(), vec![Binding::Image(77)]);
}

#[test]
fn generate_mipmaps_single_level_only_hands_over() {
    let b = CommandBufferBuilder::new(1).generate_mipmaps(image(16, 16, 0, 1));
    assert_eq!(b.commands().len(), 1);
}

#[test]
fn generate_mipmaps_of_huge_extent_wraps_like_i32() {
    let b = CommandBufferBuilder::new(1).generate_mipmaps(image(0x8000_0003, 0, 0, 2));
    assert_eq!(b.commands()[1], blit(0, (-2147483645, 0), (-1073741822, 1)));
}

#[test]
fn transition_undefined_to_transfer_dst() {
    let mut img = image(4, 4, vkraw::IMAGE_LAYOUT_UNDEFINED, 3);
    let b = CommandBufferBuilder::new(1).transition_image_layout(&mut img, vkraw::IMAGE_LAYOUT_TRANSFER_DST_OPTIMAL);
    assert_eq!(img.layout, vkraw::IMAGE_LAYOUT_TRANSFER_DST_OPTIMAL);
    assert_eq!(
        b.commands()[0],
        Command::PipelineBarrier(ImageBarrier {
            image: 77,
            old_layout: vkraw::IMAGE_LAYOUT_UNDEFINED,
            new_layout: vkraw::IMAGE_LAYOUT_TRANSFER_DST_OPTIMAL,
            src_access: 0,
            dst_access: vkraw::ACCESS_TRANSFER_WRITE,
            src_stage: vkraw::PIPELINE_STAGE_TOP_OF_PIPE,
            dst_stage: vkraw::PIPELINE_STAGE_TRANSFER,
            aspect_mask: vkraw::IMAGE_ASPECT_COLOR,
            base_mip_level: 0,
            level_count: 3,
            layer_count: 1,
        })
    );
}

#[test]
fn transition_transfer_dst_to_shader_read() {
    let b = CommandBufferBuilder::new(1).transition_image_layout(
        &mut image(4, 4, vkraw::IMAGE_LAYOUT_TRANSFER_DST_OPTIMAL, 1),
        vkraw::IMAGE_LAYOUT_SHADER_READ_ONLY_OPTIMAL,
    );
    match b.commands()[0] {
        Command::PipelineBarrier(bar) => {
            assert_eq!(bar.src_access, vkraw::ACCESS_TRANSFER_WRITE);
            assert_eq!(bar.dst_access, vkraw::ACCESS_SHADER_READ);
            assert_eq!(bar.src_stage, vkraw::PIPELINE_STAGE_TRANSFER);
            assert_eq!(bar.dst_stage, vkraw::PIPELINE_STAGE_FRAGMENT_SHADER);
        }
        _ => panic!("expected a barrier"),
    }
}

#[test]
fn transition_other_pair_waits_on_nothing() {
    let b = CommandBufferBuilder::new(1).transition_image_layout(
        &mut image(4, 4, vkraw::IMAGE_LAYOUT_SHADER_READ_ONLY_OPTIMAL, 1),
        vkraw::IMAGE_LAYOUT_TRANSFER_SRC_OPTIMAL,
    );
    match b.commands()[0] {
        Command::PipelineBarrier(bar) => {
            assert_eq!(bar.src_access, 0);
            assert_eq!(bar.dst_access, 0);
            assert_eq!(bar.src_stage, vkraw::PIPELINE_STAGE_TOP_OF_PIPE);
            assert_eq!(bar.dst_stage, vkraw::PIPELINE_STAGE_TRANSFER);
        }
        _ => panic!("expected a barrier"),
    }
}

#[test]
fn copy_image_to_buffer_transitions_then_copies() {
    let mut img = ImageRef { handle: 77, width: 32, height: 16, layout: 0, mip_levels: 1, array_layers: 6 };
    let b = CommandBufferBuilder::new(1).copy_image_to_buffer(90, &mut img);
    assert_eq!(img.layout, vkraw::IMAGE_LAYOUT_TRANSFER_SRC_OPTIMAL);
    assert_eq!(b.commands().len(), 2);
    assert_eq!(
        b.commands()[1],
        Command::CopyImageToBuffer(BufferImageCopy {
            image: 77,
            buffer: 90,
            image_layout: vkraw::IMAGE_LAYOUT_TRANSFER_SRC_OPTIMAL,
            aspect_mask: vkraw::IMAGE_ASPECT_COLOR,
            layer_count: 6,
            width: 32,
            height: 16,
            depth: 1,
        })
    );
    assert_eq!(b.bindings().clone(), vec![Binding::Image(77), Binding::Image(77), Binding::Buffer(90)]);
}

#[test]
fn copy_buffer_to_image_transitions_to_transfer_dst() {
    let mut img = image(8, 8, vkraw::IMAGE_LAYOUT_UNDEFINED, 1);
    let b = CommandBufferBuilder::new(1).copy_buffer_to_image(&mut img, 91);
    assert_eq!(img.layout, vkraw::IMAGE_LAYOUT_TRANSFER_DST_OPTIMAL);
    match &b.commands()[0] {
        Command::PipelineBarrier(bar) => {
            assert_eq!(bar.new_layout, vkraw::IMAGE_LAYOUT_TRANSFER_DST_OPTIMAL);
            assert_eq!(bar.dst_access, vkraw::ACCESS_TRANSFER_WRITE);
        }
        _ => panic!("expected a barrier"),
    }
    match &b.commands()[1] {
        Command::CopyBufferToImage(region) => {
            assert_eq!(region.buffer, 91);
            assert_eq!(region.image_layout, vkraw::IMAGE_LAYOUT_TRANSFER_DST_OPTIMAL);
        }
        _ => panic!("expected a copy"),
    }
}

#[test]
fn second_transition_starts_from_the_first_ones_layout() {
    let mut img = image(4, 4, vkraw::IMAGE_LAYOUT_UNDEFINED, 1);
    let b = CommandBufferBuilder::new(1)
        .transition_image_layout(&mut img, vkraw::IMAGE_LAYOUT_TRANSFER_DST_OPTIMAL)
        .transition_image_layout(&mut img, vkraw::IMAGE_LAYOUT_SHADER_READ_ONLY_OPTIMAL);
    match b.commands()[1] {
        Command::PipelineBarrier(bar) => {
            assert_eq!(bar.old_layout, vkraw::IMAGE_LAYOUT_TRANSFER_DST_OPTIMAL);
            assert_eq!(bar.new_layout, vkraw::IMAGE_LAYOUT_SHADER_READ_ONLY_OPTIMAL);
            assert_eq!(bar.src_access, vkraw::ACCESS_TRANSFER_WRITE);
        }
        _ => panic!("expected a barrier"),
    }
    assert_eq!(img.layout, vkraw::IMAGE_LAYOUT_SHADER_READ_ONLY_OPTIMAL);
}
