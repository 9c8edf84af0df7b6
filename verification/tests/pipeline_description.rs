use vulkan_bootstrap::pipeline::{
    graphics_pipeline_create_info, pipeline_layout_create_info, shader_module_create_info,
    ColorBlendAttachmentState, ColorBlendState, ColorComponents, CullMode, FrontFace,
    GraphicsPipelineCreateInfo, InputAssemblyState, LogicOp, MultisampleState,
    PipelineLayoutCreateInfo, PolygonMode, PrimitiveTopology, RasterizationState, Rect2D,
    ShaderModuleCreateInfo, ShaderStage, ShaderStageCreateInfo, VertexInputState, Viewport,
    ViewportState,
};
use vulkan_bootstrap::render_pass::{
    render_pass_create_info, AttachmentDescription, AttachmentLoadOp, AttachmentReference,
    AttachmentStoreOp, ImageLayout, PipelineBindPoint, RenderPassCreateInfo, SampleCount,
    SubpassDescription,
};
use vulkan_bootstrap::swapchain::Extent2D;
use vulkan_bootstrap::views::{
    framebuffer_create_info, framebuffer_create_infos, image_view_create_info,
    image_view_create_infos, ComponentMapping, ComponentSwizzle,
    FramebufferCreateInfo, ImageAspects, ImageSubresourceRange, ImageViewCreateInfo,
    ImageViewType,
};

fn view_on(image: u64, format: i32) -> ImageViewCreateInfo {
    ImageViewCreateInfo {
        image,
        view_type: ImageViewType::Type2D,
        format,
        components: ComponentMapping {
            r: ComponentSwizzle::Identity,
            g: ComponentSwizzle::Identity,
            b: ComponentSwizzle::Identity,
            a: ComponentSwizzle::Identity,
        },
        subresource_range: ImageSubresourceRange {
            aspect_mask: ImageAspects { color: true, depth: false, stencil: false },
            base_mip_level: 0,
            level_count: 1,
            base_array_layer: 0,
            layer_count: 1,
        },
    }
}

#[test]
fn each_image_gets_a_view_in_the_order_of_the_images() {
    assert_eq!(
        image_view_create_infos(37, &vec![0x30, 0x10, 0x20]),
        vec![view_on(0x30, 37), view_on(0x10, 37), view_on(0x20, 37)]
    );
    assert_eq!(image_view_create_infos(44, &vec![7]), vec![view_on(7, 44)]);
}

#[test]
fn no_image_gets_no_view() {
    assert_eq!(image_view_create_infos(37, &Vec::new()), Vec::new());
}

#[test]
fn each_view_gets_a_framebuffer_in_the_order_of_the_views() {
    let extent = Extent2D { width: 800, height: 600 };
    let framebuffer = |view: u64| FramebufferCreateInfo {
        render_pass: 0xAA,
        attachments: vec![view],
        width: 800,
        height: 600,
        layers: 1,
    };
    assert_eq!(
        framebuffer_create_infos(0xAA, &vec![3, 1, 2], &extent),
        vec![framebuffer(3), framebuffer(1), framebuffer(2)]
    );
    assert_eq!(framebuffer_create_infos(0xAA, &Vec::new(), &extent), Vec::new());
}

#[test]
fn the_render_pass_has_one_color_attachment_and_one_subpass() {
    assert_eq!(
        render_pass_create_info(37),
        RenderPassCreateInfo {
            attachments: vec![AttachmentDescription {
                format: 37,
                samples: SampleCount::One,
                load_op: AttachmentLoadOp::Clear,
                store_op: AttachmentStoreOp::Store,
                stencil_load_op: AttachmentLoadOp::DontCare,
                stencil_store_op: AttachmentStoreOp::DontCare,
                initial_layout: ImageLayout::Undefined,
                final_layout: ImageLayout::PresentSrc,
            }],
            subpasses: vec![SubpassDescription {
                pipeline_bind_point: PipelineBindPoint::Graphics,
                color_attachments: vec![AttachmentReference {
                    attachment: 0,
                    layout: ImageLayout::ColorAttachmentOptimal,
                }],
            }],
        }
    );
}

#[test]
fn the_render_pass_takes_the_format_of_the_swapchain() {
    assert_eq!(render_pass_create_info(44).attachments[0].format, 44);
    assert_eq!(render_pass_create_info(50).attachments[0].format, 50);
}

#[test]
fn a_shader_module_holds_the_code_as_it_is() {
    let code = vec![0x03, 0x02, 0x23, 0x07, 0x00, 0x00, 0x01, 0x00];
    assert_eq!(
        shader_module_create_info(code.clone()),
        ShaderModuleCreateInfo { code_size: 8, code }
    );
    assert_eq!(
        shader_module_create_info(Vec::new()),
        ShaderModuleCreateInfo { code_size: 0, code: Vec::new() }
    );
}

#[test]
fn the_pipeline_layout_binds_nothing() {
    assert_eq!(
        pipeline_layout_create_info(),
        PipelineLayoutCreateInfo { set_layout_count: 0, push_constant_range_count: 0 }
    );
}

#[test]
fn the_pipeline_draws_filled_triangles_over_the_whole_image() {
    let extent = Extent2D { width: 1024, height: 768 };
    assert_eq!(
        graphics_pipeline_create_info(0x11, 0x22, 0x33, 0x44, extent),
        GraphicsPipelineCreateInfo {
            stages: vec![
                ShaderStageCreateInfo {
                    stage: ShaderStage::Vertex,
                    module: 0x11,
                    name: "main".to_string(),
                },
                ShaderStageCreateInfo {
                    stage: ShaderStage::Fragment,
                    module: 0x22,
                    name: "main".to_string(),
                },
            ],
            vertex_input_state: VertexInputState {
                vertex_binding_description_count: 0,
                vertex_attribute_description_count: 0,
            },
            input_assembly_state: InputAssemblyState {
                topology: PrimitiveTopology::TriangleList,
                primitive_restart_enable: false,
            },
            viewport_state: ViewportState {
                viewports: vec![Viewport {
                    x: 0,
                    y: 0,
                    width: 1024,
                    height: 768,
                    min_depth: 0,
                    max_depth: 1,
                }],
                scissors: vec![Rect2D { x: 0, y: 0, extent }],
            },
            rasterization_state: RasterizationState {
                depth_clamp_enable: false,
                rasterizer_discard_enable: false,
                polygon_mode: PolygonMode::Fill,
                cull_mode: CullMode::Back,
                front_face: FrontFace::Clockwise,
                depth_bias_enable: false,
                line_width: 1,
            },
            multisample_state: MultisampleState {
                rasterization_samples: SampleCount::One,
                sample_shading_enable: false,
            },
            color_blend_state: ColorBlendState {
                logic_op_enable: false,
                logic_op: LogicOp::Copy,
                attachments: vec![ColorBlendAttachmentState {
                    blend_enable: false,
                    color_write_mask: ColorComponents { r: true, g: true, b: true, a: true },
                }],
            },
            layout: 0x33,
            render_pass: 0x44,
            subpass: 0,
        }
    );
}

#[test]
fn viewport_and_scissor_follow_the_extent() {
    let info =
        graphics_pipeline_create_info(1, 2, 3, 4, Extent2D { width: 640, height: 480 });
    assert_eq!(info.viewport_state.viewports.len(), 1);
    assert_eq!(info.viewport_state.scissors.len(), 1);
    assert_eq!(info.viewport_state.viewports[0].width, 640);
    assert_eq!(info.viewport_state.viewports[0].height, 480);
    assert_eq!(info.viewport_state.scissors[0].extent, Extent2D { width: 640, height: 480 });
}

#[test]
fn one_image_gets_the_same_view_alone_as_among_others() {
    assert_eq!(image_view_create_info(37, 0x10), view_on(0x10, 37));
    assert_eq!(image_view_create_info(50, 0), view_on(0, 50));
    assert_eq!(
        image_view_create_infos(37, &vec![0x30, 0x10])[1],
        image_view_create_info(37, 0x10)
    );
}

#[test]
fn one_view_gets_the_same_framebuffer_alone_as_among_others() {
    let extent = Extent2D { width: 640, height: 480 };
    assert_eq!(
        framebuffer_create_info(0xBB, 7, &extent),
        FramebufferCreateInfo {
            render_pass: 0xBB,
            attachments: vec![7],
            width: 640,
            height: 480,
            layers: 1,
        }
    );
    assert_eq!(
        framebuffer_create_infos(0xBB, &vec![5, 7], &extent)[1],
        framebuffer_create_info(0xBB, 7, &extent)
    );
}
